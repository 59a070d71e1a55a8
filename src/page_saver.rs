//! Where and how a captured page is saved: the destination directory, the
//! image format, the viewport, and the file names.
use vstd::prelude::*;

use crate::planner::ViewportSpec;
use crate::session::{CaptureConfig, CaptureSession, Phase};

verus! {

/// Directory that pages are saved to unless set otherwise.
pub const DEFAULT_SAVE_PATH: &'static str = "./saved_pages";

/// Image format (file extension) used unless set otherwise.
pub const DEFAULT_IMAGE_FORMAT: &'static str = "png";

pub const DEFAULT_VIEWPORT_WIDTH: u32 = 1920;

pub const DEFAULT_VIEWPORT_HEIGHT: u32 = 1080;

/// The decimal digit `d` as a character.
pub open spec fn digit_char(d: nat) -> char {
    ((d + 48) as u32) as char
}

/// The decimal notation of `n`, without sign or leading zeros.
pub open spec fn decimal_digits(n: nat) -> Seq<char>
    decreases n,
{
    if n < 10 {
        seq![digit_char(n)]
    } else {
        decimal_digits(n / 10).push(digit_char(n % 10))
    }
}

/// The MD5 digest of the UTF-8 bytes of `text`, in lowercase hexadecimal.
pub uninterp spec fn md5_hex_of(text: Seq<char>) -> Seq<char>;

/// Relies on u64's `ToString` (through `Display`): its decimal digits,
/// without sign or padding.
#[verifier::external_body]
fn decimal_string(n: u64) -> (r: String)
    ensures
        r@ == decimal_digits(n as nat),
{
    n.to_string()
}

/// Relies on md5::compute over the bytes of `text`, printed through the
/// digest's `LowerHex`, which writes each of its 16 bytes as two digits.
#[verifier::external_body]
fn md5_hex(text: &str) -> (r: String)
    ensures
        r@ == md5_hex_of(text@),
        r@.len() == 32,
{
    format!("{:x}", md5::compute(text))
}

/// Settings for saving web pages as images.
pub struct SavePageAsImage {
    save_path: String,
    image_format: String,
    viewport_width: u32,
    viewport_height: u32,
}

impl SavePageAsImage {
    pub closed spec fn spec_save_path(&self) -> Seq<char> {
        self.save_path@
    }

    pub closed spec fn spec_image_format(&self) -> Seq<char> {
        self.image_format@
    }

    pub closed spec fn spec_viewport(&self) -> ViewportSpec {
        ViewportSpec { width: self.viewport_width, height: self.viewport_height }
    }

    /// The viewport is never empty.
    pub open spec fn wf(&self) -> bool {
        self.spec_viewport().wf()
    }

    /// Default settings: `./saved_pages`, `png`, a 1920 x 1080 viewport.
    pub fn new() -> (r: Self)
        ensures
            r.wf(),
            r.spec_save_path() == DEFAULT_SAVE_PATH@,
            r.spec_image_format() == DEFAULT_IMAGE_FORMAT@,
            r.spec_viewport() == (ViewportSpec {
                width: DEFAULT_VIEWPORT_WIDTH,
                height: DEFAULT_VIEWPORT_HEIGHT,
            }),
    {
        SavePageAsImage {
            save_path: DEFAULT_SAVE_PATH.to_owned(),
            image_format: DEFAULT_IMAGE_FORMAT.to_owned(),
            viewport_width: DEFAULT_VIEWPORT_WIDTH,
            viewport_height: DEFAULT_VIEWPORT_HEIGHT,
        }
    }

    /// Sets the directory that files are saved to.
    pub fn set_save_path(&mut self, path: &str)
        ensures
            final(self).spec_save_path() == path@,
            final(self).spec_image_format() == old(self).spec_image_format(),
            final(self).spec_viewport() == old(self).spec_viewport(),
    {
        self.save_path = path.to_owned();
    }

    /// Sets the image format, used as the file extension.
    pub fn set_image_format(&mut self, format: &str)
        ensures
            final(self).spec_image_format() == format@,
            final(self).spec_save_path() == old(self).spec_save_path(),
            final(self).spec_viewport() == old(self).spec_viewport(),
    {
        self.image_format = format.to_owned();
    }

    /// Sets the viewport that pages are rendered at; both sides must be positive.
    pub fn set_viewport(&mut self, width: u32, height: u32)
        requires
            width > 0,
            height > 0,
        ensures
            final(self).spec_viewport() == (ViewportSpec { width, height }),
            final(self).spec_save_path() == old(self).spec_save_path(),
            final(self).spec_image_format() == old(self).spec_image_format(),
    {
        self.viewport_width = width;
        self.viewport_height = height;
    }

    pub fn save_path(&self) -> (r: &str)
        ensures
            r@ == self.spec_save_path(),
    {
        self.save_path.as_str()
    }

    pub fn image_format(&self) -> (r: &str)
        ensures
            r@ == self.spec_image_format(),
    {
        self.image_format.as_str()
    }

    pub fn viewport(&self) -> (r: ViewportSpec)
        ensures
            r == self.spec_viewport(),
    {
        ViewportSpec { width: self.viewport_width, height: self.viewport_height }
    }

    /// A capture session for the whole of the page at `url`, at this viewport.
    pub fn full_page_session(&self, url: &str, config: CaptureConfig) -> (r: CaptureSession)
        requires
            self.wf(),
        ensures
            r.wf(),
            r.spec_url() == url@,
            r.spec_viewport() == self.spec_viewport(),
            r.spec_config() == config,
            r.spec_phase() == Phase::Idle,
    {
        CaptureSession::new(url.to_owned(), self.viewport(), config)
    }

    /// A file name for `url` saved at `timestamp_secs` (seconds since the
    /// Unix epoch): `page_<seconds>_<md5 of url in hex>`.
    pub fn generate_filename(&self, url: &str, timestamp_secs: u64) -> (r: String)
        ensures
            r@ == "page_"@ + decimal_digits(timestamp_secs as nat) + "_"@ + md5_hex_of(url@),
    {
        let mut name = "page_".to_owned();
        let seconds = decimal_string(timestamp_secs);
        name.append(seconds.as_str());
        name.append("_");
        let digest = md5_hex(url);
        name.append(digest.as_str());
        name
    }

    /// Where the full-page image with file name `stem` goes:
    /// `<save path>/<stem>_full.<format>`.
    pub fn full_page_path(&self, stem: &str) -> (r: String)
        ensures
            r@ == self.spec_save_path() + "/"@ + stem@ + "_full."@ + self.spec_image_format(),
    {
        let mut path = self.save_path.clone();
        path.append("/");
        path.append(stem);
        path.append("_full.");
        path.append(self.image_format.as_str());
        path
    }
}

} // verus!
