//! One full-page capture as a state machine. The session decides; its driver
//! performs each returned [`Action`] against the rendering surface, one at a
//! time, and hands back what came of it as an [`Event`].
//!
//! The session opens the page, waits for it to load, sizes the viewport,
//! measures the page, then for each planned tile scrolls, lets the page
//! settle for a fixed delay (the surface gives no way to confirm that a
//! scroll has finished) and captures. A failed scroll or capture is retried
//! after a jittered exponential backoff, up to the configured number of
//! retries; any other failure ends the session and drops what was captured.
use vstd::prelude::*;

use crate::compositor::{
    all_wf, all_width, compose, rgba_len, stacked, CapturedTile, CompositeImage,
    CompositorError, RawImage,
};
use crate::planner::{plan, planned_tiles, TileSpec, ViewportSpec};

verus! {

/// Retry and pacing policy of a session.
#[derive(Clone, Copy, Debug, PartialEq, Eq, Structural)]
pub struct CaptureConfig {
    /// Retries of one tile after its first failed attempt.
    pub max_retries: u32,
    /// Nominal wait before the first retry of a tile.
    pub backoff_base_millis: u64,
    /// Each further retry waits this many times longer.
    pub backoff_factor: u64,
    /// Wait between a scroll and the capture that follows it; zero for none.
    pub settle_millis: u64,
}

impl Default for CaptureConfig {
    /// Three retries, backing off from 200 ms by a factor of two, and a 50 ms
    /// settle delay after each scroll.
    fn default() -> (r: Self)
        ensures
            r.max_retries == 3,
            r.backoff_base_millis == 200,
            r.backoff_factor == 2,
            r.settle_millis == 50,
    {
        CaptureConfig { max_retries: 3, backoff_base_millis: 200, backoff_factor: 2, settle_millis: 50 }
    }
}

/// What went wrong in one call to the rendering surface.
#[derive(Debug)]
pub enum SurfaceError {
    /// The remote-control connection failed; the text says how.
    Transport(String),
    /// The call did not complete in time.
    Timeout,
    /// The surface went away.
    Crashed,
    /// What came back is not an RGBA image of the size it claims.
    Undecodable,
}

/// Why a session ended without an image.
#[derive(Debug)]
pub enum CaptureError {
    /// The page could not be loaded and measured, or its height is not a
    /// usable number of rows. It holds the surface's error, if one came.
    MeasurementFailed(Option<SurfaceError>),
    /// Tile `index` still failed after every retry.
    TileCaptureFailed { index: usize, cause: SurfaceError },
    /// Tile `index` came back with another height than planned.
    GeometryMismatch { index: usize, expected_height: u32, actual_height: u32 },
    /// Tile `index` is not as wide as the viewport.
    WidthMismatch { index: usize, expected: u32, actual: u32 },
    /// The caller asked the session to stop.
    Cancelled,
    /// The driver reported an outcome that the last action cannot have had.
    UnexpectedEvent,
}

/// Where a session stands.
#[derive(Clone, Copy, Debug, PartialEq, Eq, Structural)]
pub enum Phase {
    Idle,
    Navigating,
    Loading,
    SizingViewport,
    Measuring,
    Scrolling,
    Settling,
    Capturing,
    BackingOff,
    Done,
    Failed,
}

/// The next thing the driver must do.
pub enum Action {
    /// Open this address in the surface.
    Navigate(String),
    /// Wait until the page has loaded.
    WaitUntilLoaded,
    /// Resize the surface's viewport.
    SetViewport { width: u32, height: u32 },
    /// Read the page's full height in rows.
    MeasureHeight,
    /// Scroll the page so that row `y` is at the top.
    ScrollTo { y: u32 },
    /// Sleep for some time between the two bounds.
    Wait { min_millis: u64, max_millis: u64 },
    /// Capture `width` columns and `height` rows from row `y` on, for tile
    /// `index` of the plan.
    CaptureTile { index: usize, y: u32, width: u32, height: u32 },
    /// The session is over; here is the page.
    Finish(CompositeImage),
    /// The session is over and failed.
    Fail(CaptureError),
    /// The session was already over; nothing more to do.
    Stop,
}

/// What came of the last action.
pub enum Event {
    /// It completed and returned nothing.
    Completed,
    /// The height measurement returned this, if it was a non-negative integer.
    Measured(Option<u64>),
    /// The capture returned this image.
    Captured(RawImage),
    /// The surface reported an error.
    SurfaceFailed(SurfaceError),
    /// The caller cancelled the session. The driver hands this over instead
    /// of performing the pending action, or once the remote call in flight
    /// has returned, dropping its outcome.
    Cancelled,
}

/// Nominal wait before retry number `attempt` (from 1): the base, multiplied
/// by the factor once per earlier retry, saturating at `u64::MAX`.
pub open spec fn backoff_nominal(base: nat, factor: nat, attempt: nat) -> nat
    decreases attempt,
{
    if attempt <= 1 {
        base
    } else {
        let n = backoff_nominal(base, factor, (attempt - 1) as nat) * factor;
        if n > u64::MAX { u64::MAX as nat } else { n }
    }
}

/// The nominal wait, jittered by up to a fifth either way.
pub open spec fn jitter_window(nominal: nat) -> (nat, nat) {
    let spread = nominal / 5;
    let high = nominal + spread;
    ((nominal - spread) as nat, if high > u64::MAX { u64::MAX as nat } else { high })
}

/// Nominal wait before retry number `attempt` (from 1) under `config`.
pub fn backoff_millis(config: &CaptureConfig, attempt: u32) -> (r: u64)
    ensures
        r == backoff_nominal(
            config.backoff_base_millis as nat,
            config.backoff_factor as nat,
            attempt as nat,
        ),
{
    let mut delay = config.backoff_base_millis;
    let mut k: u32 = 1;
    while k < attempt
        invariant
            1 <= k,
            k <= attempt || attempt <= 1,
            attempt <= 1 ==> k == 1,
            delay == backoff_nominal(
                config.backoff_base_millis as nat,
                config.backoff_factor as nat,
                k as nat,
            ),
        decreases attempt - k,
    {
        delay = match delay.checked_mul(config.backoff_factor) {
            Some(d) => d,
            None => u64::MAX,
        };
        k = k + 1;
    }
    proof {
        if attempt <= 1 {
            assert(k == 1);
            assert(backoff_nominal(config.backoff_base_millis as nat, config.backoff_factor as nat, attempt as nat)
                == config.backoff_base_millis);
        } else {
            assert(k == attempt);
        }
    }
    delay
}

/// The bounds of the jittered wait before retry number `attempt` (from 1).
pub fn backoff_window(config: &CaptureConfig, attempt: u32) -> (r: (u64, u64))
    ensures
        r.0 as nat == jitter_window(
            backoff_nominal(config.backoff_base_millis as nat, config.backoff_factor as nat, attempt as nat),
        ).0,
        r.1 as nat == jitter_window(
            backoff_nominal(config.backoff_base_millis as nat, config.backoff_factor as nat, attempt as nat),
        ).1,
        r.0 <= r.1,
{
    let nominal = backoff_millis(config, attempt);
    let spread = nominal / 5;
    (nominal - spread, nominal.saturating_add(spread))
}

/// The phases in which the session works through the tiles of its plan.
pub open spec fn is_tiling(phase: Phase) -> bool {
    phase == Phase::Scrolling || phase == Phase::Settling || phase == Phase::Capturing
        || phase == Phase::BackingOff
}

/// The phases before the page has been measured.
pub open spec fn is_setup(phase: Phase) -> bool {
    phase == Phase::Navigating || phase == Phase::Loading || phase == Phase::SizingViewport
}

/// Whether `event` is an outcome that the action issued in `phase` can have.
pub open spec fn expected_event(phase: Phase, event: Event) -> bool {
    match event {
        Event::Cancelled => true,
        Event::Completed => is_setup(phase) || phase == Phase::Scrolling || phase
            == Phase::Settling || phase == Phase::BackingOff,
        Event::Measured(_) => phase == Phase::Measuring,
        Event::Captured(_) => phase == Phase::Capturing,
        Event::SurfaceFailed(_) => is_setup(phase) || phase == Phase::Measuring || phase
            == Phase::Scrolling || phase == Phase::Settling || phase == Phase::Capturing,
    }
}

/// Both sessions capture the same page at the same viewport under the same policy.
pub open spec fn keeps_setup(s: CaptureSession, t: CaptureSession) -> bool {
    &&& t.spec_url() == s.spec_url()
    &&& t.spec_viewport() == s.spec_viewport()
    &&& t.spec_config() == s.spec_config()
}

/// `t` is `s` moved on to phase `p`, with nothing else changed.
pub open spec fn moved_to(s: CaptureSession, t: CaptureSession, p: Phase) -> bool {
    &&& keeps_setup(s, t)
    &&& t.spec_phase() == p
    &&& t.spec_content_height() == s.spec_content_height()
    &&& t.spec_plan() == s.spec_plan()
    &&& t.spec_tiles() == s.spec_tiles()
    &&& t.spec_failures() == s.spec_failures()
}

/// The session has failed with `e`, and the tiles captured so far are dropped.
pub open spec fn failed_with(t: CaptureSession, action: Action, e: CaptureError) -> bool {
    &&& t.spec_phase() == Phase::Failed
    &&& t.spec_tiles().len() == 0
    &&& action == Action::Fail(e)
}

/// A measured height that the session can plan and hold in memory.
pub open spec fn measurable(height: nat, viewport: ViewportSpec) -> bool {
    height <= u32::MAX && rgba_len(viewport.width as nat, height) <= usize::MAX
}

/// After measuring `height` rows: the page's tiles are planned; an empty
/// page is finished at once with an empty image, any other is scrolled to
/// its top.
pub open spec fn measured(s: CaptureSession, t: CaptureSession, height: nat, action: Action) -> bool {
    &&& keeps_setup(s, t)
    &&& t.spec_content_height() == height
    &&& t.spec_plan() == planned_tiles(height, s.spec_viewport().height as nat)
    &&& t.spec_tiles().len() == 0
    &&& t.spec_failures() == 0
    &&& height == 0 ==> {
        &&& t.spec_phase() == Phase::Done
        &&& (action matches Action::Finish(image) && image.width == s.spec_viewport().width
            && image.height == 0 && image.pixels@.len() == 0)
    }
    &&& height > 0 ==> t.spec_phase() == Phase::Scrolling && action == Action::ScrollTo { y: 0 }
}

/// The capture of the tile that `s` is working on.
pub open spec fn capture_action(s: CaptureSession) -> Action {
    Action::CaptureTile {
        index: s.spec_tiles().len() as usize,
        y: s.current_tile().scroll_offset,
        width: s.spec_viewport().width,
        height: s.current_tile().capture_height,
    }
}

/// After a failed attempt on the current tile: if retries are left, wait
/// out the backoff for the next retry; else fail with the surface's error.
pub open spec fn retried_or_failed(
    s: CaptureSession,
    t: CaptureSession,
    action: Action,
    e: SurfaceError,
) -> bool {
    let config = s.spec_config();
    if s.spec_failures() < config.max_retries {
        let window = jitter_window(
            backoff_nominal(
                config.backoff_base_millis as nat,
                config.backoff_factor as nat,
                s.spec_failures() + 1,
            ),
        );
        &&& keeps_setup(s, t)
        &&& t.spec_phase() == Phase::BackingOff
        &&& t.spec_content_height() == s.spec_content_height()
        &&& t.spec_plan() == s.spec_plan()
        &&& t.spec_tiles() == s.spec_tiles()
        &&& t.spec_failures() == s.spec_failures() + 1
        &&& (action matches Action::Wait { min_millis, max_millis } && min_millis == window.0
            && max_millis == window.1)
    } else {
        failed_with(t, action, CaptureError::TileCaptureFailed { index: s.spec_tiles().len() as usize, cause: e })
    }
}

/// The tiles of `s` with `image` kept as the current tile.
pub open spec fn tiles_with(s: CaptureSession, image: RawImage) -> Seq<CapturedTile> {
    s.spec_tiles().push(
        CapturedTile {
            index: s.spec_tiles().len() as usize,
            width: image.width,
            height: image.height,
            pixels: image.pixels,
        },
    )
}

/// After the current tile came back as planned: it is kept, and the session
/// scrolls to the next tile; after the last one, the tiles are stacked into
/// the page's image, or the first tile not as wide as the viewport fails it.
pub open spec fn accepted(s: CaptureSession, t: CaptureSession, action: Action, image: RawImage) -> bool {
    let tiles = tiles_with(s, image);
    let width = s.spec_viewport().width;
    &&& keeps_setup(s, t)
    &&& if tiles.len() < s.spec_plan().len() {
        &&& t.spec_phase() == Phase::Scrolling
        &&& t.spec_content_height() == s.spec_content_height()
        &&& t.spec_plan() == s.spec_plan()
        &&& t.spec_tiles() == tiles
        &&& t.spec_failures() == 0
        &&& action == Action::ScrollTo { y: s.spec_plan()[tiles.len() as int].scroll_offset }
    } else if all_width(tiles, width as nat) {
        &&& t.spec_phase() == Phase::Done
        &&& t.spec_tiles().len() == 0
        &&& (action matches Action::Finish(page) && page.width == width && page.height
            == s.spec_content_height() && page.pixels@ == stacked(tiles))
    } else {
        &&& t.spec_phase() == Phase::Failed
        &&& t.spec_tiles().len() == 0
        &&& (action matches Action::Fail(CaptureError::WidthMismatch { index, expected, actual })
            && index < tiles.len() && all_width(tiles.take(index as int), width as nat) && expected
            == width && actual == tiles[index as int].width && actual != width)
    }
}

/// One full-page capture of `url` at a fixed viewport.
pub struct CaptureSession {
    url: String,
    viewport: ViewportSpec,
    config: CaptureConfig,
    phase: Phase,
    content_height: u32,
    plan: Vec<TileSpec>,
    tiles: Vec<CapturedTile>,
    failures: u32,
}

impl CaptureSession {
    pub closed spec fn spec_url(&self) -> Seq<char> {
        self.url@
    }

    pub closed spec fn spec_viewport(&self) -> ViewportSpec {
        self.viewport
    }

    pub closed spec fn spec_config(&self) -> CaptureConfig {
        self.config
    }

    pub closed spec fn spec_phase(&self) -> Phase {
        self.phase
    }

    /// The measured page height, once measured.
    pub closed spec fn spec_content_height(&self) -> nat {
        self.content_height as nat
    }

    /// The tile plan, once the page is measured.
    pub closed spec fn spec_plan(&self) -> Seq<TileSpec> {
        self.plan@
    }

    /// The tiles captured so far, in plan order.
    pub closed spec fn spec_tiles(&self) -> Seq<CapturedTile> {
        self.tiles@
    }

    /// Failed attempts on the tile being captured.
    pub closed spec fn spec_failures(&self) -> nat {
        self.failures as nat
    }

    /// The session has ended, well or not.
    pub open spec fn is_over(&self) -> bool {
        self.spec_phase() == Phase::Done || self.spec_phase() == Phase::Failed
    }

    /// The tile that the session is working on.
    pub open spec fn current_tile(&self) -> TileSpec {
        self.spec_plan()[self.spec_tiles().len() as int]
    }

    /// Ends the session with `e`, dropping what was captured.
    fn fail(&mut self, e: CaptureError) -> (action: Action)
        requires
            old(self).wf(),
        ensures
            final(self).wf(),
            keeps_setup(*old(self), *final(self)),
            failed_with(*final(self), action, e),
    {
        self.phase = Phase::Failed;
        self.tiles = Vec::new();
        self.failures = 0;
        Action::Fail(e)
    }

    /// Counts a failed attempt on the current tile.
    fn retry_or_fail(&mut self, e: SurfaceError) -> (action: Action)
        requires
            old(self).wf(),
            is_tiling(old(self).spec_phase()),
            old(self).spec_phase() != Phase::BackingOff,
        ensures
            final(self).wf(),
            keeps_setup(*old(self), *final(self)),
            retried_or_failed(*old(self), *final(self), action, e),
    {
        if self.failures < self.config.max_retries {
            self.failures = self.failures + 1;
            self.phase = Phase::BackingOff;
            let (min_millis, max_millis) = backoff_window(&self.config, self.failures);
            Action::Wait { min_millis, max_millis }
        } else {
            let index = self.tiles.len();
            self.fail(CaptureError::TileCaptureFailed { index, cause: e })
        }
    }

    /// The capture of the current tile.
    fn capture_current(&self) -> (action: Action)
        requires
            self.wf(),
            is_tiling(self.spec_phase()),
        ensures
            action == capture_action(*self),
    {
        let tile = self.plan[self.tiles.len()];
        Action::CaptureTile {
            index: self.tiles.len(),
            y: tile.scroll_offset,
            width: self.viewport.width,
            height: tile.capture_height,
        }
    }

    /// Plans the page once its height is known.
    fn on_measured(&mut self, height: Option<u64>) -> (action: Action)
        requires
            old(self).wf(),
            old(self).spec_phase() == Phase::Measuring,
        ensures
            final(self).wf(),
            keeps_setup(*old(self), *final(self)),
            height matches Some(h) ==> (measurable(h as nat, old(self).spec_viewport()) ==> measured(
                *old(self),
                *final(self),
                h as nat,
                action,
            )),
            !(height matches Some(h) && measurable(h as nat, old(self).spec_viewport()))
                ==> failed_with(*final(self), action, CaptureError::MeasurementFailed(None)),
    {
        let h = match height {
            Some(h) => h,
            None => {
                return self.fail(CaptureError::MeasurementFailed(None));
            },
        };
        let width = self.viewport.width;
        if h > u32::MAX as u64 {
            return self.fail(CaptureError::MeasurementFailed(None));
        }
        proof {
            assert((width as nat) * (h as nat) <= 0xffff_ffff * 0xffff_ffff) by (nonlinear_arith)
                requires
                    width <= 0xffff_ffff,
                    h <= 0xffff_ffff,
            ;
        }
        if (width as u128) * (h as u128) * 4 > usize::MAX as u128 {
            return self.fail(CaptureError::MeasurementFailed(None));
        }
        let h = h as u32;
        self.content_height = h;
        self.plan = plan(h, self.viewport);
        self.failures = 0;
        if h == 0 {
            self.phase = Phase::Done;
            Action::Finish(CompositeImage { width, height: 0, pixels: Vec::new() })
        } else {
            proof {
                let t = crate::planner::tile_count(h as nat, self.viewport.height as nat);
                crate::planner::lemma_tile_count_bounds(h as nat, self.viewport.height as nat);
                if t == 0 {
                    assert(t * self.viewport.height == 0) by (nonlinear_arith)
                        requires
                            t == 0,
                    ;
                }
                assert(self.plan@.len() > 0);
            }
            self.phase = Phase::Scrolling;
            Action::ScrollTo { y: 0 }
        }
    }

    /// Checks and keeps the image captured for the current tile.
    fn on_captured(&mut self, image: RawImage) -> (action: Action)
        requires
            old(self).wf(),
            old(self).spec_phase() == Phase::Capturing,
        ensures
            final(self).wf(),
            keeps_setup(*old(self), *final(self)),
            !image.wf() ==> retried_or_failed(*old(self), *final(self), action, SurfaceError::Undecodable),
            image.wf() && image.height != old(self).current_tile().capture_height ==> failed_with(
                *final(self),
                action,
                CaptureError::GeometryMismatch {
                    index: old(self).spec_tiles().len() as usize,
                    expected_height: old(self).current_tile().capture_height,
                    actual_height: image.height,
                },
            ),
            image.wf() && image.height == old(self).current_tile().capture_height ==> accepted(
                *old(self),
                *final(self),
                action,
                image,
            ),
    {
        proof {
            let (w, h) = (image.width as nat, image.height as nat);
            assert(w * h <= 0xffff_ffff * 0xffff_ffff) by (nonlinear_arith)
                requires
                    w <= 0xffff_ffff,
                    h <= 0xffff_ffff,
            ;
        }
        if image.pixels.len() as u128 != (image.width as u128) * (image.height as u128) * 4 {
            return self.retry_or_fail(SurfaceError::Undecodable);
        }
        let index = self.tiles.len();
        let expected = self.plan[index].capture_height;
        if image.height != expected {
            return self.fail(
                CaptureError::GeometryMismatch { index, expected_height: expected, actual_height: image.height },
            );
        }
        let ghost old_tiles = self.tiles@;
        self.tiles.push(CapturedTile { index, width: image.width, height: image.height, pixels: image.pixels });
        self.failures = 0;
        assert(self.tiles@ == tiles_with(*old(self), image));
        if self.tiles.len() < self.plan.len() {
            self.phase = Phase::Scrolling;
            assert(forall|i: int| 0 <= i < old_tiles.len() ==> self.tiles@[i] == old_tiles[i]);
            return Action::ScrollTo { y: self.plan[self.tiles.len()].scroll_offset };
        }
        let mut tiles: Vec<CapturedTile> = Vec::new();
        std::mem::swap(&mut tiles, &mut self.tiles);
        proof {
            let c = self.content_height as nat;
            let v = self.viewport.height as nat;
            assert(forall|i: int| 0 <= i < old_tiles.len() ==> tiles@[i] == old_tiles[i]);
            assert(all_wf(tiles@));
            crate::planner::lemma_plan_covers_content(c, v);
            crate::compositor::lemma_heights_follow_plan(tiles@, self.plan@, tiles@.len() as nat);
            assert(tiles@.take(tiles@.len() as int) =~= tiles@);
        }
        match compose(tiles, self.viewport.width, self.content_height) {
            Ok(page) => {
                self.phase = Phase::Done;
                Action::Finish(page)
            },
            Err(CompositorError::WidthMismatch { index, expected, actual }) => {
                self.fail(CaptureError::WidthMismatch { index, expected, actual })
            },
        }
    }

    /// The session's invariant: the plan is the one for the measured height,
    /// and the tiles captured so far are the plan's first ones, in order,
    /// each as high as planned.
    pub closed spec fn wf(&self) -> bool {
        &&& self.viewport.wf()
        &&& self.failures <= self.config.max_retries
        &&& is_tiling(self.phase) ==> {
            &&& self.plan@ == planned_tiles(self.content_height as nat, self.viewport.height as nat)
            &&& self.tiles@.len() < self.plan@.len()
            &&& rgba_len(self.viewport.width as nat, self.content_height as nat) <= usize::MAX
            &&& all_wf(self.tiles@)
            &&& forall|i: int|
                0 <= i < self.tiles@.len() ==> (#[trigger] self.tiles@[i]).index == i
                    && self.tiles@[i].height == self.plan@[i].capture_height
        }
        &&& !is_tiling(self.phase) ==> self.tiles@.len() == 0
    }

    /// A new session, not yet started.
    pub fn new(url: String, viewport: ViewportSpec, config: CaptureConfig) -> (r: Self)
        requires
            viewport.wf(),
        ensures
            r.wf(),
            r.spec_url() == url@,
            r.spec_viewport() == viewport,
            r.spec_config() == config,
            r.spec_phase() == Phase::Idle,
            r.spec_failures() == 0,
    {
        CaptureSession {
            url,
            viewport,
            config,
            phase: Phase::Idle,
            content_height: 0,
            plan: Vec::new(),
            tiles: Vec::new(),
            failures: 0,
        }
    }

    pub fn phase(&self) -> (r: Phase)
        ensures
            r == self.spec_phase(),
    {
        self.phase
    }

    /// How many tiles have been captured and kept so far.
    pub fn captured_count(&self) -> (r: usize)
        ensures
            r == self.spec_tiles().len(),
    {
        self.tiles.len()
    }

    /// Starts an idle session: its first action is to open the page. A
    /// session that was started before is left as it is.
    pub fn start(&mut self) -> (action: Action)
        requires
            old(self).wf(),
        ensures
            final(self).wf(),
            old(self).spec_phase() == Phase::Idle ==> {
                &&& final(self).spec_phase() == Phase::Navigating
                &&& final(self).spec_url() == old(self).spec_url()
                &&& final(self).spec_viewport() == old(self).spec_viewport()
                &&& final(self).spec_config() == old(self).spec_config()
                &&& (action matches Action::Navigate(u) && u@ == old(self).spec_url())
            },
            old(self).spec_phase() != Phase::Idle ==> *final(self) == *old(self) && action
                == Action::Stop,
    {
        if self.phase == Phase::Idle {
            self.phase = Phase::Navigating;
            Action::Navigate(self.url.clone())
        } else {
            Action::Stop
        }
    }
    /// Moves the session on by the outcome of its last action, and returns
    /// the next action. A session that is over stays as it is.
    pub fn step(&mut self, event: Event) -> (action: Action)
        requires
            old(self).wf(),
        ensures
            final(self).wf(),
            keeps_setup(*old(self), *final(self)),
            old(self).is_over() ==> *final(self) == *old(self) && action == Action::Stop,
            !old(self).is_over() && !expected_event(old(self).spec_phase(), event) ==> failed_with(
                *final(self),
                action,
                CaptureError::UnexpectedEvent,
            ),
            !old(self).is_over() && event is Cancelled ==> failed_with(
                *final(self),
                action,
                CaptureError::Cancelled,
            ),
            old(self).spec_phase() == Phase::Navigating && event is Completed ==> moved_to(
                *old(self),
                *final(self),
                Phase::Loading,
            ) && action == Action::WaitUntilLoaded,
            old(self).spec_phase() == Phase::Loading && event is Completed ==> moved_to(
                *old(self),
                *final(self),
                Phase::SizingViewport,
            ) && action == (Action::SetViewport {
                width: old(self).spec_viewport().width,
                height: old(self).spec_viewport().height,
            }),
            old(self).spec_phase() == Phase::SizingViewport && event is Completed ==> moved_to(
                *old(self),
                *final(self),
                Phase::Measuring,
            ) && action == Action::MeasureHeight,
            is_setup(old(self).spec_phase()) || old(self).spec_phase() == Phase::Measuring
                ==> (event matches Event::SurfaceFailed(e) ==> failed_with(
                *final(self),
                action,
                CaptureError::MeasurementFailed(Some(e)),
            )),
            old(self).spec_phase() == Phase::Measuring ==> (event matches Event::Measured(Some(h))
                ==> (measurable(h as nat, old(self).spec_viewport()) ==> measured(
                *old(self),
                *final(self),
                h as nat,
                action,
            ))),
            old(self).spec_phase() == Phase::Measuring ==> (event matches Event::Measured(m) ==> (!(m matches Some(h)
                && measurable(h as nat, old(self).spec_viewport())) ==> failed_with(
                *final(self),
                action,
                CaptureError::MeasurementFailed(None),
            ))),
            old(self).spec_phase() == Phase::Scrolling && event is Completed
                && old(self).spec_config().settle_millis > 0 ==> moved_to(
                *old(self),
                *final(self),
                Phase::Settling,
            ) && action == (Action::Wait {
                min_millis: old(self).spec_config().settle_millis,
                max_millis: old(self).spec_config().settle_millis,
            }),
            old(self).spec_phase() == Phase::Scrolling && event is Completed
                && old(self).spec_config().settle_millis == 0 ==> moved_to(
                *old(self),
                *final(self),
                Phase::Capturing,
            ) && action == capture_action(*old(self)),
            old(self).spec_phase() == Phase::Settling && event is Completed ==> moved_to(
                *old(self),
                *final(self),
                Phase::Capturing,
            ) && action == capture_action(*old(self)),
            old(self).spec_phase() == Phase::BackingOff && event is Completed ==> moved_to(
                *old(self),
                *final(self),
                Phase::Scrolling,
            ) && action == (Action::ScrollTo { y: old(self).current_tile().scroll_offset }),
            is_tiling(old(self).spec_phase()) && old(self).spec_phase() != Phase::BackingOff ==> (
            event matches Event::SurfaceFailed(e) ==> retried_or_failed(
                *old(self),
                *final(self),
                action,
                e,
            )),
            old(self).spec_phase() == Phase::Capturing ==> (event matches Event::Captured(image) ==> (
            !image.wf() ==> retried_or_failed(
                *old(self),
                *final(self),
                action,
                SurfaceError::Undecodable,
            ))),
            old(self).spec_phase() == Phase::Capturing ==> (event matches Event::Captured(image) ==> (
            image.wf() && image.height != old(self).current_tile().capture_height ==> failed_with(
                *final(self),
                action,
                CaptureError::GeometryMismatch {
                    index: old(self).spec_tiles().len() as usize,
                    expected_height: old(self).current_tile().capture_height,
                    actual_height: image.height,
                },
            ))),
            old(self).spec_phase() == Phase::Capturing ==> (event matches Event::Captured(image) ==> (
            image.wf() && image.height == old(self).current_tile().capture_height ==> accepted(
                *old(self),
                *final(self),
                action,
                image,
            ))),
    {
        if self.phase == Phase::Done || self.phase == Phase::Failed {
            return Action::Stop;
        }
        match event {
            Event::Cancelled => self.fail(CaptureError::Cancelled),
            Event::Completed => match self.phase {
                Phase::Navigating => {
                    self.phase = Phase::Loading;
                    Action::WaitUntilLoaded
                },
                Phase::Loading => {
                    self.phase = Phase::SizingViewport;
                    Action::SetViewport { width: self.viewport.width, height: self.viewport.height }
                },
                Phase::SizingViewport => {
                    self.phase = Phase::Measuring;
                    Action::MeasureHeight
                },
                Phase::Scrolling => {
                    if self.config.settle_millis > 0 {
                        self.phase = Phase::Settling;
                        Action::Wait {
                            min_millis: self.config.settle_millis,
                            max_millis: self.config.settle_millis,
                        }
                    } else {
                        self.phase = Phase::Capturing;
                        self.capture_current()
                    }
                },
                Phase::Settling => {
                    self.phase = Phase::Capturing;
                    self.capture_current()
                },
                Phase::BackingOff => {
                    self.phase = Phase::Scrolling;
                    Action::ScrollTo { y: self.plan[self.tiles.len()].scroll_offset }
                },
                _ => self.fail(CaptureError::UnexpectedEvent),
            },
            Event::Measured(height) => {
                if self.phase == Phase::Measuring {
                    self.on_measured(height)
                } else {
                    self.fail(CaptureError::UnexpectedEvent)
                }
            },
            Event::Captured(image) => {
                if self.phase == Phase::Capturing {
                    self.on_captured(image)
                } else {
                    self.fail(CaptureError::UnexpectedEvent)
                }
            },
            Event::SurfaceFailed(e) => match self.phase {
                Phase::Navigating | Phase::Loading | Phase::SizingViewport | Phase::Measuring => {
                    self.fail(CaptureError::MeasurementFailed(Some(e)))
                },
                Phase::Scrolling | Phase::Settling | Phase::Capturing => self.retry_or_fail(e),
                _ => self.fail(CaptureError::UnexpectedEvent),
            },
        }
    }
}

} // verus!
