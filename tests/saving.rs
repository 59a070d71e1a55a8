use page_capture::decode::decode_tile;
use page_capture::page_saver::SavePageAsImage;
use page_capture::planner::ViewportSpec;
use page_capture::session::SurfaceError;

#[test]
fn saver_defaults() {
    let saver = SavePageAsImage::new();
    assert_eq!(saver.save_path(), "./saved_pages");
    assert_eq!(saver.image_format(), "png");
    assert_eq!(saver.viewport(), ViewportSpec { width: 1920, height: 1080 });
}

#[test]
fn saver_setters() {
    let mut saver = SavePageAsImage::new();
    saver.set_save_path("./aluminum_saved_pages");
    saver.set_image_format("jpg");
    saver.set_viewport(1440, 900);
    assert_eq!(saver.save_path(), "./aluminum_saved_pages");
    assert_eq!(saver.image_format(), "jpg");
    assert_eq!(saver.viewport(), ViewportSpec { width: 1440, height: 900 });
}

#[test]
fn filename_has_timestamp_and_url_digest() {
    let saver = SavePageAsImage::new();
    assert_eq!(
        saver.generate_filename("https://example.com", 1700000000),
        "page_1700000000_c984d06aafbecf6bc55569f964148ea3"
    );
    assert_eq!(saver.generate_filename("", 0), "page_0_d41d8cd98f00b204e9800998ecf8427e");
}

#[test]
fn full_page_path_joins_parts() {
    let mut saver = SavePageAsImage::new();
    saver.set_save_path("/tmp/out");
    assert_eq!(saver.full_page_path("page_1_ab"), "/tmp/out/page_1_ab_full.png");
}

#[test]
fn decode_png_tile() {
    let mut raw = Vec::new();
    for i in 0..6u8 {
        raw.extend_from_slice(&[i, 10 * i, 255 - i, 255]);
    }
    let buffer = image::RgbaImage::from_raw(2, 3, raw.clone()).unwrap();
    let mut png = Vec::new();
    buffer.write_to(&mut std::io::Cursor::new(&mut png), image::ImageOutputFormat::Png).unwrap();
    let tile = decode_tile(&png).unwrap();
    assert_eq!((tile.width, tile.height), (2, 3));
    assert_eq!(tile.pixels, raw);
}

#[test]
fn decode_rejects_garbage() {
    assert!(matches!(decode_tile(&[1, 2, 3, 4, 5]), Err(SurfaceError::Undecodable)));
}
