use rsize::codec::ImgFormat;
use rsize::config::Config;
use rsize::{Outcome, Resizer};

fn png_bytes(w: u32, h: u32) -> Vec<u8> {
    let img = image::DynamicImage::ImageRgb8(image::RgbImage::new(w, h));
    let mut cursor = std::io::Cursor::new(Vec::new());
    img.write_to(&mut cursor, image::ImageFormat::Png).unwrap();
    cursor.into_inner()
}

fn jpeg_bytes(w: u32, h: u32) -> Vec<u8> {
    let img = image::DynamicImage::ImageRgb8(image::RgbImage::new(w, h));
    let mut cursor = std::io::Cursor::new(Vec::new());
    img.write_to(&mut cursor, image::ImageFormat::Jpeg).unwrap();
    cursor.into_inner()
}

fn resizer(width: u32, height: u32, ignore_aspect: bool) -> Resizer {
    Resizer::new(Config::new("p".to_string(), width, height, ignore_aspect, false).unwrap())
}

#[test]
fn matching_width_is_skipped_despite_height() {
    // The skip rule is width-only: the height difference is ignored.
    let r = resizer(200, 999, false);
    let out = r.resize_file(&png_bytes(200, 100), &ImgFormat::Png);
    assert!(matches!(out, Outcome::Skipped));
}

#[test]
fn matching_width_is_skipped_despite_ignore_aspect() {
    let r = resizer(200, 999, true);
    let out = r.resize_file(&png_bytes(200, 100), &ImgFormat::Png);
    assert!(matches!(out, Outcome::Skipped));
}

#[test]
fn stretch_resize_hits_exact_target() {
    let r = resizer(40, 30, true);
    match r.resize_file(&png_bytes(80, 60), &ImgFormat::Png) {
        Outcome::Resized { bytes, width, height } => {
            assert_eq!((width, height), (40, 30));
            let img = image::load_from_memory(&bytes).unwrap();
            assert_eq!((img.width(), img.height()), (40, 30));
        }
        _ => panic!("expected a resize"),
    }
}

#[test]
fn stretch_resize_distorts_aspect() {
    let r = resizer(64, 48, true);
    match r.resize_file(&png_bytes(100, 50), &ImgFormat::Png) {
        Outcome::Resized { width, height, .. } => {
            assert_eq!((width, height), (64, 48));
        }
        _ => panic!("expected a resize"),
    }
}

#[test]
fn fit_resize_preserves_aspect_within_bounds() {
    // 100x50 fitted into 64x48: the width is the binding side, so the result
    // is 64x32, keeping the 2:1 ratio exactly.
    let r = resizer(64, 48, false);
    match r.resize_file(&png_bytes(100, 50), &ImgFormat::Png) {
        Outcome::Resized { bytes, width, height } => {
            assert!(width <= 64 && height <= 48);
            assert_eq!((width, height), (64, 32));
            assert_eq!(width * 50, height * 100); // same width/height ratio
            let img = image::load_from_memory(&bytes).unwrap();
            assert_eq!((img.width(), img.height()), (64, 32));
        }
        _ => panic!("expected a resize"),
    }
}

#[test]
fn photo_scenario_fits_within_full_hd() {
    // A 3000x2000 photo fitted into 1920x1080: the height binds, the result
    // is 1620x1080, and the 3:2 aspect ratio is preserved exactly.
    let r = resizer(1920, 1080, false);
    match r.resize_file(&png_bytes(3000, 2000), &ImgFormat::Png) {
        Outcome::Resized { bytes, width, height } => {
            assert!(width <= 1920 && height <= 1080);
            assert_eq!((width, height), (1620, 1080));
            assert_eq!(width * 2000, height * 3000);
            let img = image::load_from_memory(&bytes).unwrap();
            assert_eq!((img.width(), img.height()), (1620, 1080));
        }
        _ => panic!("expected a resize"),
    }
}

#[test]
fn mixed_directory_scenario() {
    // a.png already has the target width and is untouched; b.jpg is
    // stretched to exactly the target dimensions.
    let r = resizer(1920, 1080, true);
    let a = r.resize_file(&png_bytes(1920, 1080), &ImgFormat::Png);
    assert!(matches!(a, Outcome::Skipped));
    match r.resize_file(&jpeg_bytes(800, 600), &ImgFormat::Jpeg) {
        Outcome::Resized { bytes, width, height } => {
            assert_eq!((width, height), (1920, 1080));
            let img = image::load_from_memory(&bytes).unwrap();
            assert_eq!((img.width(), img.height()), (1920, 1080));
            assert_eq!(image::guess_format(&bytes).unwrap(), image::ImageFormat::Jpeg);
        }
        _ => panic!("expected a resize"),
    }
}

#[test]
fn second_run_skips_resized_output() {
    let r = resizer(40, 30, true);
    let once = match r.resize_file(&png_bytes(80, 60), &ImgFormat::Png) {
        Outcome::Resized { bytes, .. } => bytes,
        _ => panic!("expected a resize"),
    };
    let again = r.resize_file(&once, &ImgFormat::Png);
    assert!(matches!(again, Outcome::Skipped));
}

#[test]
fn resized_png_stays_png() {
    let r = resizer(40, 30, true);
    match r.resize_file(&png_bytes(80, 60), &ImgFormat::Png) {
        Outcome::Resized { bytes, .. } => {
            assert_eq!(image::guess_format(&bytes).unwrap(), image::ImageFormat::Png);
        }
        _ => panic!("expected a resize"),
    }
}

#[test]
fn encode_outcome_keeps_bytes_and_reports_errors() {
    match rsize::encode_outcome(Ok(vec![1u8, 2, 3]), 10, 20) {
        Outcome::Resized { bytes, width, height } => {
            assert_eq!(bytes, vec![1u8, 2, 3]);
            assert_eq!((width, height), (10, 20));
        }
        _ => panic!("expected a resize outcome"),
    }
    let err = image::load_from_memory(b"junk").unwrap_err();
    assert!(matches!(
        rsize::encode_outcome(Err(err), 10, 20),
        Outcome::EncodeError(_)
    ));
}

#[test]
fn jpeg_dimension_limit_gives_encode_error() {
    // JPEG stores dimensions as 16-bit values, so a 65536-wide target cannot
    // be encoded as JPEG; PNG takes it.
    let r = resizer(65536, 1, true);
    let src = png_bytes(8, 8);
    assert!(matches!(
        r.resize_file(&src, &ImgFormat::Jpeg),
        Outcome::EncodeError(_)
    ));
    match r.resize_file(&src, &ImgFormat::Png) {
        Outcome::Resized { bytes, width, height } => {
            assert_eq!((width, height), (65536, 1));
            let img = image::load_from_memory(&bytes).unwrap();
            assert_eq!((img.width(), img.height()), (65536, 1));
        }
        _ => panic!("expected a resize"),
    }
}

#[test]
fn undecodable_bytes_give_decode_error() {
    let r = resizer(40, 30, false);
    let out = r.resize_file(b"this is not an image", &ImgFormat::Png);
    assert!(matches!(out, Outcome::DecodeError(_)));
    let empty = r.resize_file(&[], &ImgFormat::Png);
    assert!(matches!(empty, Outcome::DecodeError(_)));
}

#[test]
fn truncated_image_gives_decode_error() {
    let mut bytes = png_bytes(80, 60);
    bytes.truncate(bytes.len() / 2);
    let r = resizer(40, 30, false);
    // Either the decoder rejects the truncated file or, failing that, the
    // run must not report it as skipped untouched with a different width.
    match r.resize_file(&bytes, &ImgFormat::Png) {
        Outcome::DecodeError(_) => {}
        Outcome::Resized { width, .. } => assert_eq!(width, 40),
        _ => panic!("unexpected outcome for a truncated image"),
    }
}
