//! Construction, transformation and error translation of the owning
//! variants, exercised with the outcomes a native call would hand back.

use gmagick::{
    BlobOutcome, CacheLookup, ConstituteOutcome, Error, ExceptionInfo, Image, ImageInfo,
    ImageLike, ImageWithInfo, ReadEvent, ReadOutcome, RegisterOutcome, ReshapeOutcome,
    StorageKind, StorageType, TransformOutcome, WriteOutcome,
};

fn field(value: &[u8]) -> Vec<u8> {
    let mut buf = gmagick::text::zero_buffer();
    for (i, b) in value.iter().enumerate() {
        buf[i] = *b;
    }
    buf
}

fn detailed_exception() -> ExceptionInfo {
    ExceptionInfo {
        severity: 400,
        description: Some(b"unable to open file".to_vec()),
        reason: Some(b"missing.png".to_vec()),
    }
}

fn load(path: &str, columns: u64, rows: u64, magick: &[u8]) -> ImageWithInfo {
    let mut info = ImageInfo::new(0x1000);
    info.set_filename(path).unwrap();
    let event = ReadEvent { handle: 0x2000, columns, rows, magick: field(magick) };
    Image::from_path(info, ReadOutcome::Loaded(event)).unwrap()
}

#[test]
fn loaded_image_has_positive_dimensions_and_name() {
    let img = load("photo.png", 640, 480, b"PNG");
    let (w, h) = img.dimensions();
    assert!(w >= 1 && h >= 1);
    assert_eq!((w, h), (640, 480));
    assert_eq!(img.name().unwrap(), "photo.png");
    assert_eq!(img.mime_type().unwrap(), "PNG");
    assert_ne!(img.image_ref().handle(), 0);
}

#[test]
fn failed_load_is_a_native_failure_and_later_loads_still_work() {
    let mut info = ImageInfo::new(0x1000);
    info.set_filename("/nonexistent").unwrap();
    let r = Image::from_path(info, ReadOutcome::Failed(detailed_exception()));
    match r {
        Err(Error::NativeFailure(e)) => {
            assert_eq!(e.severity, 400);
            assert_eq!(e.message_bytes(), b"unable to open file: missing.png".to_vec());
        },
        other => panic!("expected a native failure, got {:?}", other.map(|_| ())),
    }
    // a fresh variant is untouched by the earlier failure
    let img = load("photo.png", 640, 480, b"PNG");
    assert_eq!(img.dimensions(), (640, 480));
}

#[test]
fn failed_load_without_detail_is_unclassified() {
    let mut info = ImageInfo::new(0x1000);
    info.set_filename("/nonexistent").unwrap();
    let r = Image::from_path(info, ReadOutcome::Failed(ExceptionInfo::new()));
    assert!(matches!(r, Err(Error::Unclassified)));
}

#[test]
fn scale_sets_exactly_the_asked_dimensions() {
    let mut img = load("photo.png", 640, 480, b"PNG");
    img.scale(320, 240, TransformOutcome::Replaced(0x3000)).unwrap();
    assert_eq!(img.dimensions(), (320, 240));
}

#[test]
fn crop_sets_exactly_the_asked_dimensions() {
    let mut img = load("photo.png", 640, 480, b"PNG");
    img.crop(10, 20, 100, 50, TransformOutcome::Replaced(0x3000)).unwrap();
    assert_eq!(img.dimensions(), (100, 50));
}

#[test]
fn failed_transform_leaves_the_image_untouched() {
    let mut img = load("photo.png", 640, 480, b"PNG");
    let r = img.scale(320, 240, TransformOutcome::Failed(detailed_exception()));
    assert!(matches!(r, Err(Error::NativeFailure(_))));
    assert_eq!(img.dimensions(), (640, 480));
    assert_eq!(img.image_ref().handle(), 0x2000);
    // the variant is still fully usable after the failure
    img.scale(320, 240, TransformOutcome::Replaced(0x3000)).unwrap();
    assert_eq!(img.dimensions(), (320, 240));
}

#[test]
fn rotate_takes_the_dimensions_the_library_chose() {
    let mut img = load("photo.png", 640, 480, b"PNG");
    img.rotate(ReshapeOutcome::Replaced(0x3000, 480, 640)).unwrap();
    assert_eq!(img.dimensions(), (480, 640));
}

#[test]
fn mirror_keeps_the_dimensions() {
    let mut img = load("photo.png", 640, 480, b"PNG");
    img.mirror(TransformOutcome::Replaced(0x3000)).unwrap();
    assert_eq!(img.dimensions(), (640, 480));
    assert_eq!(img.image_ref().handle(), 0x3000);
}

#[test]
fn constitute_retains_the_buffer() {
    let buffer = vec![7u8; 16 * 8 * 4];
    let img = Image::constitute(16, 8, "RGBA", buffer, ConstituteOutcome::Constituted(0x4000))
        .unwrap();
    assert_eq!(img.dimensions(), (16, 8));
    assert_eq!(img.container.len(), 16 * 8 * 4);
    assert_eq!(img.container[0], 7);
    // a constituted image starts with no name and no format tag
    assert_eq!(img.name().unwrap(), "");
    assert_eq!(img.mime_type().unwrap(), "");
}

#[test]
fn constitute_failure_returns_the_capture() {
    let buffer = vec![0u8; 4 * 4 * 4];
    let r = Image::constitute(4, 4, "RGBA", buffer, ConstituteOutcome::Failed(detailed_exception()));
    assert!(matches!(r, Err(Error::NativeFailure(_))));
}

#[test]
fn constituted_flow_matches_the_native_order() {
    // constitute, rotate a quarter turn, pick an encode format, encode
    let buffer = vec![0u8; 512 * 512 * 4];
    let mut img =
        Image::constitute(512, 512, "RGBA", buffer, ConstituteOutcome::Constituted(0x4000))
            .unwrap();
    img.rotate(ReshapeOutcome::Replaced(0x4100, 512, 512)).unwrap();
    img.set_format("GIF").unwrap();
    assert_eq!(img.mime_type().unwrap(), "GIF");
    let blob = img.as_bytes(BlobOutcome::Blob(vec![0x47, 0x49, 0x46])).unwrap();
    assert_eq!(blob, vec![0x47, 0x49, 0x46]);
}

#[test]
fn u8_samples_are_char_pixels() {
    assert!(matches!(<u8 as StorageType>::storage_kind(), StorageKind::CharPixel));
}

#[test]
fn write_then_reload_reproduces_dimensions_and_format() {
    let mut img = load("photo.png", 640, 480, b"PNG");
    img.set_write_path("out.png").unwrap();
    img.write(WriteOutcome::Written).unwrap();
    assert_eq!(img.name().unwrap(), "out.png");
    // writing changes nothing about the image but its stored path
    assert_eq!(img.dimensions(), (640, 480));
    assert_eq!(img.mime_type().unwrap(), "PNG");
    // a lossless reload of what was written: same dimensions, same format
    let reloaded = load("out.png", 640, 480, b"PNG");
    assert_eq!(reloaded.dimensions(), img.dimensions());
    assert_eq!(reloaded.mime_type().unwrap(), img.mime_type().unwrap());
}

#[test]
fn failed_write_reports_the_recorded_exception() {
    let img = load("photo.png", 640, 480, b"PNG");
    let r = img.write(WriteOutcome::Failed(detailed_exception()));
    assert!(matches!(r, Err(Error::NativeFailure(_))));
    let r = img.write(WriteOutcome::Failed(ExceptionInfo::new()));
    assert!(matches!(r, Err(Error::Unclassified)));
}

#[test]
fn blob_failure_is_translated() {
    let img = load("photo.png", 640, 480, b"PNG");
    let r = img.as_bytes(BlobOutcome::Failed(detailed_exception()));
    assert!(matches!(r, Err(Error::NativeFailure(_))));
}

#[test]
fn cache_hit_wraps_the_stored_image() {
    let mut info = ImageInfo::new(0x1000);
    info.set_filename("cached.png").unwrap();
    let event = ReadEvent { handle: 0x5000, columns: 32, rows: 16, magick: field(b"PNG") };
    let img = Image::from_cache_or_path(info, CacheLookup::Hit(event)).unwrap();
    assert_eq!(img.dimensions(), (32, 16));
    assert_eq!(img.name().unwrap(), "cached.png");
}

#[test]
fn cache_miss_falls_back_to_the_path_load() {
    let mut info = ImageInfo::new(0x1000);
    info.set_filename("cached.png").unwrap();
    let event = ReadEvent { handle: 0x5000, columns: 32, rows: 16, magick: field(b"PNG") };
    let img = Image::from_cache_or_path(info, CacheLookup::Miss(ReadOutcome::Loaded(event)))
        .unwrap();
    assert_eq!(img.dimensions(), (32, 16));

    let mut info = ImageInfo::new(0x1000);
    info.set_filename("cached.png").unwrap();
    let r = Image::from_cache_or_path(
        info,
        CacheLookup::Miss(ReadOutcome::Failed(detailed_exception())),
    );
    assert!(matches!(r, Err(Error::NativeFailure(_))));
}

#[test]
fn registration_yields_the_assigned_id() {
    let img = load("photo.png", 640, 480, b"PNG");
    assert_eq!(img.image_ref().cache(RegisterOutcome::Registered(7)).unwrap(), 7);
    let r = img.image_ref().cache(RegisterOutcome::Failed(ExceptionInfo::new()));
    assert!(matches!(r, Err(Error::Unclassified)));
}

#[test]
fn exception_message_concatenates_description_and_reason() {
    let e = detailed_exception();
    assert_eq!(e.message_bytes(), b"unable to open file: missing.png".to_vec());
    let empty = ExceptionInfo::new();
    assert_eq!(empty.message_bytes(), b": ".to_vec());
}

#[test]
fn info_handle_is_kept() {
    let info = ImageInfo::new(0x1000);
    assert_eq!(info.handle(), 0x1000);
    let img = load("photo.png", 640, 480, b"PNG");
    assert_eq!(img.opt_info_ref().unwrap().handle(), 0x1000);
}
