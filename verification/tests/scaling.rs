//! Smart-scale target arithmetic, and the smart scale as applied to an
//! owned image.

use gmagick::scaling::smart_scale_target;
use gmagick::{Image, ImageInfo, ImageLike, ImageWithInfo, ReadEvent, ReadOutcome, TransformOutcome};

fn field(value: &[u8]) -> Vec<u8> {
    let mut buf = gmagick::text::zero_buffer();
    for (i, b) in value.iter().enumerate() {
        buf[i] = *b;
    }
    buf
}

fn load(columns: u64, rows: u64) -> ImageWithInfo {
    let mut info = ImageInfo::new(0x1000);
    info.set_filename("img.png").unwrap();
    let event = ReadEvent { handle: 0x2000, columns, rows, magick: field(b"PNG") };
    Image::from_path(info, ReadOutcome::Loaded(event)).unwrap()
}

#[test]
fn target_width_bound_only() {
    assert_eq!(smart_scale_target(100, 50, Some(50), None), (50, 25));
}

#[test]
fn target_no_bounds_is_identity() {
    assert_eq!(smart_scale_target(100, 50, None, None), (100, 50));
}

#[test]
fn target_height_bound_only() {
    assert_eq!(smart_scale_target(100, 50, None, Some(25)), (50, 25));
}

#[test]
fn target_keeps_smaller_ratio() {
    // width ratio 40/100, height ratio 30/50: the width ratio is smaller
    assert_eq!(smart_scale_target(100, 50, Some(40), Some(30)), (40, 20));
}

#[test]
fn target_can_enlarge_when_both_bounds_given() {
    assert_eq!(smart_scale_target(100, 50, Some(200), Some(100)), (200, 100));
}

#[test]
fn target_single_bound_never_enlarges() {
    // a lone width bound above the current width leaves the ratio at one
    assert_eq!(smart_scale_target(100, 50, Some(400), None), (100, 50));
}

#[test]
fn target_rounds_upward() {
    // ratio 2/5 of 3 rows is 1.2, rounded upward to 2
    assert_eq!(smart_scale_target(5, 3, Some(2), None), (2, 2));
}

#[test]
fn smart_scale_applies_computed_target() {
    let mut img = load(100, 50);
    img.smart_scale(Some(50), None, TransformOutcome::Replaced(0x3000)).unwrap();
    assert_eq!(img.dimensions(), (50, 25));
    assert_eq!(img.image_ref().handle(), 0x3000);
}

#[test]
fn smart_scale_without_bounds_still_scales() {
    let mut img = load(100, 50);
    img.smart_scale(None, None, TransformOutcome::Replaced(0x3000)).unwrap();
    // the dimensions are unchanged, yet the scale call was performed: the
    // handle it returned has been swapped in
    assert_eq!(img.dimensions(), (100, 50));
    assert_eq!(img.image_ref().handle(), 0x3000);
}
