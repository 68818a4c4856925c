//! The bounded fixed-capacity text fields: storing values with their
//! terminator, reading them back, and decoding them as text.

use gmagick::text::MAX_TEXT_EXTENT;
use gmagick::{Error, Image, ImageInfo, ImageLike, ImageWithInfo, ReadEvent, ReadOutcome};

fn field(value: &[u8]) -> Vec<u8> {
    let mut buf = gmagick::text::zero_buffer();
    for (i, b) in value.iter().enumerate() {
        buf[i] = *b;
    }
    buf
}

fn load_with_magick(magick: Vec<u8>) -> ImageWithInfo {
    let mut info = ImageInfo::new(0x1000);
    info.set_filename("img.png").unwrap();
    let event = ReadEvent { handle: 0x2000, columns: 10, rows: 10, magick };
    Image::from_path(info, ReadOutcome::Loaded(event)).unwrap()
}

#[test]
fn set_format_is_read_back_as_the_mime_type() {
    let mut img = load_with_magick(field(b"JP2"));
    assert_eq!(img.mime_type().unwrap(), "JP2");
    img.set_format("GIF").unwrap();
    assert_eq!(img.mime_type().unwrap(), "GIF");
}

#[test]
fn overlong_format_is_refused_and_the_field_kept() {
    let mut img = load_with_magick(field(b"JP2"));
    let long = "x".repeat(MAX_TEXT_EXTENT);
    let r = img.set_format(&long);
    assert!(matches!(r, Err(Error::EncodingFailure)));
    assert_eq!(img.mime_type().unwrap(), "JP2");
}

#[test]
fn longest_fitting_format_is_accepted() {
    let mut img = load_with_magick(field(b"JP2"));
    let edge = "x".repeat(MAX_TEXT_EXTENT - 1);
    img.set_format(&edge).unwrap();
    assert_eq!(img.mime_type().unwrap(), edge);
}

#[test]
fn format_with_an_interior_terminator_is_refused() {
    let mut img = load_with_magick(field(b"JP2"));
    let r = img.set_format("GI\0F");
    assert!(matches!(r, Err(Error::EncodingFailure)));
    assert_eq!(img.mime_type().unwrap(), "JP2");
}

#[test]
fn overlong_path_is_refused_not_cut_short() {
    let mut info = ImageInfo::new(0x1000);
    let long = "p".repeat(MAX_TEXT_EXTENT + 40);
    let r = info.set_filename(&long);
    assert!(matches!(r, Err(Error::EncodingFailure)));
}

#[test]
fn path_with_an_interior_terminator_is_refused() {
    let mut info = ImageInfo::new(0x1000);
    let r = info.set_filename("a\0b");
    assert!(matches!(r, Err(Error::EncodingFailure)));
}

#[test]
fn undecodable_name_is_an_encoding_failure() {
    // a path may be any terminated byte sequence; reading it back as text
    // fails when the bytes are not valid text
    let mut info = ImageInfo::new(0x1000);
    info.set_filename("img.png").unwrap();
    let event = ReadEvent {
        handle: 0x2000,
        columns: 10,
        rows: 10,
        magick: field(&[0xff, 0xfe, 0x47]),
    };
    let img = Image::from_path(info, ReadOutcome::Loaded(event)).unwrap();
    assert!(matches!(img.mime_type(), Err(Error::EncodingFailure)));
    // the name field still decodes
    assert_eq!(img.name().unwrap(), "img.png");
}

#[test]
fn multibyte_text_survives_the_field() {
    let mut info = ImageInfo::new(0x1000);
    info.set_filename("Bild-\u{00e4}.png").unwrap();
    let event = ReadEvent { handle: 0x2000, columns: 10, rows: 10, magick: field(b"PNG") };
    let img = Image::from_path(info, ReadOutcome::Loaded(event)).unwrap();
    assert_eq!(img.name().unwrap(), "Bild-\u{00e4}.png");
}

#[test]
fn unterminated_field_reads_to_the_capacity() {
    let full = vec![0x41u8; MAX_TEXT_EXTENT];
    let img = load_with_magick(full);
    assert_eq!(img.mime_type().unwrap().len(), MAX_TEXT_EXTENT);
}
