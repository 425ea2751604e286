use videocore::display::VCOSInputFormat;
use videocore::dispmanx::{rect_set, Modeinfo};
use videocore::image::{Rect, RECT_SIZE};

#[test]
fn rect_round_trips_through_native_layout() {
    let r = Rect::new(0, 0, 100, 50);
    let bytes = r.to_bytes();
    assert_eq!(bytes.len(), RECT_SIZE);
    assert_eq!(
        bytes,
        vec![0, 0, 0, 0, 0, 0, 0, 0, 100, 0, 0, 0, 50, 0, 0, 0]
    );
    let back = Rect::from_bytes(&bytes).unwrap();
    assert_eq!(back, r);
    assert_eq!((back.x, back.y, back.width, back.height), (0, 0, 100, 50));
}

#[test]
fn rect_negative_fields_keep_their_bytes() {
    let r = Rect::new(-1, 0x0102_0304, i32::MIN, i32::MAX);
    let bytes = r.to_bytes();
    assert_eq!(&bytes[0..4], &[0xff, 0xff, 0xff, 0xff]);
    assert_eq!(&bytes[4..8], &[4, 3, 2, 1]);
    assert_eq!(&bytes[8..12], &[0, 0, 0, 0x80]);
    assert_eq!(&bytes[12..16], &[0xff, 0xff, 0xff, 0x7f]);
    assert_eq!(Rect::from_bytes(&bytes), Some(r));
}

#[test]
fn rect_from_wrong_length_is_none() {
    assert_eq!(Rect::from_bytes(&[]), None);
    assert_eq!(Rect::from_bytes(&[0u8; 15]), None);
    assert_eq!(Rect::from_bytes(&[0u8; 17]), None);
}

#[test]
fn rect_set_fills_fields() {
    let mut r = Rect::new(9, 9, 9, 9);
    assert!(rect_set(&mut r, 10, 20, 640, 480));
    assert_eq!(r, Rect::new(10, 20, 640, 480));
    assert!(rect_set(&mut r, 0xffff_ffff, 0, 0, 0));
    assert_eq!(r.x, -1);
}

#[test]
fn modeinfo_from_raw_fields() {
    let m = Modeinfo::from_raw(1920, 1080, 1 | (1 << 16), 1).unwrap();
    assert_eq!(m.width, 1920);
    assert_eq!(m.height, 1080);
    assert_eq!(m.transform, 0x1_0001);
    assert_eq!(m.input_format, VCOSInputFormat::RGB888);
    assert_eq!(Modeinfo::from_raw(1920, 1080, 0, 7), None);
}
