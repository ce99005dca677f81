use globe_map::tray::{argb_from_rgba, create_tray_icon, icon_from_rgba, IconError};

/// A picture of three by two pixels whose RGBA bytes count from 1 to 24.
const RGBA_PNG: [u8; 91] = [
    0x89, 0x50, 0x4e, 0x47, 0x0d, 0x0a, 0x1a, 0x0a, 0x00, 0x00, 0x00, 0x0d, 0x49, 0x48, 0x44,
    0x52, 0x00, 0x00, 0x00, 0x03, 0x00, 0x00, 0x00, 0x02, 0x08, 0x06, 0x00, 0x00, 0x00, 0x9d,
    0x74, 0x66, 0x1a, 0x00, 0x00, 0x00, 0x22, 0x49, 0x44, 0x41, 0x54, 0x78, 0xda, 0x63, 0x60,
    0x64, 0x62, 0x66, 0x61, 0x65, 0x63, 0xe7, 0xe0, 0xe4, 0xe2, 0xe6, 0x61, 0xe0, 0xe5, 0xe3,
    0x17, 0x10, 0x14, 0x12, 0x16, 0x11, 0x15, 0x13, 0x97, 0x00, 0x00, 0x0a, 0x90, 0x01, 0x2d,
    0xfa, 0x4a, 0x68, 0xcd, 0x00, 0x00, 0x00, 0x00, 0x49, 0x45, 0x4e, 0x44, 0xae, 0x42, 0x60,
    0x82,
];

/// A picture of two by one pixels without alpha: (10, 20, 30) and (40, 50, 60).
const RGB_PNG: [u8; 72] = [
    0x89, 0x50, 0x4e, 0x47, 0x0d, 0x0a, 0x1a, 0x0a, 0x00, 0x00, 0x00, 0x0d, 0x49, 0x48, 0x44,
    0x52, 0x00, 0x00, 0x00, 0x02, 0x00, 0x00, 0x00, 0x01, 0x08, 0x02, 0x00, 0x00, 0x00, 0x7b,
    0x40, 0xe8, 0xdd, 0x00, 0x00, 0x00, 0x0f, 0x49, 0x44, 0x41, 0x54, 0x78, 0xda, 0x63, 0xe0,
    0x12, 0x91, 0xd3, 0x30, 0xb2, 0x01, 0x00, 0x02, 0x37, 0x00, 0xd3, 0xe2, 0x2d, 0xed, 0x9f,
    0x00, 0x00, 0x00, 0x00, 0x49, 0x45, 0x4e, 0x44, 0xae, 0x42, 0x60, 0x82,
];

#[test]
fn argb_moves_alpha_to_the_front() {
    assert_eq!(argb_from_rgba(&[1, 2, 3, 4]), vec![4, 1, 2, 3]);
    assert_eq!(argb_from_rgba(&[1, 2, 3, 4, 5, 6, 7, 8]), vec![4, 1, 2, 3, 8, 5, 6, 7]);
    assert_eq!(argb_from_rgba(&[]), Vec::<u8>::new());
}

#[test]
fn argb_leaves_out_a_partial_pixel() {
    assert_eq!(argb_from_rgba(&[1, 2, 3]), Vec::<u8>::new());
    assert_eq!(argb_from_rgba(&[1, 2, 3, 4, 5]), vec![4, 1, 2, 3]);
    assert_eq!(argb_from_rgba(&[1, 2, 3, 4, 5, 6, 7]), vec![4, 1, 2, 3]);
}

#[test]
fn icon_from_pixels_keeps_size() {
    let icon = icon_from_rgba(2, 1, &[10, 20, 30, 255, 40, 50, 60, 128]);
    assert_eq!(icon.width, 2);
    assert_eq!(icon.height, 1);
    assert_eq!(icon.data, vec![255, 10, 20, 30, 128, 40, 50, 60]);
}

#[test]
fn tray_icon_from_png() {
    let icon = create_tray_icon(&RGBA_PNG).unwrap();
    assert_eq!(icon.width, 3);
    assert_eq!(icon.height, 2);
    assert_eq!(
        icon.data,
        vec![
            4, 1, 2, 3, 8, 5, 6, 7, 12, 9, 10, 11, 16, 13, 14, 15, 20, 17, 18, 19, 24, 21, 22, 23
        ]
    );
}

#[test]
fn tray_icon_from_png_without_alpha_is_opaque() {
    let icon = create_tray_icon(&RGB_PNG).unwrap();
    assert_eq!(icon.width, 2);
    assert_eq!(icon.height, 1);
    assert_eq!(icon.data, vec![255, 10, 20, 30, 255, 40, 50, 60]);
}

#[test]
fn tray_icon_needs_a_png() {
    assert_eq!(create_tray_icon(&[]).err(), Some(IconError::Decode));
    assert_eq!(create_tray_icon(b"not a picture").err(), Some(IconError::Decode));
    assert_eq!(create_tray_icon(&RGBA_PNG[..40]).err(), Some(IconError::Decode));
    let mut broken = RGBA_PNG;
    broken[50] ^= 0xff;
    assert_eq!(create_tray_icon(&broken).err(), Some(IconError::Decode));
}
