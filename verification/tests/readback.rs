use globe_map::input::PhysicalSize;
use globe_map::readback::{repack, RenderError};

/// A read-back buffer whose pixel bytes count up from 1 and whose padding
/// bytes are all 0xee.
fn padded(width: usize, height: usize, stride: usize) -> Vec<u8> {
    let mut buffer = vec![0xee_u8; stride * height];
    let mut next = 1u8;
    for y in 0..height {
        for x in 0..width * 4 {
            buffer[y * stride + x] = next;
            next = next.wrapping_add(1);
            if next == 0xee {
                next = next.wrapping_add(1);
            }
        }
    }
    buffer
}

#[test]
fn repack_drops_padding_and_keeps_content() {
    let readback = padded(3, 2, 256);
    let pixels = repack(&readback, PhysicalSize::new(3, 2), 256).unwrap();
    assert_eq!(pixels.size(), PhysicalSize::new(3, 2));
    let expect: Vec<u8> = (1..=24).collect();
    assert_eq!(pixels.as_bytes(), &expect);
    assert_eq!(pixels.into_bytes(), expect);
}

#[test]
fn repack_with_odd_stride() {
    let readback = padded(2, 3, 11);
    let pixels = repack(&readback, PhysicalSize::new(2, 3), 11).unwrap();
    let expect: Vec<u8> = (1..=24).collect();
    assert_eq!(pixels.as_bytes(), &expect);
}

#[test]
fn repack_without_padding_is_a_copy() {
    let readback: Vec<u8> = (0..=255).collect();
    let pixels = repack(&readback, PhysicalSize::new(64, 1), 256).unwrap();
    assert_eq!(pixels.as_bytes(), &readback);
    let pixels = repack(&readback, PhysicalSize::new(8, 8), 32).unwrap();
    assert_eq!(pixels.as_bytes(), &readback);
}

#[test]
fn repack_of_a_frame_has_four_bytes_a_pixel() {
    let readback = padded(100, 7, 512);
    let pixels = repack(&readback, PhysicalSize::new(100, 7), 512).unwrap();
    let bytes = pixels.as_bytes();
    assert_eq!(bytes.len(), 100 * 7 * 4);
    assert!(!bytes.contains(&0xee));
    for y in 0..7 {
        assert_eq!(&bytes[y * 400..(y + 1) * 400], &readback[y * 512..y * 512 + 400]);
    }
}

#[test]
fn repack_refuses_wrong_length() {
    let readback = padded(3, 2, 256);
    let size = PhysicalSize::new(3, 2);
    assert_eq!(repack(&readback[..511], size, 256).err(), Some(RenderError::ReadbackSize));
    assert_eq!(repack(&readback[..256], size, 256).err(), Some(RenderError::ReadbackSize));
    assert_eq!(repack(&[], size, 256).err(), Some(RenderError::ReadbackSize));
    let mut longer = readback.clone();
    longer.push(0);
    assert_eq!(repack(&longer, size, 256).err(), Some(RenderError::ReadbackSize));
}

#[test]
fn repack_refuses_stride_shorter_than_a_row() {
    let readback = vec![0u8; 22];
    assert_eq!(
        repack(&readback, PhysicalSize::new(3, 2), 11).err(),
        Some(RenderError::ReadbackSize)
    );
    assert_eq!(
        repack(&readback, PhysicalSize::new(u32::MAX, 2), 11).err(),
        Some(RenderError::ReadbackSize)
    );
}

#[test]
fn repack_refuses_a_length_that_only_wraps_to_fit() {
    assert_eq!(
        repack(&[], PhysicalSize::new(1, u32::MAX), u64::MAX).err(),
        Some(RenderError::ReadbackSize)
    );
}

#[test]
fn repack_of_nothing_is_empty() {
    let pixels = repack(&[], PhysicalSize::new(0, 0), 0).unwrap();
    assert!(pixels.as_bytes().is_empty());
    let pixels = repack(&[], PhysicalSize::new(5, 0), 256).unwrap();
    assert!(pixels.as_bytes().is_empty());
    let pixels = repack(&[7; 512], PhysicalSize::new(0, 2), 256).unwrap();
    assert!(pixels.as_bytes().is_empty());
    assert_eq!(pixels.size(), PhysicalSize::new(0, 2));
}
