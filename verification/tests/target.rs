use globe_map::align::align_up;
use globe_map::input::PhysicalSize;
use globe_map::target::{aligned_row_stride, RenderTarget, ResourceError, ROW_ALIGNMENT};
use globe_map::uniform::{
    block_len, COLOR_BYTES, COLOR_OFFSET, CONTENT_BYTES, MATRIX_BYTES, MODEL_VIEW_OFFSET,
    PROJECTION_OFFSET, USUAL_ALIGNMENT,
};

#[test]
fn lengths_are_rounded_up_to_the_alignment() {
    assert_eq!(align_up(0, 256), 0);
    assert_eq!(align_up(1, 256), 256);
    assert_eq!(align_up(256, 256), 256);
    assert_eq!(align_up(257, 256), 512);
    assert_eq!(align_up(10, 3), 12);
    assert_eq!(align_up(12, 3), 12);
    assert_eq!(align_up(7, 1), 7);
    assert_eq!(align_up(7, 0), 7);
    assert_eq!(align_up(u64::MAX - u32::MAX as u64, u32::MAX), u64::MAX - u32::MAX as u64);
    assert_eq!(align_up(u64::MAX - u32::MAX as u64 - 1, u32::MAX), u64::MAX - u32::MAX as u64);
}

#[test]
fn uniform_block_is_padded_for_the_device() {
    assert_eq!(block_len(USUAL_ALIGNMENT), 256);
    assert_eq!(block_len(0), 144);
    assert_eq!(block_len(1), 144);
    assert_eq!(block_len(16), 144);
    assert_eq!(block_len(32), 160);
    assert_eq!(block_len(64), 192);
    assert_eq!(block_len(128), 256);
    assert_eq!(block_len(512), 512);
    assert_eq!(block_len(u32::MAX), u32::MAX as u64);
}

#[test]
fn uniform_fields_follow_each_other() {
    assert_eq!(PROJECTION_OFFSET, 0);
    assert_eq!(MODEL_VIEW_OFFSET, PROJECTION_OFFSET + MATRIX_BYTES);
    assert_eq!(COLOR_OFFSET, MODEL_VIEW_OFFSET + MATRIX_BYTES);
    assert_eq!(CONTENT_BYTES, COLOR_OFFSET + COLOR_BYTES);
    assert_eq!(MATRIX_BYTES, 16 * 4);
    assert_eq!(COLOR_BYTES, 4 * 4);
}

#[test]
fn stride_is_the_least_aligned_row() {
    assert_eq!(aligned_row_stride(0), 0);
    assert_eq!(aligned_row_stride(1), 256);
    assert_eq!(aligned_row_stride(64), 256);
    assert_eq!(aligned_row_stride(65), 512);
    assert_eq!(aligned_row_stride(640), 2560);
    assert_eq!(aligned_row_stride(641), 2816);
    assert_eq!(aligned_row_stride(u32::MAX), 1 << 34);
}

#[test]
fn stride_is_aligned_and_holds_a_row() {
    for width in 0..2000u32 {
        let stride = aligned_row_stride(width);
        assert_eq!(stride % ROW_ALIGNMENT as u64, 0);
        assert!(stride >= 4 * width as u64);
        assert!(stride < 4 * width as u64 + ROW_ALIGNMENT as u64);
    }
}

#[test]
fn target_matches_its_size() {
    let target = RenderTarget::for_size(PhysicalSize::new(640, 480)).unwrap();
    assert_eq!(target.size, PhysicalSize::new(640, 480));
    assert_eq!(target.row_stride, 2560);
    assert_eq!(target.readback_len, 2560 * 480);

    let target = RenderTarget::for_size(PhysicalSize::new(100, 3)).unwrap();
    assert_eq!(target.row_stride, 512);
    assert_eq!(target.readback_len, 1536);
}

#[test]
fn target_of_the_largest_size_does_not_overflow() {
    let target = RenderTarget::for_size(PhysicalSize::new(u32::MAX, u32::MAX)).unwrap();
    assert_eq!(target.row_stride, 1 << 34);
    assert_eq!(target.readback_len, (1u128 << 34) * (u32::MAX as u128));
}

#[test]
fn target_needs_pixels() {
    for (w, h) in [(0, 0), (0, 480), (640, 0)] {
        let size = PhysicalSize::new(w, h);
        assert_eq!(RenderTarget::for_size(size), Err(ResourceError { requested: size }));
    }
}
