use litcher::context::LitcherContext;
use litcher::memory::MemoryImage;
use litcher::resolver::{read_offset32, read_relative, resolve_relative, ResolveError};

#[test]
fn length_seven_and_offset_sixteen() {
    let a: usize = 0x1_4000_1000;
    assert_eq!(resolve_relative(a, 7, 0x10), Some(0x1_4000_1017));
    assert_eq!(resolve_relative(a, 7, 0x10), Some(a + 7 + 0x10));
}

#[test]
fn stored_offset_is_read_little_endian() {
    let a: usize = 0x5000;
    let image = MemoryImage::new(a, vec![0x48, 0x8B, 0x0D, 0x10, 0x00, 0x00, 0x00, 0x90]).unwrap();
    assert_eq!(read_relative(&image, a, 7), Ok(a + 7 + 0x10));
    assert_eq!(read_relative(&image, a, 7), Ok(0x5017));
    assert_eq!(LitcherContext::read_from_mov(&image, a), Ok(0x5017));
}

#[test]
fn negative_offset_points_backwards() {
    assert_eq!(resolve_relative(0x1000, 5, -0x20), Some(0x0FE5));
    let image = MemoryImage::new(0x1000, vec![0xE8, 0xE0, 0xFF, 0xFF, 0xFF]).unwrap();
    assert_eq!(read_offset32(&image, 0x1001), Some(-0x20));
    assert_eq!(read_relative(&image, 0x1000, 5), Ok(0x0FE5));
}

#[test]
fn extreme_offsets_are_decoded() {
    let image = MemoryImage::new(
        0x1000,
        vec![0x00, 0x00, 0x00, 0x80, 0xFF, 0xFF, 0xFF, 0x7F],
    )
    .unwrap();
    assert_eq!(read_offset32(&image, 0x1000), Some(i32::MIN));
    assert_eq!(read_offset32(&image, 0x1004), Some(i32::MAX));
    assert_eq!(read_offset32(&image, 0x1005), None);
}

#[test]
fn a_wrong_length_gives_a_wrong_but_plausible_address() {
    let image = MemoryImage::new(0x5000, vec![0x48, 0x8B, 0x0D, 0x10, 0x00, 0x00, 0x00, 0x90]).unwrap();
    assert_eq!(read_relative(&image, 0x5000, 6), Ok(0x5000 + 6 + 0x100D));
    assert_eq!(read_relative(&image, 0x5000, 8), Err(ResolveError::OutOfRange));
}

#[test]
fn sum_outside_the_address_space_is_out_of_range() {
    assert_eq!(resolve_relative(0, 0, -1), None);
    assert_eq!(resolve_relative(usize::MAX, 1, 0), None);
    assert_eq!(resolve_relative(usize::MAX, 1, -1), Some(usize::MAX));
    let image = MemoryImage::new(0x4, vec![0xF0, 0xFF, 0xFF, 0xFF]).unwrap();
    assert_eq!(read_relative(&image, 0x4, 4), Err(ResolveError::OutOfRange));
}

#[test]
fn operand_outside_the_image_is_unreadable() {
    let image = MemoryImage::new(0x5000, vec![0x48, 0x8B, 0x0D, 0x10, 0x00, 0x00]).unwrap();
    assert_eq!(read_relative(&image, 0x5000, 7), Err(ResolveError::Unreadable));
    assert_eq!(read_relative(&image, 0x4FFC, 7), Err(ResolveError::Unreadable));
    assert_eq!(read_relative(&image, usize::MAX, 7), Err(ResolveError::Unreadable));
}

#[test]
fn instruction_shorter_than_its_offset_is_unreadable() {
    let image = MemoryImage::new(0x5000, vec![0; 16]).unwrap();
    assert_eq!(read_relative(&image, 0x5000, 3), Err(ResolveError::Unreadable));
    assert_eq!(read_relative(&image, 0x5000, 4), Ok(0x5004));
}
