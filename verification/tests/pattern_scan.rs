use litcher::memory::MemoryImage;
use litcher::pattern::{BytePattern, PatternByte, ScanError};

fn signature() -> BytePattern {
    BytePattern::new(vec![
        PatternByte::Exact(0xAA),
        PatternByte::Exact(0xBB),
        PatternByte::Any,
        PatternByte::Exact(0xDD),
    ])
}

#[test]
fn wildcard_matches_any_byte_at_offset_zero() {
    let pattern = signature();
    assert_eq!(pattern.find(&[0xAA, 0xBB, 0xCC, 0xDD]), Some(0));
    let image = MemoryImage::new(0x1000, vec![0xAA, 0xBB, 0xCC, 0xDD]).unwrap();
    assert_eq!(pattern.scan(&image), Ok(0x1000));
}

#[test]
fn mismatch_in_exact_byte_is_not_found() {
    let pattern = signature();
    assert_eq!(pattern.find(&[0xAA, 0xBB, 0xCC, 0xEE]), None);
    let image = MemoryImage::new(0x1000, vec![0xAA, 0xBB, 0xCC, 0xEE]).unwrap();
    assert_eq!(pattern.scan(&image), Err(ScanError::NotFound));
}

#[test]
fn scan_returns_the_first_of_several_matches() {
    let pattern = signature();
    let bytes = vec![0x00, 0xAA, 0xBB, 0x01, 0xDD, 0xAA, 0xBB, 0x02, 0xDD];
    let image = MemoryImage::new(0x4000_0000, bytes).unwrap();
    assert_eq!(pattern.scan(&image), Ok(0x4000_0001));
    assert_eq!(pattern.scan_all(&image), vec![0x4000_0001, 0x4000_0005]);
}

#[test]
fn scan_needs_no_alignment() {
    let pattern = signature();
    let image = MemoryImage::new(0x10, vec![0, 0, 0, 0xAA, 0xBB, 0xFF, 0xDD]).unwrap();
    assert_eq!(pattern.scan(&image), Ok(0x13));
}

#[test]
fn overlapping_matches_are_all_listed() {
    let pattern = BytePattern::new(vec![PatternByte::Exact(1), PatternByte::Any]);
    assert_eq!(pattern.find_all(&[1, 1, 1, 2], 100), vec![100, 101, 102]);
}

#[test]
fn pattern_longer_than_the_bytes_matches_nowhere() {
    let pattern = signature();
    assert_eq!(pattern.find(&[0xAA, 0xBB, 0xCC]), None);
    assert!(pattern.find_all(&[0xAA, 0xBB, 0xCC], 0).is_empty());
}

#[test]
fn match_at_the_very_end_is_found() {
    let pattern = signature();
    assert_eq!(pattern.find(&[9, 9, 0xAA, 0xBB, 0x00, 0xDD]), Some(2));
}

#[test]
fn empty_pattern_matches_at_the_start() {
    let pattern = BytePattern::new(Vec::new());
    assert_eq!(pattern.find(&[1, 2, 3]), Some(0));
    assert_eq!(pattern.find(&[]), Some(0));
    assert_eq!(pattern.len(), 0);
}

#[test]
fn matches_at_checks_one_position() {
    let pattern = signature();
    let data = [0x00, 0xAA, 0xBB, 0x55, 0xDD];
    assert!(!pattern.matches_at(&data, 0));
    assert!(pattern.matches_at(&data, 1));
    assert!(!pattern.matches_at(&data, 2));
    assert!(!pattern.matches_at(&data, 5));
    assert!(!pattern.matches_at(&data, usize::MAX));
}

#[test]
fn from_bytes_matches_exactly_those_bytes() {
    let pattern = BytePattern::from_bytes(&[0x48, 0x8B]);
    assert_eq!(pattern.len(), 2);
    assert_eq!(pattern.slots, vec![PatternByte::Exact(0x48), PatternByte::Exact(0x8B)]);
    assert_eq!(pattern.find(&[0x48, 0x00, 0x48, 0x8B]), Some(2));
}

#[test]
fn pattern_byte_accepts() {
    assert!(PatternByte::Any.matches(0));
    assert!(PatternByte::Any.matches(0xFF));
    assert!(PatternByte::Exact(7).matches(7));
    assert!(!PatternByte::Exact(7).matches(8));
}
