use litcher::memory::MemoryImage;
use litcher::pointer::{ChainStep, Pointer};

struct Target;

fn buffer() -> MemoryImage {
    let mut image = MemoryImage::new(0x1000, vec![0; 0x400]).unwrap();
    assert!(image.write_pointer(0x1000, 0x1100));
    assert!(image.write_pointer(0x1100 + 0x10, 0x1200));
    assert!(image.write_pointer(0x1200 + 0x20, 0x1300));
    image
}

fn chain() -> Pointer<Target> {
    Pointer::new(0x1000, vec![0x10, 0x20])
}

#[test]
fn chain_resolves_to_the_target() {
    let image = buffer();
    let mut chain = chain();
    assert_eq!(chain.last_value, None);
    assert!(!chain.should_update);
    assert_eq!(chain.read(&image), Some(0x1300));
    assert_eq!(chain.last_value, Some(0x1300));
}

#[test]
fn resolving_twice_without_change_leaves_the_flag_clear() {
    let image = buffer();
    let mut chain = chain();
    assert_eq!(chain.read(&image), Some(0x1300));
    assert!(!chain.should_update);
    assert_eq!(chain.read(&image), Some(0x1300));
    assert!(!chain.should_update);
}

#[test]
fn changed_intermediate_pointer_raises_the_flag_once() {
    let mut image = buffer();
    let mut chain = chain();
    assert_eq!(chain.read(&image), Some(0x1300));
    assert_eq!(chain.read(&image), Some(0x1300));
    assert!(!chain.should_update);

    assert!(image.write_pointer(0x1100 + 0x10, 0x1280));
    assert!(image.write_pointer(0x1280 + 0x20, 0x1340));
    assert_eq!(chain.read(&image), Some(0x1340));
    assert!(chain.should_update);
    assert_eq!(chain.last_value, Some(0x1340));

    chain.should_update = false;
    assert_eq!(chain.read(&image), Some(0x1340));
    assert!(!chain.should_update);
    assert_eq!(chain.read(&image), Some(0x1340));
    assert!(!chain.should_update);
}

#[test]
fn an_unchanged_target_leaves_the_flag_as_the_caller_left_it() {
    let mut image = buffer();
    let mut chain = chain();
    assert_eq!(chain.read(&image), Some(0x1300));
    assert!(image.write_pointer(0x1200 + 0x20, 0x1344));
    assert_eq!(chain.read(&image), Some(0x1344));
    assert!(chain.should_update);
    assert_eq!(chain.read(&image), Some(0x1344));
    assert!(chain.should_update);
}

#[test]
fn zero_intermediate_link_yields_none() {
    let mut image = buffer();
    let mut chain = chain();
    assert_eq!(chain.read(&image), Some(0x1300));
    assert!(image.write_pointer(0x1100 + 0x10, 0));
    assert_eq!(chain.read(&image), None);
    assert_eq!(chain.last_value, Some(0x1300));
    assert!(!chain.should_update);
}

#[test]
fn zero_first_link_yields_none() {
    let mut image = buffer();
    assert!(image.write_pointer(0x1000, 0));
    let mut chain = chain();
    assert_eq!(chain.read(&image), None);
    assert_eq!(chain.last_value, None);
}

#[test]
fn chain_without_offsets_is_one_dereference() {
    let image = buffer();
    let mut chain: Pointer<Target> = Pointer::new(0x1000, Vec::new());
    assert_eq!(chain.hops(), 0);
    assert_eq!(chain.read(&image), Some(0x1100));
    let mut null: Pointer<Target> = Pointer::new(0x1008, Vec::new());
    assert_eq!(null.read(&image), Some(0));
}

#[test]
fn link_outside_the_image_yields_none() {
    let mut image = buffer();
    assert!(image.write_pointer(0x1100 + 0x10, 0x9000));
    let mut chain = chain();
    assert_eq!(chain.read(&image), None);
    let mut outside: Pointer<Target> = Pointer::new(0x0800, vec![0x10]);
    assert_eq!(outside.read(&image), None);
}

#[test]
fn a_walk_goes_step_by_step() {
    let chain = chain();
    assert_eq!(chain.start(), 0x1000);
    assert_eq!(chain.hops(), 2);
    assert_eq!(chain.advance(0, 0x1100), ChainStep::Dereference(0x1110));
    assert_eq!(chain.advance(1, 0x1200), ChainStep::Dereference(0x1220));
    assert_eq!(chain.advance(2, 0x1300), ChainStep::Resolved(0x1300));
    assert_eq!(chain.advance(2, 0), ChainStep::Resolved(0));
    assert_eq!(chain.advance(0, 0), ChainStep::Broken);
    assert_eq!(chain.advance(1, usize::MAX), ChainStep::Broken);
}

#[test]
fn observe_records_the_target() {
    let mut chain = chain();
    chain.observe(0x10);
    assert_eq!(chain.last_value, Some(0x10));
    assert!(!chain.should_update);
    chain.observe(0x10);
    assert!(!chain.should_update);
    chain.observe(0x20);
    assert_eq!(chain.last_value, Some(0x20));
    assert!(chain.should_update);
}
