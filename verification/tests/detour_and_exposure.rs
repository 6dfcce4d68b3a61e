use litcher::detour::{DetourState, JUMP_LENGTH, NOP};
use litcher::exposure::{
    tonemapping_pattern, ToneMappingContainer, ToneMappingSettings, TONEMAPPING_PATCH_LENGTH,
};
use litcher::memory::MemoryImage;
use litcher::resolver::ResolveError;

const SIGNATURE: [u8; 15] = [
    0x48, 0x85, 0xD2, 0x74, 0x10, 0x4C, 0x39, 0x72, 0x08, 0x74, 0x0A, 0x48, 0x8B, 0x52, 0x08,
];

fn code() -> MemoryImage {
    let bytes: Vec<u8> = (0..64u8).collect();
    MemoryImage::new(0x40_0000, bytes).unwrap()
}

#[test]
fn patch_is_an_absolute_jump_padded_with_no_ops() {
    assert_eq!(JUMP_LENGTH, 14);
    assert_eq!(NOP, 0x90);
    let patch = DetourState::patch_bytes(0x1122_3344_5566_7788, 16);
    assert_eq!(
        patch,
        vec![
            0xFF, 0x25, 0x00, 0x00, 0x00, 0x00, 0x88, 0x77, 0x66, 0x55, 0x44, 0x33, 0x22, 0x11,
            0x90, 0x90
        ]
    );
    assert_eq!(DetourState::patch_bytes(1, 14).len(), 14);
}

#[test]
fn install_saves_the_original_bytes_and_patches_the_jump() {
    let mut image = code();
    let state = DetourState::install(&mut image, 0x40_0010, 0x7000_0000, 20).unwrap();
    assert_eq!(state.target_address, 0x40_0010);
    assert_eq!(state.trampoline_address, 0x7000_0000);
    assert!(state.engaged);
    assert_eq!(state.original_bytes, (0x10..0x24u8).collect::<Vec<u8>>());
    assert_eq!(state.return_address(), Some(0x40_0024));
    let bytes = image.as_bytes();
    assert_eq!(bytes[0x0F], 0x0F);
    assert_eq!(
        bytes[0x10..0x24],
        [
            0xFF, 0x25, 0, 0, 0, 0, 0x00, 0x00, 0x00, 0x70, 0, 0, 0, 0, 0x90, 0x90, 0x90, 0x90,
            0x90, 0x90
        ]
    );
    assert_eq!(bytes[0x24], 0x24);
}

#[test]
fn restore_gives_every_byte_back() {
    let mut image = code();
    let before = image.as_bytes().to_vec();
    let mut state = DetourState::install(&mut image, 0x40_0003, 0xABCD, 32).unwrap();
    assert_ne!(image.as_bytes(), &before[..]);
    assert!(state.restore(&mut image));
    assert!(!state.engaged);
    assert_eq!(image.as_bytes(), &before[..]);
    assert_eq!(state.original_bytes, before[3..35].to_vec());
}

#[test]
fn patch_that_is_too_short_or_outside_is_refused() {
    let mut image = code();
    let before = image.as_bytes().to_vec();
    assert!(DetourState::install(&mut image, 0x40_0000, 0x1, 13).is_none());
    assert!(DetourState::install(&mut image, 0x40_0000, 0x1, 0).is_none());
    assert!(DetourState::install(&mut image, 0x40_0030, 0x1, 20).is_none());
    assert!(DetourState::install(&mut image, 0x3F_FFFF, 0x1, 20).is_none());
    assert_eq!(image.as_bytes(), &before[..]);
    assert!(DetourState::install(&mut image, 0x40_0032, 0x1, 14).is_some());
}

#[test]
fn restore_outside_the_image_changes_nothing() {
    let mut image = code();
    let mut state = DetourState {
        target_address: 0x40_0038,
        original_bytes: vec![1; 16],
        trampoline_address: 0,
        engaged: true,
    };
    let before = image.as_bytes().to_vec();
    assert!(!state.restore(&mut image));
    assert!(state.engaged);
    assert_eq!(image.as_bytes(), &before[..]);
    let far = DetourState {
        target_address: usize::MAX,
        original_bytes: vec![1; 16],
        trampoline_address: 0,
        engaged: true,
    };
    assert_eq!(far.return_address(), None);
}

fn module(at: usize, len: usize) -> MemoryImage {
    let mut bytes = vec![0xCC; len];
    bytes[at..at + 15].copy_from_slice(&SIGNATURE);
    MemoryImage::new(0x1_4000_0000, bytes).unwrap()
}

#[test]
fn tone_mapping_code_is_found_and_detoured() {
    assert_eq!(TONEMAPPING_PATCH_LENGTH, 32);
    assert_eq!(tonemapping_pattern().len(), 15);
    let mut image = module(0x21, 0x100);
    let container = ToneMappingContainer::new(&mut image, 0x7FF6_1000_0000).unwrap();
    assert_eq!(container.detour.target_address, 0x1_4000_0021);
    assert_eq!(container.detour.trampoline_address, 0x7FF6_1000_0000);
    assert_eq!(container.detour.original_bytes.len(), 32);
    assert_eq!(container.detour.original_bytes[..15], SIGNATURE);
    assert_eq!(container.detour.original_bytes[15], 0xCC);
    assert_eq!(container.detour.return_address(), Some(0x1_4000_0041));
    assert!(container.detour.engaged);
    assert_eq!(container.value, 1.0f32.to_bits());
    assert!(!container.overwrite);
    assert_eq!(image.as_bytes()[0x21..0x27], [0xFF, 0x25, 0, 0, 0, 0]);
    assert_eq!(image.as_bytes()[0x20], 0xCC);
    assert_eq!(image.as_bytes()[0x40], 0x90);
    assert_eq!(image.as_bytes()[0x41], 0xCC);
}

#[test]
fn missing_tone_mapping_code_is_not_found() {
    let mut image = MemoryImage::new(0x1_4000_0000, vec![0xCC; 0x100]).unwrap();
    let before = image.as_bytes().to_vec();
    assert_eq!(ToneMappingContainer::new(&mut image, 1).err(), Some(ResolveError::NotFound));
    assert_eq!(image.as_bytes(), &before[..]);
}

#[test]
fn detour_that_does_not_fit_is_unreadable() {
    let mut image = module(0x100 - 20, 0x100);
    let before = image.as_bytes().to_vec();
    assert_eq!(ToneMappingContainer::new(&mut image, 1).err(), Some(ResolveError::Unreadable));
    assert_eq!(image.as_bytes(), &before[..]);
}

#[test]
fn exposure_controls_become_what_the_injected_code_reads() {
    let mut image = module(0, 0x40);
    let mut container = ToneMappingContainer::new(&mut image, 1).unwrap();
    let settings = container.handle_ui(2.5f32.to_bits(), true);
    assert_eq!(settings, ToneMappingSettings { enable: 1, value: 2.5f32.to_bits() });
    assert_eq!(container.value, 2.5f32.to_bits());
    assert!(container.overwrite);
    let settings = container.handle_ui(0.0f32.to_bits(), false);
    assert_eq!(settings, ToneMappingSettings { enable: 0, value: 0 });
    assert!(!container.overwrite);
}
