use litcher::detect_api::{detect_api, RenderingAPI};
use litcher::util::KeyState;

#[test]
fn null_handle_means_direct3d_eleven() {
    assert_eq!(detect_api(0), RenderingAPI::Dx11);
    assert_eq!(detect_api(0x7FFB_1234_0000), RenderingAPI::Dx12);
    assert_eq!(detect_api(-1), RenderingAPI::Dx12);
}

#[test]
fn key_going_down_is_seen_once() {
    let mut key = KeyState::new(0x73, false);
    assert_eq!(key.0, 0x73);
    assert!(!key.keydown(false));
    assert!(key.keydown(true));
    assert!(!key.keydown(true));
    assert!(!key.keydown(false));
    assert!(key.keydown(true));
}

#[test]
fn key_going_up_is_seen_once() {
    let mut key = KeyState::new(0x10, true);
    assert!(!key.keyup(true));
    assert!(key.keyup(false));
    assert!(!key.keyup(false));
    assert!(!key.keyup(true));
    assert!(key.keyup(false));
}

#[test]
fn update_returns_the_state_before_and_now() {
    let mut key = KeyState::new(1, false);
    assert_eq!(key.update(true), (false, true));
    assert_eq!(key.update(true), (true, true));
    assert_eq!(key.update(false), (true, false));
    assert_eq!(key.update(false), (false, false));
    assert_eq!(key.1, false);
    let copy = key;
    assert_eq!(copy.0, 1);
}
