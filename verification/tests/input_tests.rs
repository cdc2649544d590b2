use realms::input::{Key, MouseButton};

#[test]
fn key_codes_match_the_backend() {
    assert_eq!(Key::Space.code(), 32);
    assert_eq!(Key::A.code(), 65);
    assert_eq!(Key::Z.code(), 90);
    assert_eq!(Key::Escape.code(), 256);
    assert_eq!(Key::F12.code(), 301);
    assert_eq!(Key::Menu.code(), 348);
}

#[test]
fn from_code_finds_named_keys() {
    assert_eq!(Key::from_code(81), Some(Key::Q));
    assert_eq!(Key::from_code(32), Some(Key::Space));
    assert_eq!(Key::from_code(320), Some(Key::Keypad0));
    assert_eq!(Key::from_code(340), Some(Key::LeftShift));
}

#[test]
fn from_code_rejects_unknown_codes() {
    assert_eq!(Key::from_code(0), None);
    assert_eq!(Key::from_code(33), None);
    assert_eq!(Key::from_code(349), None);
    assert_eq!(Key::from_code(u32::MAX), None);
}

#[test]
fn key_codes_round_trip() {
    let keys = [
        Key::Space,
        Key::Comma,
        Key::Num0,
        Key::Num9,
        Key::A,
        Key::M,
        Key::GraveAccent,
        Key::Enter,
        Key::PageDown,
        Key::F1,
        Key::F25,
        Key::KeypadEnter,
        Key::RightSuper,
        Key::Menu,
    ];
    for key in keys {
        assert_eq!(Key::from_code(key.code()), Some(key));
    }
}

#[test]
fn mouse_buttons_match_the_backend() {
    assert_eq!(MouseButton::from_code(0), MouseButton::Left);
    assert_eq!(MouseButton::from_code(1), MouseButton::Right);
    assert_eq!(MouseButton::from_code(2), MouseButton::Middle);
    assert_eq!(MouseButton::from_code(3), MouseButton::Other);
    assert_eq!(MouseButton::from_code(7), MouseButton::Other);
}
