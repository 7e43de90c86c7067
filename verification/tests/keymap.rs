use overlay_hook::keymap::{key_map, logical_keys, KeyBinding, LogicalKey, LOGICAL_KEY_COUNT};
use overlay_hook::keymap::{
    VK_A, VK_BACK, VK_C, VK_DELETE, VK_DOWN, VK_END, VK_ESCAPE, VK_HOME, VK_INSERT, VK_LEFT,
    VK_NEXT, VK_PRIOR, VK_RETURN, VK_RIGHT, VK_SPACE, VK_TAB, VK_UP, VK_V, VK_X, VK_Y, VK_Z,
};
use windows::Win32::UI::Input::KeyboardAndMouse as native;

#[test]
fn key_map_lists_every_key_with_its_code() {
    let expected = vec![
        KeyBinding { key: LogicalKey::Tab, code: 0x09 },
        KeyBinding { key: LogicalKey::LeftArrow, code: 0x25 },
        KeyBinding { key: LogicalKey::RightArrow, code: 0x27 },
        KeyBinding { key: LogicalKey::UpArrow, code: 0x26 },
        KeyBinding { key: LogicalKey::DownArrow, code: 0x28 },
        KeyBinding { key: LogicalKey::PageUp, code: 0x21 },
        KeyBinding { key: LogicalKey::PageDown, code: 0x22 },
        KeyBinding { key: LogicalKey::Home, code: 0x24 },
        KeyBinding { key: LogicalKey::End, code: 0x23 },
        KeyBinding { key: LogicalKey::Insert, code: 0x2d },
        KeyBinding { key: LogicalKey::Delete, code: 0x2e },
        KeyBinding { key: LogicalKey::Backspace, code: 0x08 },
        KeyBinding { key: LogicalKey::Space, code: 0x20 },
        KeyBinding { key: LogicalKey::Enter, code: 0x0d },
        KeyBinding { key: LogicalKey::Escape, code: 0x1b },
        KeyBinding { key: LogicalKey::A, code: 0x41 },
        KeyBinding { key: LogicalKey::C, code: 0x43 },
        KeyBinding { key: LogicalKey::V, code: 0x56 },
        KeyBinding { key: LogicalKey::X, code: 0x58 },
        KeyBinding { key: LogicalKey::Y, code: 0x59 },
        KeyBinding { key: LogicalKey::Z, code: 0x5a },
    ];
    assert_eq!(key_map(), expected);
    assert_eq!(LOGICAL_KEY_COUNT, 21);
}

#[test]
fn key_map_follows_the_order_of_the_keys() {
    let keys = logical_keys();
    let table = key_map();
    assert_eq!(keys.len(), table.len());
    for (key, binding) in keys.iter().zip(table.iter()) {
        assert_eq!(binding.key, *key);
        assert_eq!(binding.code, key.native_code());
    }
}

#[test]
fn no_two_keys_share_a_code() {
    let table = key_map();
    for (i, first) in table.iter().enumerate() {
        assert!(first.code < 256);
        for second in table.iter().skip(i + 1) {
            assert_ne!(first.code, second.code);
            assert_ne!(first.key, second.key);
        }
    }
}

#[test]
fn key_codes_are_the_platform_s() {
    assert_eq!(VK_TAB, native::VK_TAB.0);
    assert_eq!(VK_LEFT, native::VK_LEFT.0);
    assert_eq!(VK_RIGHT, native::VK_RIGHT.0);
    assert_eq!(VK_UP, native::VK_UP.0);
    assert_eq!(VK_DOWN, native::VK_DOWN.0);
    assert_eq!(VK_PRIOR, native::VK_PRIOR.0);
    assert_eq!(VK_NEXT, native::VK_NEXT.0);
    assert_eq!(VK_HOME, native::VK_HOME.0);
    assert_eq!(VK_END, native::VK_END.0);
    assert_eq!(VK_INSERT, native::VK_INSERT.0);
    assert_eq!(VK_DELETE, native::VK_DELETE.0);
    assert_eq!(VK_BACK, native::VK_BACK.0);
    assert_eq!(VK_SPACE, native::VK_SPACE.0);
    assert_eq!(VK_RETURN, native::VK_RETURN.0);
    assert_eq!(VK_ESCAPE, native::VK_ESCAPE.0);
    assert_eq!(VK_A, native::VK_A.0);
    assert_eq!(VK_C, native::VK_C.0);
    assert_eq!(VK_V, native::VK_V.0);
    assert_eq!(VK_X, native::VK_X.0);
    assert_eq!(VK_Y, native::VK_Y.0);
    assert_eq!(VK_Z, native::VK_Z.0);
}

#[test]
fn keys_map_as_the_platform_names_them() {
    assert_eq!(LogicalKey::PageUp.native_code(), native::VK_PRIOR.0);
    assert_eq!(LogicalKey::PageDown.native_code(), native::VK_NEXT.0);
    assert_eq!(LogicalKey::Backspace.native_code(), native::VK_BACK.0);
    assert_eq!(LogicalKey::Enter.native_code(), native::VK_RETURN.0);
    assert_eq!(LogicalKey::Escape.native_code(), native::VK_ESCAPE.0);
    assert_eq!(LogicalKey::A.native_code(), u16::from(b'A'));
    assert_eq!(LogicalKey::Z.native_code(), u16::from(b'Z'));
}
