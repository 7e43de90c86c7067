use overlay_hook::message::{classify, InputEvent, MouseButton};
use overlay_hook::message::{
    BUTTON_COUNT, KEY_COUNT, WHEEL_DELTA, WM_ACTIVATE, WM_CHAR, WM_KEYDOWN, WM_KEYUP,
    WM_LBUTTONDBLCLK, WM_LBUTTONDOWN, WM_LBUTTONUP, WM_MBUTTONDBLCLK, WM_MBUTTONDOWN,
    WM_MBUTTONUP, WM_MOUSEHWHEEL, WM_MOUSEWHEEL, WM_RBUTTONDBLCLK, WM_RBUTTONDOWN, WM_RBUTTONUP,
    WM_SYSKEYDOWN, WM_SYSKEYUP, WM_XBUTTONDBLCLK, WM_XBUTTONDOWN, WM_XBUTTONUP, XBUTTON1, XBUTTON2,
};
use overlay_hook::payload::{
    get_wheel_delta_wparam, hiword, input_character, low_dword, wheel_delta,
};
use windows::Win32::UI::WindowsAndMessaging as native;

#[test]
fn hiword_takes_bits_16_to_31() {
    assert_eq!(hiword(0x1234_5678), 0x1234);
    assert_eq!(hiword(0x0000_ffff), 0);
    assert_eq!(hiword(0xffff_0000), 0xffff);
    assert_eq!(hiword(0), 0);
    assert_eq!(hiword(u32::MAX), 0xffff);
}

#[test]
fn wheel_field_is_the_high_word() {
    assert_eq!(get_wheel_delta_wparam(0x0078_0000), 120);
    assert_eq!(get_wheel_delta_wparam(0xff88_0008), 0xff88);
    assert_eq!(get_wheel_delta_wparam(0x0000_0008), 0);
}

#[test]
fn low_dword_drops_what_lies_above_32_bits() {
    assert_eq!(low_dword(0x1234_5678), 0x1234_5678);
    assert_eq!(low_dword(0), 0);
    if usize::BITS == 64 {
        let wide = (0xabcd_u64 << 32 | 0x8765_4321) as usize;
        assert_eq!(low_dword(wide), 0x8765_4321);
        assert_eq!(low_dword(usize::MAX), u32::MAX);
    }
}

#[test]
fn wheel_delta_is_signed() {
    assert_eq!(wheel_delta(0x0078_0000), 120);
    assert_eq!(wheel_delta(0xff88_0000), -120);
    assert_eq!(wheel_delta(0x7fff_0000), i16::MAX);
    assert_eq!(wheel_delta(0x8000_0000), i16::MIN);
    assert_eq!(wheel_delta(0xffff_0000), -1);
    assert_eq!(wheel_delta(0x0000_ffff), 0);
    // The low word holds the keys that are held; it plays no part.
    assert_eq!(wheel_delta(0x00f0_0013), 240);
}

#[test]
fn wheel_delta_ignores_bits_above_the_low_dword() {
    if usize::BITS == 64 {
        let wide = (0xffff_ffff_u64 << 32 | 0xff88_0000) as usize;
        assert_eq!(wheel_delta(wide), -120);
    }
}

#[test]
fn input_character_is_the_low_byte() {
    assert_eq!(input_character(0x41), 'A');
    assert_eq!(input_character(0), '\0');
    assert_eq!(input_character(0xe9), '\u{e9}');
    assert_eq!(input_character(0xff), '\u{ff}');
    assert_eq!(input_character(0x141), 'A');
    assert_eq!(input_character(0x20ac), '\u{ac}');
}

#[test]
fn extended_button_one_is_the_fourth_button() {
    assert_eq!(
        classify(WM_XBUTTONDOWN, 0x0001_0000),
        InputEvent::ButtonDown(MouseButton::Extra1)
    );
    assert_eq!(
        classify(WM_XBUTTONDBLCLK, 0x0001_0000),
        InputEvent::ButtonDown(MouseButton::Extra1)
    );
    assert_eq!(
        classify(WM_XBUTTONUP, 0x0001_0000),
        InputEvent::ButtonUp(MouseButton::Extra1)
    );
    assert_eq!(MouseButton::Extra1.index(), 3);
    assert_eq!(hiword(0x0001_0000), 0x0001);
    assert_eq!(XBUTTON1, 0x0001);
}

#[test]
fn extended_button_two_is_the_fifth_button() {
    assert_eq!(
        classify(WM_XBUTTONDOWN, 0x0002_0000),
        InputEvent::ButtonDown(MouseButton::Extra2)
    );
    assert_eq!(
        classify(WM_XBUTTONDBLCLK, 0x0002_0000),
        InputEvent::ButtonDown(MouseButton::Extra2)
    );
    assert_eq!(
        classify(WM_XBUTTONUP, 0x0002_0000),
        InputEvent::ButtonUp(MouseButton::Extra2)
    );
    assert_eq!(MouseButton::Extra2.index(), 4);
    assert_eq!(hiword(0x0002_0000), 0x0002);
    assert_eq!(XBUTTON2, 0x0002);
}

#[test]
fn every_other_high_word_is_the_fifth_button() {
    for high in [0usize, 3, 4, 0x8000, 0xffff] {
        assert_eq!(
            classify(WM_XBUTTONDOWN, high << 16),
            InputEvent::ButtonDown(MouseButton::Extra2)
        );
        assert_eq!(
            classify(WM_XBUTTONUP, high << 16 | 0x0001),
            InputEvent::ButtonUp(MouseButton::Extra2)
        );
    }
    // The low word holds the keys that are held; it does not choose the button.
    assert_eq!(
        classify(WM_XBUTTONDOWN, 0x0001_0020),
        InputEvent::ButtonDown(MouseButton::Extra1)
    );
}

#[test]
fn buttons_have_their_places() {
    assert_eq!(MouseButton::Left.index(), 0);
    assert_eq!(MouseButton::Right.index(), 1);
    assert_eq!(MouseButton::Middle.index(), 2);
    assert_eq!(MouseButton::Extra1.index(), 3);
    assert_eq!(MouseButton::Extra2.index(), 4);
    assert_eq!(BUTTON_COUNT, 5);
}

#[test]
fn plain_buttons_are_told_by_their_codes() {
    let down = [
        (WM_LBUTTONDOWN, MouseButton::Left),
        (WM_LBUTTONDBLCLK, MouseButton::Left),
        (WM_RBUTTONDOWN, MouseButton::Right),
        (WM_RBUTTONDBLCLK, MouseButton::Right),
        (WM_MBUTTONDOWN, MouseButton::Middle),
        (WM_MBUTTONDBLCLK, MouseButton::Middle),
    ];
    for (message, button) in down {
        assert_eq!(classify(message, 0), InputEvent::ButtonDown(button));
        assert_eq!(classify(message, 0x0001_0000), InputEvent::ButtonDown(button));
    }
    let up = [
        (WM_LBUTTONUP, MouseButton::Left),
        (WM_RBUTTONUP, MouseButton::Right),
        (WM_MBUTTONUP, MouseButton::Middle),
    ];
    for (message, button) in up {
        assert_eq!(classify(message, 0), InputEvent::ButtonUp(button));
        assert_eq!(classify(message, usize::MAX), InputEvent::ButtonUp(button));
    }
}

#[test]
fn keys_in_range_are_tracked() {
    assert_eq!(KEY_COUNT, 256);
    for message in [WM_KEYDOWN, WM_SYSKEYDOWN] {
        assert_eq!(classify(message, 0), InputEvent::KeyDown(0));
        assert_eq!(classify(message, 0x41), InputEvent::KeyDown(0x41));
        assert_eq!(classify(message, 255), InputEvent::KeyDown(255));
    }
    for message in [WM_KEYUP, WM_SYSKEYUP] {
        assert_eq!(classify(message, 0), InputEvent::KeyUp(0));
        assert_eq!(classify(message, 0x41), InputEvent::KeyUp(0x41));
        assert_eq!(classify(message, 255), InputEvent::KeyUp(255));
    }
}

#[test]
fn keys_out_of_range_are_not_tracked() {
    for message in [WM_KEYDOWN, WM_SYSKEYDOWN, WM_KEYUP, WM_SYSKEYUP] {
        assert_eq!(classify(message, 256), InputEvent::Other);
        assert_eq!(classify(message, 0x141), InputEvent::Other);
        assert_eq!(classify(message, usize::MAX), InputEvent::Other);
    }
}

#[test]
fn wheels_characters_and_activation_are_told_by_their_codes() {
    assert_eq!(classify(WM_MOUSEWHEEL, 0x0078_0000), InputEvent::Wheel(120));
    assert_eq!(classify(WM_MOUSEWHEEL, 0xff88_0000), InputEvent::Wheel(-120));
    assert_eq!(
        classify(WM_MOUSEHWHEEL, 0x00f0_0000),
        InputEvent::WheelHorizontal(240)
    );
    assert_eq!(
        classify(WM_MOUSEHWHEEL, 0x8000_0000),
        InputEvent::WheelHorizontal(i16::MIN)
    );
    assert_eq!(classify(WM_CHAR, 0x78), InputEvent::Character('x'));
    assert_eq!(classify(WM_ACTIVATE, 0), InputEvent::Activate);
    assert_eq!(classify(WM_ACTIVATE, 1), InputEvent::Activate);
    assert_eq!(classify(WM_ACTIVATE, usize::MAX), InputEvent::Activate);
}

#[test]
fn unknown_codes_are_other() {
    // Null, create, destroy, move, size, paint, close, mouse move, timer, user.
    for message in [
        0x0000u32, 0x0001, 0x0002, 0x0003, 0x0005, 0x000f, 0x0010, 0x0200, 0x0113, 0x0400,
        0x0007, 0x0103, 0x0106, 0x020f, 0xffff, u32::MAX,
    ] {
        assert_eq!(classify(message, 0), InputEvent::Other);
        assert_eq!(classify(message, 0x0001_0041), InputEvent::Other);
    }
}

#[test]
fn message_codes_are_the_platform_s() {
    assert_eq!(WM_ACTIVATE, native::WM_ACTIVATE);
    assert_eq!(WM_KEYDOWN, native::WM_KEYDOWN);
    assert_eq!(WM_KEYUP, native::WM_KEYUP);
    assert_eq!(WM_CHAR, native::WM_CHAR);
    assert_eq!(WM_SYSKEYDOWN, native::WM_SYSKEYDOWN);
    assert_eq!(WM_SYSKEYUP, native::WM_SYSKEYUP);
    assert_eq!(WM_LBUTTONDOWN, native::WM_LBUTTONDOWN);
    assert_eq!(WM_LBUTTONUP, native::WM_LBUTTONUP);
    assert_eq!(WM_LBUTTONDBLCLK, native::WM_LBUTTONDBLCLK);
    assert_eq!(WM_RBUTTONDOWN, native::WM_RBUTTONDOWN);
    assert_eq!(WM_RBUTTONUP, native::WM_RBUTTONUP);
    assert_eq!(WM_RBUTTONDBLCLK, native::WM_RBUTTONDBLCLK);
    assert_eq!(WM_MBUTTONDOWN, native::WM_MBUTTONDOWN);
    assert_eq!(WM_MBUTTONUP, native::WM_MBUTTONUP);
    assert_eq!(WM_MBUTTONDBLCLK, native::WM_MBUTTONDBLCLK);
    assert_eq!(WM_MOUSEWHEEL, native::WM_MOUSEWHEEL);
    assert_eq!(WM_MOUSEHWHEEL, native::WM_MOUSEHWHEEL);
    assert_eq!(WM_XBUTTONDOWN, native::WM_XBUTTONDOWN);
    assert_eq!(WM_XBUTTONUP, native::WM_XBUTTONUP);
    assert_eq!(WM_XBUTTONDBLCLK, native::WM_XBUTTONDBLCLK);
    assert_eq!(u32::from(XBUTTON1), native::XBUTTON1.0);
    assert_eq!(u32::from(XBUTTON2), native::XBUTTON2.0);
    assert_eq!(WHEEL_DELTA, native::WHEEL_DELTA);
}
