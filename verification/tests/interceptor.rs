use overlay_hook::input::InputState;
use overlay_hook::interceptor::{dispatch, Disposition, ForwardedEvent, Interceptor, CONSUMED};
use overlay_hook::message::{
    MouseButton, WM_ACTIVATE, WM_CHAR, WM_KEYDOWN, WM_LBUTTONDOWN, WM_MOUSEWHEEL, WM_XBUTTONDOWN,
};

const DISPLACED: isize = 0x7ff6_1000;

#[test]
fn activation_is_always_consumed() {
    let mut input = InputState::new();
    let parameters = [
        (0usize, 0isize),
        (1, 0),
        (2, 0x1234),
        (0x0001_0001, -1),
        (usize::MAX, isize::MIN),
        (usize::MAX, isize::MAX),
    ];
    for (wparam, lparam) in parameters {
        let disposition = dispatch(DISPLACED, &mut input, WM_ACTIVATE, wparam, lparam);
        assert_eq!(disposition, Disposition::Consumed(1));
        // Whatever the displaced procedure would have said plays no part.
        assert_eq!(disposition.reply(0), CONSUMED);
        assert_eq!(disposition.reply(-77), CONSUMED);
        assert_eq!(disposition.reply(isize::MAX), 1);
    }
    assert_eq!(input.wheel(), 0);
    assert!(input.characters().is_empty());
}

#[test]
fn unrecognized_codes_are_forwarded_unchanged() {
    let mut input = InputState::new();
    for message in [0x0000u32, 0x0005, 0x000f, 0x0010, 0x0200, 0x0400, 0xc123, u32::MAX] {
        for (wparam, lparam) in [(0usize, 0isize), (0x0001_0002, -5), (usize::MAX, isize::MIN)] {
            let decision = dispatch(DISPLACED, &mut input, message, wparam, lparam);
            let expected = Disposition::Forward(ForwardedEvent {
                procedure: DISPLACED,
                message,
                wparam,
                lparam,
            });
            assert_eq!(decision, expected);
            for answer in [0isize, 1, -1, 42, isize::MIN, isize::MAX] {
                assert_eq!(expected.reply(answer), answer);
            }
        }
    }
    assert_eq!(input.wheel(), 0);
    assert!(input.characters().is_empty());
    assert!(!input.is_button_down(MouseButton::Left));
}

#[test]
fn input_events_are_recorded_and_forwarded() {
    let mut input = InputState::new();
    let key = dispatch(DISPLACED, &mut input, WM_KEYDOWN, 0x41, 0x001e_0001);
    assert_eq!(
        key,
        Disposition::Forward(ForwardedEvent {
            procedure: DISPLACED,
            message: WM_KEYDOWN,
            wparam: 0x41,
            lparam: 0x001e_0001,
        })
    );
    assert!(input.is_key_down(0x41));
    let button = dispatch(DISPLACED, &mut input, WM_LBUTTONDOWN, 1, 0x0010_0020);
    assert!(matches!(button, Disposition::Forward(_)));
    assert!(input.is_button_down(MouseButton::Left));
    let extended = dispatch(DISPLACED, &mut input, WM_XBUTTONDOWN, 0x0001_0000, 0);
    assert!(matches!(extended, Disposition::Forward(_)));
    assert!(input.is_button_down(MouseButton::Extra1));
    assert!(!input.is_button_down(MouseButton::Extra2));
    let wheel = dispatch(DISPLACED, &mut input, WM_MOUSEWHEEL, 0xff88_0000, 0);
    assert_eq!(wheel.reply(9), 9);
    assert_eq!(input.wheel(), -120);
    let character = dispatch(DISPLACED, &mut input, WM_CHAR, 0x7a, 0);
    assert_eq!(character.reply(0), 0);
    assert_eq!(input.characters(), &vec!['z']);
}

#[test]
fn activation_does_not_touch_the_input() {
    let mut input = InputState::new();
    dispatch(DISPLACED, &mut input, WM_KEYDOWN, 0x09, 0);
    let kept = dispatch(DISPLACED, &mut input, WM_ACTIVATE, 1, 0);
    assert_eq!(kept, Disposition::Consumed(CONSUMED));
    assert!(input.is_key_down(0x09));
    assert_eq!(input.wheel(), 0);
}

#[test]
fn interceptor_remembers_what_it_displaced() {
    let unarmed = Interceptor::Unarmed;
    assert!(!unarmed.is_armed());
    assert_eq!(unarmed.original(), None);
    let armed = Interceptor::Armed(DISPLACED);
    assert!(armed.is_armed());
    assert_eq!(armed.original(), Some(DISPLACED));
}

#[test]
fn consumed_answer_is_one() {
    assert_eq!(CONSUMED, 1);
    assert_eq!(Disposition::Consumed(5).reply(0), 5);
}
