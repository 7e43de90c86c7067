//! The chained window procedure: which events the overlay keeps, which it
//! hands on to the procedure it displaced, and what each does to the input.
//!
//! The interceptor is unarmed until the overlay has taken the window's
//! procedure over; from then on it is armed and remembers the procedure it
//! displaced. It is armed when the overlay is built, and never disarmed.

use vstd::prelude::*;
use crate::input::{InputModel, InputState};
use crate::message::{button_pressed_by, button_released_by, classification, classify};
use crate::message::{InputEvent, MouseButton, KEY_COUNT};
use crate::message::{WM_ACTIVATE, WM_KEYDOWN, WM_KEYUP, WM_MOUSEHWHEEL, WM_MOUSEWHEEL};
use crate::message::{WM_SYSKEYDOWN, WM_SYSKEYUP};
use crate::payload::wheel_delta_of;

verus! {

/// What the window procedure answers for an event that it keeps.
pub const CONSUMED: isize = 1;

/// An event on its way to the displaced procedure, exactly as it arrived.
#[derive(Clone, Copy, PartialEq, Eq, Debug, Structural)]
pub struct ForwardedEvent {
    /// The displaced procedure.
    pub procedure: isize,
    pub message: u32,
    pub wparam: usize,
    pub lparam: isize,
}

/// What becomes of one event: the overlay keeps it, or the displaced
/// procedure gets it. There is nothing in between.
#[derive(Clone, Copy, PartialEq, Eq, Debug, Structural)]
pub enum Disposition {
    /// The event stops here, and the window procedure answers this value.
    Consumed(isize),
    /// The event goes to the displaced procedure, whose answer is the window
    /// procedure's answer.
    Forward(ForwardedEvent),
}

impl Disposition {
    /// The window procedure's answer, where `original_result` is what the
    /// displaced procedure answered to a forwarded event.
    pub open spec fn reply_of(self, original_result: isize) -> isize {
        match self {
            Disposition::Consumed(result) => result,
            Disposition::Forward(_) => original_result,
        }
    }

    /// The window procedure's answer. `original_result` is what the displaced
    /// procedure answered; for a consumed event, which never reaches that
    /// procedure, it is not read.
    pub fn reply(self, original_result: isize) -> (result: isize)
        ensures
            result == self.reply_of(original_result),
    {
        match self {
            Disposition::Consumed(result) => result,
            Disposition::Forward(_) => original_result,
        }
    }
}

/// What becomes of a native event once `procedure` has been displaced:
/// an activation is kept and answered with [`CONSUMED`]; everything else is
/// forwarded as it arrived.
pub open spec fn disposition_of(procedure: isize, message: u32, wparam: usize, lparam: isize)
    -> Disposition {
    if classification(message, wparam) == InputEvent::Activate {
        Disposition::Consumed(CONSUMED)
    } else {
        Disposition::Forward(ForwardedEvent { procedure, message, wparam, lparam })
    }
}

/// Whether the overlay's procedure stands in for the window's own.
#[derive(Clone, Copy, PartialEq, Eq, Debug, Structural)]
pub enum Interceptor {
    /// The window's own procedure is in place.
    Unarmed,
    /// The overlay's procedure is in place and this one was displaced.
    Armed(isize),
}

impl Interceptor {
    /// What becomes of a native event: nothing is decided while unarmed.
    pub open spec fn decision(self, message: u32, wparam: usize, lparam: isize) -> Option<
        Disposition,
    > {
        match self {
            Interceptor::Unarmed => None,
            Interceptor::Armed(procedure) => Some(
                disposition_of(procedure, message, wparam, lparam),
            ),
        }
    }

    /// The input after a native event: untouched while unarmed.
    pub open spec fn input_after(self, input: InputModel, message: u32, wparam: usize)
        -> InputModel {
        match self {
            Interceptor::Unarmed => input,
            Interceptor::Armed(_) => input.apply(classification(message, wparam)),
        }
    }

    /// Whether the overlay's procedure is in place.
    pub fn is_armed(&self) -> (armed: bool)
        ensures
            armed == (*self is Armed),
    {
        match self {
            Interceptor::Unarmed => false,
            Interceptor::Armed(_) => true,
        }
    }

    /// The displaced procedure, once armed.
    pub fn original(&self) -> (procedure: Option<isize>)
        ensures
            procedure == match *self {
                Interceptor::Unarmed => None::<isize>,
                Interceptor::Armed(displaced) => Some(displaced),
            },
    {
        match self {
            Interceptor::Unarmed => None,
            Interceptor::Armed(displaced) => Some(*displaced),
        }
    }
}

/// Takes one native event on behalf of the displaced `procedure`: records in
/// `input` what the event says, keeps it if it is an activation and forwards
/// it otherwise.
pub fn dispatch(
    procedure: isize,
    input: &mut InputState,
    message: u32,
    wparam: usize,
    lparam: isize,
) -> (disposition: Disposition)
    ensures
        disposition == disposition_of(procedure, message, wparam, lparam),
        final(input)@ == old(input)@.apply(classification(message, wparam)),
        final(input)@.wf(),
{
    let event = classify(message, wparam);
    input.apply(event);
    match event {
        InputEvent::Activate => Disposition::Consumed(CONSUMED),
        _ => Disposition::Forward(ForwardedEvent { procedure, message, wparam, lparam }),
    }
}

/// A button that is up, pressed and at once released, is up again, and
/// nothing else in the input has changed. Pressing covers the double-click
/// codes, and for the extended buttons both events must name the same one.
pub proof fn law_button_down_then_up(
    input: InputModel,
    button: MouseButton,
    down: u32,
    down_wparam: usize,
    up: u32,
    up_wparam: usize,
)
    requires
        input.wf(),
        button_pressed_by(down, down_wparam as int) == Some(button),
        button_released_by(up, up_wparam as int) == Some(button),
        !input.mouse_down[button.position()],
    ensures
        classification(down, down_wparam) == InputEvent::ButtonDown(button),
        classification(up, up_wparam) == InputEvent::ButtonUp(button),
        input.apply(classification(down, down_wparam)).mouse_down[button.position()],
        input.apply(classification(down, down_wparam)).apply(classification(up, up_wparam))
            == input,
{
}

/// Whatever the button's flag was before, after a press and a release the
/// flag is clear and no other flag has changed.
pub proof fn law_button_release_clears(
    input: InputModel,
    button: MouseButton,
    down: u32,
    down_wparam: usize,
    up: u32,
    up_wparam: usize,
)
    requires
        input.wf(),
        button_pressed_by(down, down_wparam as int) == Some(button),
        button_released_by(up, up_wparam as int) == Some(button),
    ensures
        input.apply(classification(down, down_wparam)).apply(classification(up, up_wparam))
            == (InputModel {
            mouse_down: input.mouse_down.update(button.position(), false),
            ..input
        }),
{
}

/// A key-down event for a code below [`KEY_COUNT`] sets that key's flag and
/// changes no other flag and nothing else; a key-up event for the same code
/// then clears that flag and changes no other flag and nothing else. The
/// system-key codes behave as the plain ones.
pub proof fn law_key_down_then_up(input: InputModel, code: usize, down: u32, up: u32)
    requires
        input.wf(),
        code < KEY_COUNT,
        down == WM_KEYDOWN || down == WM_SYSKEYDOWN,
        up == WM_KEYUP || up == WM_SYSKEYUP,
    ensures
        ({
            let pressed = input.apply(classification(down, code));
            let released = pressed.apply(classification(up, code));
            &&& pressed == (InputModel {
                keys_down: input.keys_down.update(code as int, true),
                ..input
            })
            &&& pressed.keys_down[code as int]
            &&& forall|other: int|
                0 <= other < KEY_COUNT && other != code ==> pressed.keys_down[other]
                    == input.keys_down[other]
            &&& released == (InputModel {
                keys_down: input.keys_down.update(code as int, false),
                ..input
            })
            &&& !released.keys_down[code as int]
            &&& forall|other: int|
                0 <= other < KEY_COUNT && other != code ==> released.keys_down[other]
                    == input.keys_down[other]
        }),
{
}

/// Two wheel events in a row add both their movements to the wheel: short
/// of the ends of the 64-bit range, the gathered movement is the sum of what
/// was there and the two deltas, and nothing else in the input changes.
/// Starting from a wheel at rest, it is the sum of the two deltas.
pub proof fn law_wheel_is_linear(input: InputModel, first: usize, second: usize)
    requires
        input.wf(),
        i64::MIN <= input.wheel + wheel_delta_of(first as int) <= i64::MAX,
        i64::MIN <= input.wheel + wheel_delta_of(first as int) + wheel_delta_of(second as int)
            <= i64::MAX,
    ensures
        input.apply(classification(WM_MOUSEWHEEL, first)).apply(
            classification(WM_MOUSEWHEEL, second),
        ) == (InputModel {
            wheel: input.wheel + wheel_delta_of(first as int) + wheel_delta_of(second as int),
            ..input
        }),
        -0x8000 <= wheel_delta_of(first as int) < 0x8000,
        -0x8000 <= wheel_delta_of(second as int) < 0x8000,
{
}

/// The horizontal wheel gathers movement as the vertical one does.
pub proof fn law_horizontal_wheel_is_linear(input: InputModel, first: usize, second: usize)
    requires
        input.wf(),
        i64::MIN <= input.wheel_horizontal + wheel_delta_of(first as int) <= i64::MAX,
        i64::MIN <= input.wheel_horizontal + wheel_delta_of(first as int) + wheel_delta_of(
            second as int,
        ) <= i64::MAX,
    ensures
        input.apply(classification(WM_MOUSEHWHEEL, first)).apply(
            classification(WM_MOUSEHWHEEL, second),
        ) == (InputModel {
            wheel_horizontal: input.wheel_horizontal + wheel_delta_of(first as int)
                + wheel_delta_of(second as int),
            ..input
        }),
{
}

/// An armed interceptor keeps every activation event, whatever its
/// parameters: the event is answered with [`CONSUMED`], the displaced
/// procedure's answer plays no part, and the input stays as it is.
pub proof fn law_activation_is_consumed(
    procedure: isize,
    input: InputModel,
    wparam: usize,
    lparam: isize,
    original_result: isize,
)
    ensures
        Interceptor::Armed(procedure).decision(WM_ACTIVATE, wparam, lparam) == Some(
            Disposition::Consumed(CONSUMED),
        ),
        disposition_of(procedure, WM_ACTIVATE, wparam, lparam).reply_of(original_result)
            == CONSUMED,
        Interceptor::Armed(procedure).input_after(input, WM_ACTIVATE, wparam) == input,
{
}

/// An armed interceptor forwards every event that is no activation to the
/// displaced procedure with its code and both parameters as they arrived,
/// and answers what that procedure answers. An event whose code the overlay
/// does not know leaves the input as it is.
pub proof fn law_other_events_are_forwarded(
    procedure: isize,
    input: InputModel,
    message: u32,
    wparam: usize,
    lparam: isize,
    original_result: isize,
)
    requires
        message != WM_ACTIVATE,
    ensures
        Interceptor::Armed(procedure).decision(message, wparam, lparam) == Some(
            Disposition::Forward(ForwardedEvent { procedure, message, wparam, lparam }),
        ),
        disposition_of(procedure, message, wparam, lparam).reply_of(original_result)
            == original_result,
        classification(message, wparam) == InputEvent::Other ==> Interceptor::Armed(
            procedure,
        ).input_after(input, message, wparam) == input,
{
}

} // verus!
