//! Native window events and the input events they stand for.
//!
//! A native event is a numeric message code with a pointer-sized primary
//! parameter and a pointer-sized secondary one. [`classify`] reads the code
//! and the primary parameter and says which change of the overlay's input
//! the event asks for, if any.

use vstd::prelude::*;
use crate::payload::{character_code_of, high_word, wheel_delta_of};
use crate::payload::{hiword, input_character, low_dword, wheel_delta};

verus! {

/// The window is being activated or deactivated.
pub const WM_ACTIVATE: u32 = 0x0006;

/// A key went down.
pub const WM_KEYDOWN: u32 = 0x0100;

/// A key came up.
pub const WM_KEYUP: u32 = 0x0101;

/// A character was composed from key strokes.
pub const WM_CHAR: u32 = 0x0102;

/// A key went down while the system key was held.
pub const WM_SYSKEYDOWN: u32 = 0x0104;

/// A key came up while the system key was held.
pub const WM_SYSKEYUP: u32 = 0x0105;

/// The left button went down.
pub const WM_LBUTTONDOWN: u32 = 0x0201;

/// The left button came up.
pub const WM_LBUTTONUP: u32 = 0x0202;

/// The left button went down for the second time in a double click.
pub const WM_LBUTTONDBLCLK: u32 = 0x0203;

/// The right button went down.
pub const WM_RBUTTONDOWN: u32 = 0x0204;

/// The right button came up.
pub const WM_RBUTTONUP: u32 = 0x0205;

/// The right button went down for the second time in a double click.
pub const WM_RBUTTONDBLCLK: u32 = 0x0206;

/// The middle button went down.
pub const WM_MBUTTONDOWN: u32 = 0x0207;

/// The middle button came up.
pub const WM_MBUTTONUP: u32 = 0x0208;

/// The middle button went down for the second time in a double click.
pub const WM_MBUTTONDBLCLK: u32 = 0x0209;

/// The vertical wheel turned.
pub const WM_MOUSEWHEEL: u32 = 0x020A;

/// An extended button went down.
pub const WM_XBUTTONDOWN: u32 = 0x020B;

/// An extended button came up.
pub const WM_XBUTTONUP: u32 = 0x020C;

/// An extended button went down for the second time in a double click.
pub const WM_XBUTTONDBLCLK: u32 = 0x020D;

/// The horizontal wheel turned.
pub const WM_MOUSEHWHEEL: u32 = 0x020E;

/// The value of an extended-button event's high word that names the first
/// extended button.
pub const XBUTTON1: u16 = 0x0001;

/// The value of an extended-button event's high word that names the second
/// extended button.
pub const XBUTTON2: u16 = 0x0002;

/// Wheel movement that makes one notch.
pub const WHEEL_DELTA: u32 = 120;

/// Number of virtual-key codes that the overlay tracks.
pub const KEY_COUNT: usize = 256;

/// Number of logical pointer buttons.
pub const BUTTON_COUNT: usize = 5;

/// A logical pointer button.
#[derive(Clone, Copy, PartialEq, Eq, Debug, Structural)]
pub enum MouseButton {
    Left,
    Right,
    Middle,
    Extra1,
    Extra2,
}

impl MouseButton {
    /// The button's place among the button-down flags.
    pub open spec fn position(self) -> int {
        match self {
            MouseButton::Left => 0,
            MouseButton::Right => 1,
            MouseButton::Middle => 2,
            MouseButton::Extra1 => 3,
            MouseButton::Extra2 => 4,
        }
    }

    /// The button's place among the button-down flags.
    pub fn index(self) -> (index: usize)
        ensures
            index as int == self.position(),
            index < BUTTON_COUNT,
    {
        match self {
            MouseButton::Left => 0,
            MouseButton::Right => 1,
            MouseButton::Middle => 2,
            MouseButton::Extra1 => 3,
            MouseButton::Extra2 => 4,
        }
    }
}

/// What a native event asks of the overlay's input.
#[derive(Clone, Copy, PartialEq, Eq, Debug, Structural)]
pub enum InputEvent {
    /// The key with this virtual-key code is now down.
    KeyDown(u8),
    /// The key with this virtual-key code is now up.
    KeyUp(u8),
    /// The button is now down.
    ButtonDown(MouseButton),
    /// The button is now up.
    ButtonUp(MouseButton),
    /// The vertical wheel moved by this much, in units of which
    /// [`WHEEL_DELTA`] make a notch.
    Wheel(i16),
    /// The horizontal wheel moved by this much.
    WheelHorizontal(i16),
    /// This character was typed.
    Character(char),
    /// The window's activation changed.
    Activate,
    /// Nothing that concerns the overlay's input.
    Other,
}

/// The extended button that an extended-button event with this primary
/// parameter speaks of: the first one where the high word is [`XBUTTON1`],
/// the second one for every other value.
pub open spec fn extended_button_of(wparam: int) -> MouseButton {
    if high_word(wparam) == XBUTTON1 as int {
        MouseButton::Extra1
    } else {
        MouseButton::Extra2
    }
}

/// The button that went down, where `message` is a button-down code.
pub open spec fn button_pressed_by(message: u32, wparam: int) -> Option<MouseButton> {
    if message == WM_LBUTTONDOWN || message == WM_LBUTTONDBLCLK {
        Some(MouseButton::Left)
    } else if message == WM_RBUTTONDOWN || message == WM_RBUTTONDBLCLK {
        Some(MouseButton::Right)
    } else if message == WM_MBUTTONDOWN || message == WM_MBUTTONDBLCLK {
        Some(MouseButton::Middle)
    } else if message == WM_XBUTTONDOWN || message == WM_XBUTTONDBLCLK {
        Some(extended_button_of(wparam))
    } else {
        None
    }
}

/// The button that came up, where `message` is a button-up code.
pub open spec fn button_released_by(message: u32, wparam: int) -> Option<MouseButton> {
    if message == WM_LBUTTONUP {
        Some(MouseButton::Left)
    } else if message == WM_RBUTTONUP {
        Some(MouseButton::Right)
    } else if message == WM_MBUTTONUP {
        Some(MouseButton::Middle)
    } else if message == WM_XBUTTONUP {
        Some(extended_button_of(wparam))
    } else {
        None
    }
}

/// The input event that a native event stands for.
///
/// Key events whose code lies outside the tracked range, and every message
/// code that is not listed in this module, stand for [`InputEvent::Other`].
pub open spec fn classification(message: u32, wparam: usize) -> InputEvent {
    if message == WM_KEYDOWN || message == WM_SYSKEYDOWN {
        if wparam < KEY_COUNT {
            InputEvent::KeyDown(wparam as u8)
        } else {
            InputEvent::Other
        }
    } else if message == WM_KEYUP || message == WM_SYSKEYUP {
        if wparam < KEY_COUNT {
            InputEvent::KeyUp(wparam as u8)
        } else {
            InputEvent::Other
        }
    } else if button_pressed_by(message, wparam as int) is Some {
        InputEvent::ButtonDown(button_pressed_by(message, wparam as int)->0)
    } else if button_released_by(message, wparam as int) is Some {
        InputEvent::ButtonUp(button_released_by(message, wparam as int)->0)
    } else if message == WM_MOUSEWHEEL {
        InputEvent::Wheel(wheel_delta_of(wparam as int) as i16)
    } else if message == WM_MOUSEHWHEEL {
        InputEvent::WheelHorizontal(wheel_delta_of(wparam as int) as i16)
    } else if message == WM_CHAR {
        InputEvent::Character(character_code_of(wparam as int) as char)
    } else if message == WM_ACTIVATE {
        InputEvent::Activate
    } else {
        InputEvent::Other
    }
}

/// Tells the two extended buttons apart by the high word of the event's
/// primary parameter.
pub fn extended_button(wparam: usize) -> (button: MouseButton)
    ensures
        button == extended_button_of(wparam as int),
{
    if hiword(low_dword(wparam)) == XBUTTON1 {
        MouseButton::Extra1
    } else {
        MouseButton::Extra2
    }
}

/// Reads a native event's message code and primary parameter.
pub fn classify(message: u32, wparam: usize) -> (event: InputEvent)
    ensures
        event == classification(message, wparam),
{
    if message == WM_KEYDOWN || message == WM_SYSKEYDOWN {
        if wparam < KEY_COUNT {
            InputEvent::KeyDown(wparam as u8)
        } else {
            InputEvent::Other
        }
    } else if message == WM_KEYUP || message == WM_SYSKEYUP {
        if wparam < KEY_COUNT {
            InputEvent::KeyUp(wparam as u8)
        } else {
            InputEvent::Other
        }
    } else if message == WM_LBUTTONDOWN || message == WM_LBUTTONDBLCLK {
        InputEvent::ButtonDown(MouseButton::Left)
    } else if message == WM_RBUTTONDOWN || message == WM_RBUTTONDBLCLK {
        InputEvent::ButtonDown(MouseButton::Right)
    } else if message == WM_MBUTTONDOWN || message == WM_MBUTTONDBLCLK {
        InputEvent::ButtonDown(MouseButton::Middle)
    } else if message == WM_XBUTTONDOWN || message == WM_XBUTTONDBLCLK {
        InputEvent::ButtonDown(extended_button(wparam))
    } else if message == WM_LBUTTONUP {
        InputEvent::ButtonUp(MouseButton::Left)
    } else if message == WM_RBUTTONUP {
        InputEvent::ButtonUp(MouseButton::Right)
    } else if message == WM_MBUTTONUP {
        InputEvent::ButtonUp(MouseButton::Middle)
    } else if message == WM_XBUTTONUP {
        InputEvent::ButtonUp(extended_button(wparam))
    } else if message == WM_MOUSEWHEEL {
        InputEvent::Wheel(wheel_delta(wparam))
    } else if message == WM_MOUSEHWHEEL {
        InputEvent::WheelHorizontal(wheel_delta(wparam))
    } else if message == WM_CHAR {
        InputEvent::Character(input_character(wparam))
    } else if message == WM_ACTIVATE {
        InputEvent::Activate
    } else {
        InputEvent::Other
    }
}

/// An extended-button event whose high word is [`XBUTTON1`] speaks of the
/// fourth logical button (place 3); with any other high word, of the fifth
/// (place 4). This holds of the down, double-click and up codes alike.
pub proof fn law_extended_button_choice(message: u32, wparam: usize)
    requires
        message == WM_XBUTTONDOWN || message == WM_XBUTTONDBLCLK || message == WM_XBUTTONUP,
    ensures
        high_word(wparam as int) == XBUTTON1 as int ==> extended_button_of(wparam as int).position()
            == 3,
        high_word(wparam as int) != XBUTTON1 as int ==> extended_button_of(wparam as int).position()
            == 4,
        message != WM_XBUTTONUP ==> classification(message, wparam) == InputEvent::ButtonDown(
            extended_button_of(wparam as int),
        ),
        message == WM_XBUTTONUP ==> classification(message, wparam) == InputEvent::ButtonUp(
            extended_button_of(wparam as int),
        ),
{
}

} // verus!
