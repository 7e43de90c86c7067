//! The overlay's input model: what is held down, how far the wheels have
//! turned since the last frame, and what was typed since then.

use vstd::prelude::*;
use crate::message::{InputEvent, MouseButton, BUTTON_COUNT, KEY_COUNT};

verus! {

/// The input state as a mathematical value.
#[verifier::ext_equal]
pub struct InputModel {
    /// One flag per virtual-key code: the key is down.
    pub keys_down: Seq<bool>,
    /// One flag per logical button: the button is down.
    pub mouse_down: Seq<bool>,
    /// Vertical wheel movement gathered since the last frame.
    pub wheel: int,
    /// Horizontal wheel movement gathered since the last frame.
    pub wheel_horizontal: int,
    /// Where the pointer is; `None` while no event has said.
    pub pointer: Option<(i32, i32)>,
    /// Characters typed since the last frame, oldest first.
    pub characters: Seq<char>,
}

/// `value`, held to the range of a 64-bit signed integer.
pub open spec fn saturate(value: int) -> int {
    if value > i64::MAX as int {
        i64::MAX as int
    } else if value < i64::MIN as int {
        i64::MIN as int
    } else {
        value
    }
}

impl InputModel {
    /// Every flag table has its full length and the wheels are in range.
    pub open spec fn wf(self) -> bool {
        &&& self.keys_down.len() == KEY_COUNT
        &&& self.mouse_down.len() == BUTTON_COUNT
        &&& i64::MIN <= self.wheel <= i64::MAX
        &&& i64::MIN <= self.wheel_horizontal <= i64::MAX
    }

    /// Nothing held, nothing turned, nothing typed, pointer unknown.
    pub open spec fn idle() -> InputModel {
        InputModel {
            keys_down: Seq::new(KEY_COUNT as nat, |i: int| false),
            mouse_down: Seq::new(BUTTON_COUNT as nat, |i: int| false),
            wheel: 0,
            wheel_horizontal: 0,
            pointer: None,
            characters: Seq::empty(),
        }
    }

    /// The input after `event`.
    ///
    /// A key or button event writes its one flag. A wheel event adds its
    /// movement to the axis it names; the sum stays at the end of the 64-bit
    /// range once it has reached it. A character joins the queue at its end.
    /// Activation and every other event leave the input as it is. No event
    /// moves the pointer.
    pub open spec fn apply(self, event: InputEvent) -> InputModel {
        match event {
            InputEvent::KeyDown(code) => InputModel {
                keys_down: self.keys_down.update(code as int, true),
                ..self
            },
            InputEvent::KeyUp(code) => InputModel {
                keys_down: self.keys_down.update(code as int, false),
                ..self
            },
            InputEvent::ButtonDown(button) => InputModel {
                mouse_down: self.mouse_down.update(button.position(), true),
                ..self
            },
            InputEvent::ButtonUp(button) => InputModel {
                mouse_down: self.mouse_down.update(button.position(), false),
                ..self
            },
            InputEvent::Wheel(delta) => InputModel {
                wheel: saturate(self.wheel + delta as int),
                ..self
            },
            InputEvent::WheelHorizontal(delta) => InputModel {
                wheel_horizontal: saturate(self.wheel_horizontal + delta as int),
                ..self
            },
            InputEvent::Character(character) => InputModel {
                characters: self.characters.push(character),
                ..self
            },
            InputEvent::Activate => self,
            InputEvent::Other => self,
        }
    }

    /// The input once a frame has read it: what is held stays held, the
    /// pointer stays where it is, the wheels are back at rest and the
    /// character queue is empty.
    pub open spec fn consumed(self) -> InputModel {
        InputModel { wheel: 0, wheel_horizontal: 0, characters: Seq::empty(), ..self }
    }

}

/// What one frame reads of the input: a copy of the state at the moment the
/// frame began.
pub struct FrameInput {
    pub keys_down: [bool; 256],
    pub mouse_down: [bool; 5],
    pub wheel: i64,
    pub wheel_horizontal: i64,
    pub pointer: Option<(i32, i32)>,
    pub characters: Vec<char>,
}

impl View for FrameInput {
    type V = InputModel;

    open spec fn view(&self) -> InputModel {
        InputModel {
            keys_down: self.keys_down@,
            mouse_down: self.mouse_down@,
            wheel: self.wheel as int,
            wheel_horizontal: self.wheel_horizontal as int,
            pointer: self.pointer,
            characters: self.characters@,
        }
    }
}

/// The input state that window events write and frames read.
pub struct InputState {
    keys_down: [bool; 256],
    mouse_down: [bool; 5],
    wheel: i64,
    wheel_horizontal: i64,
    pointer: Option<(i32, i32)>,
    characters: Vec<char>,
}

impl View for InputState {
    type V = InputModel;

    closed spec fn view(&self) -> InputModel {
        InputModel {
            keys_down: self.keys_down@,
            mouse_down: self.mouse_down@,
            wheel: self.wheel as int,
            wheel_horizontal: self.wheel_horizontal as int,
            pointer: self.pointer,
            characters: self.characters@,
        }
    }
}

/// `sum + delta`, held to the range of `i64`.
fn add_saturating(sum: i64, delta: i16) -> (total: i64)
    ensures
        total as int == saturate(sum as int + delta as int),
{
    let step: i64 = delta as i64;
    if step > 0 && sum > i64::MAX - step {
        i64::MAX
    } else if step < 0 && sum < i64::MIN - step {
        i64::MIN
    } else {
        sum + step
    }
}

impl InputState {
    /// An input state in which nothing has happened yet.
    pub fn new() -> (state: InputState)
        ensures
            state@ == InputModel::idle(),
            state@.wf(),
    {
        InputState {
            keys_down: [false;256],
            mouse_down: [false;5],
            wheel: 0,
            wheel_horizontal: 0,
            pointer: None,
            characters: Vec::new(),
        }
    }

    /// Records `event`.
    pub fn apply(&mut self, event: InputEvent)
        ensures
            final(self)@ == old(self)@.apply(event),
            final(self)@.wf(),
    {
        match event {
            InputEvent::KeyDown(code) => {
                self.keys_down[code as usize] = true;
            },
            InputEvent::KeyUp(code) => {
                self.keys_down[code as usize] = false;
            },
            InputEvent::ButtonDown(button) => {
                self.mouse_down[button.index()] = true;
            },
            InputEvent::ButtonUp(button) => {
                self.mouse_down[button.index()] = false;
            },
            InputEvent::Wheel(delta) => {
                self.wheel = add_saturating(self.wheel, delta);
            },
            InputEvent::WheelHorizontal(delta) => {
                self.wheel_horizontal = add_saturating(self.wheel_horizontal, delta);
            },
            InputEvent::Character(character) => {
                self.characters.push(character);
            },
            InputEvent::Activate => {},
            InputEvent::Other => {},
        }
    }

    /// Hands the gathered input to a frame and puts the wheels and the
    /// character queue back to rest.
    pub fn take_frame(&mut self) -> (frame: FrameInput)
        ensures
            frame@ == old(self)@,
            final(self)@ == old(self)@.consumed(),
            final(self)@.wf(),
    {
        let mut characters: Vec<char> = Vec::new();
        std::mem::swap(&mut characters, &mut self.characters);
        let frame = FrameInput {
            keys_down: self.keys_down,
            mouse_down: self.mouse_down,
            wheel: self.wheel,
            wheel_horizontal: self.wheel_horizontal,
            pointer: self.pointer,
            characters,
        };
        self.wheel = 0;
        self.wheel_horizontal = 0;
        frame
    }

    /// Whether the key with this virtual-key code is down.
    pub fn is_key_down(&self, code: u8) -> (down: bool)
        ensures
            down == self@.keys_down[code as int],
    {
        self.keys_down[code as usize]
    }

    /// Whether the button is down.
    pub fn is_button_down(&self, button: MouseButton) -> (down: bool)
        ensures
            down == self@.mouse_down[button.position()],
    {
        self.mouse_down[button.index()]
    }

    /// Vertical wheel movement gathered since the last frame.
    pub fn wheel(&self) -> (movement: i64)
        ensures
            movement as int == self@.wheel,
    {
        self.wheel
    }

    /// Horizontal wheel movement gathered since the last frame.
    pub fn wheel_horizontal(&self) -> (movement: i64)
        ensures
            movement as int == self@.wheel_horizontal,
    {
        self.wheel_horizontal
    }

    /// Where the pointer is; `None` while no event has said.
    pub fn pointer(&self) -> (place: Option<(i32, i32)>)
        ensures
            place == self@.pointer,
    {
        self.pointer
    }

    /// The characters typed since the last frame, oldest first.
    pub fn characters(&self) -> (queue: &Vec<char>)
        ensures
            queue@ == self@.characters,
    {
        &self.characters
    }
}

} // verus!
