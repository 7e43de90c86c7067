//! The keys that the overlay knows by name, and the native virtual-key code
//! that each of them is read from.

use vstd::prelude::*;
use crate::message::KEY_COUNT;

verus! {

pub const VK_BACK: u16 = 0x08;

pub const VK_TAB: u16 = 0x09;

pub const VK_RETURN: u16 = 0x0D;

pub const VK_ESCAPE: u16 = 0x1B;

pub const VK_SPACE: u16 = 0x20;

/// Page up.
pub const VK_PRIOR: u16 = 0x21;

/// Page down.
pub const VK_NEXT: u16 = 0x22;

pub const VK_END: u16 = 0x23;

pub const VK_HOME: u16 = 0x24;

pub const VK_LEFT: u16 = 0x25;

pub const VK_UP: u16 = 0x26;

pub const VK_RIGHT: u16 = 0x27;

pub const VK_DOWN: u16 = 0x28;

pub const VK_INSERT: u16 = 0x2D;

pub const VK_DELETE: u16 = 0x2E;

pub const VK_A: u16 = 0x41;

pub const VK_C: u16 = 0x43;

pub const VK_V: u16 = 0x56;

pub const VK_X: u16 = 0x58;

pub const VK_Y: u16 = 0x59;

pub const VK_Z: u16 = 0x5A;

/// Number of keys that the overlay knows by name.
pub const LOGICAL_KEY_COUNT: usize = 21;

/// A key that the overlay knows by name.
#[derive(Clone, Copy, PartialEq, Eq, Debug, Structural)]
pub enum LogicalKey {
    Tab,
    LeftArrow,
    RightArrow,
    UpArrow,
    DownArrow,
    PageUp,
    PageDown,
    Home,
    End,
    Insert,
    Delete,
    Backspace,
    Space,
    Enter,
    Escape,
    A,
    C,
    V,
    X,
    Y,
    Z,
}

/// A logical key together with the native code it is read from.
#[derive(Clone, Copy, PartialEq, Eq, Debug, Structural)]
pub struct KeyBinding {
    pub key: LogicalKey,
    pub code: u16,
}

impl LogicalKey {
    /// The native virtual-key code of the key.
    pub open spec fn native_code_of(self) -> u16 {
        match self {
            LogicalKey::Tab => VK_TAB,
            LogicalKey::LeftArrow => VK_LEFT,
            LogicalKey::RightArrow => VK_RIGHT,
            LogicalKey::UpArrow => VK_UP,
            LogicalKey::DownArrow => VK_DOWN,
            LogicalKey::PageUp => VK_PRIOR,
            LogicalKey::PageDown => VK_NEXT,
            LogicalKey::Home => VK_HOME,
            LogicalKey::End => VK_END,
            LogicalKey::Insert => VK_INSERT,
            LogicalKey::Delete => VK_DELETE,
            LogicalKey::Backspace => VK_BACK,
            LogicalKey::Space => VK_SPACE,
            LogicalKey::Enter => VK_RETURN,
            LogicalKey::Escape => VK_ESCAPE,
            LogicalKey::A => VK_A,
            LogicalKey::C => VK_C,
            LogicalKey::V => VK_V,
            LogicalKey::X => VK_X,
            LogicalKey::Y => VK_Y,
            LogicalKey::Z => VK_Z,
        }
    }

    /// The native virtual-key code of the key.
    pub fn native_code(self) -> (code: u16)
        ensures
            code == self.native_code_of(),
            code < KEY_COUNT,
    {
        match self {
            LogicalKey::Tab => VK_TAB,
            LogicalKey::LeftArrow => VK_LEFT,
            LogicalKey::RightArrow => VK_RIGHT,
            LogicalKey::UpArrow => VK_UP,
            LogicalKey::DownArrow => VK_DOWN,
            LogicalKey::PageUp => VK_PRIOR,
            LogicalKey::PageDown => VK_NEXT,
            LogicalKey::Home => VK_HOME,
            LogicalKey::End => VK_END,
            LogicalKey::Insert => VK_INSERT,
            LogicalKey::Delete => VK_DELETE,
            LogicalKey::Backspace => VK_BACK,
            LogicalKey::Space => VK_SPACE,
            LogicalKey::Enter => VK_RETURN,
            LogicalKey::Escape => VK_ESCAPE,
            LogicalKey::A => VK_A,
            LogicalKey::C => VK_C,
            LogicalKey::V => VK_V,
            LogicalKey::X => VK_X,
            LogicalKey::Y => VK_Y,
            LogicalKey::Z => VK_Z,
        }
    }
}

/// The logical keys in the order of the key map.
pub open spec fn key_order() -> Seq<LogicalKey> {
    seq![
        LogicalKey::Tab,
        LogicalKey::LeftArrow,
        LogicalKey::RightArrow,
        LogicalKey::UpArrow,
        LogicalKey::DownArrow,
        LogicalKey::PageUp,
        LogicalKey::PageDown,
        LogicalKey::Home,
        LogicalKey::End,
        LogicalKey::Insert,
        LogicalKey::Delete,
        LogicalKey::Backspace,
        LogicalKey::Space,
        LogicalKey::Enter,
        LogicalKey::Escape,
        LogicalKey::A,
        LogicalKey::C,
        LogicalKey::V,
        LogicalKey::X,
        LogicalKey::Y,
        LogicalKey::Z,
    ]
}

/// The key map: every logical key once, in [`key_order`], each with its
/// native code.
pub open spec fn key_table() -> Seq<KeyBinding> {
    Seq::new(
        LOGICAL_KEY_COUNT as nat,
        |i: int| KeyBinding { key: key_order()[i], code: key_order()[i].native_code_of() },
    )
}

/// Every logical key, in the order of the key map.
pub fn logical_keys() -> (keys: [LogicalKey; 21])
    ensures
        keys@ == key_order(),
{
    let keys = [
        LogicalKey::Tab,
        LogicalKey::LeftArrow,
        LogicalKey::RightArrow,
        LogicalKey::UpArrow,
        LogicalKey::DownArrow,
        LogicalKey::PageUp,
        LogicalKey::PageDown,
        LogicalKey::Home,
        LogicalKey::End,
        LogicalKey::Insert,
        LogicalKey::Delete,
        LogicalKey::Backspace,
        LogicalKey::Space,
        LogicalKey::Enter,
        LogicalKey::Escape,
        LogicalKey::A,
        LogicalKey::C,
        LogicalKey::V,
        LogicalKey::X,
        LogicalKey::Y,
        LogicalKey::Z,
    ];
    keys
}

/// The key map that the user-interface context is configured with.
pub fn key_map() -> (table: Vec<KeyBinding>)
    ensures
        table@ == key_table(),
{
    let keys = logical_keys();
    let mut table: Vec<KeyBinding> = Vec::new();
    let mut i: usize = 0;
    while i < 21
        invariant
            i <= 21,
            keys@ == key_order(),
            table@.len() == i,
            forall|j: int| 0 <= j < i ==> table@[j] == key_table()[j],
        decreases 21 - i,
    {
        let key = keys[i];
        table.push(KeyBinding { key, code: key.native_code() });
        i += 1;
    }
    table
}

/// No two logical keys are read from the same native code, and every native
/// code in the key map has a flag among the tracked keys.
pub proof fn law_key_map_is_injective(first: LogicalKey, second: LogicalKey)
    ensures
        first.native_code_of() == second.native_code_of() ==> first == second,
        first.native_code_of() < KEY_COUNT,
{
}

/// Every logical key stands in the key map.
pub proof fn law_key_map_is_complete(key: LogicalKey)
    ensures
        exists|i: int|
            0 <= i < LOGICAL_KEY_COUNT && #[trigger] key_table()[i] == (KeyBinding {
                key,
                code: key.native_code_of(),
            }),
{
    let i: int = match key {
        LogicalKey::Tab => 0,
        LogicalKey::LeftArrow => 1,
        LogicalKey::RightArrow => 2,
        LogicalKey::UpArrow => 3,
        LogicalKey::DownArrow => 4,
        LogicalKey::PageUp => 5,
        LogicalKey::PageDown => 6,
        LogicalKey::Home => 7,
        LogicalKey::End => 8,
        LogicalKey::Insert => 9,
        LogicalKey::Delete => 10,
        LogicalKey::Backspace => 11,
        LogicalKey::Space => 12,
        LogicalKey::Enter => 13,
        LogicalKey::Escape => 14,
        LogicalKey::A => 15,
        LogicalKey::C => 16,
        LogicalKey::V => 17,
        LogicalKey::X => 18,
        LogicalKey::Y => 19,
        LogicalKey::Z => 20,
    };
    assert(key_table()[i] == (KeyBinding { key, code: key.native_code_of() }));
}

} // verus!
