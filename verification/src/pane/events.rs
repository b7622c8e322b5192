//! Key events and application events, as the panes and the key handler see them.
use vstd::prelude::*;

verus! {

/// A key, with the variants of the terminal library's key codes (those that
/// carry media or modifier key details carry none here: nothing reads them).
#[derive(Debug, Clone, Copy, PartialEq, Eq, Structural)]
pub enum KeyCode {
    Backspace,
    Enter,
    Left,
    Right,
    Up,
    Down,
    Home,
    End,
    PageUp,
    PageDown,
    Tab,
    BackTab,
    Delete,
    Insert,
    F(u8),
    Char(char),
    Null,
    Esc,
    CapsLock,
    ScrollLock,
    NumLock,
    PrintScreen,
    Pause,
    Menu,
    KeypadBegin,
    Media,
    Modifier,
}

/// The modifier keys held with a key, as bits with the terminal library's values.
#[derive(Debug, Clone, Copy, PartialEq, Eq, Structural)]
pub struct KeyModifiers {
    pub bits: u8,
}

pub const SHIFT: u8 = 1;
pub const CONTROL: u8 = 2;
pub const ALT: u8 = 4;
pub const SUPER: u8 = 8;
pub const HYPER: u8 = 16;
pub const META: u8 = 32;

impl KeyModifiers {
    pub open spec fn spec_contains(self, flag: u8) -> bool {
        self.bits & flag == flag
    }

    pub open spec fn spec_is_empty(self) -> bool {
        self.bits == 0
    }

    /// Whether every bit of `flag` is held.
    pub fn contains(&self, flag: u8) -> (r: bool)
        ensures
            r == self.spec_contains(flag),
    {
        self.bits & flag == flag
    }

    /// Whether no modifier is held.
    pub fn is_empty(&self) -> (r: bool)
        ensures
            r == self.spec_is_empty(),
    {
        self.bits == 0
    }
}

/// A key press: the key and the modifiers held with it.
#[derive(Debug, Clone, Copy, PartialEq, Eq, Structural)]
pub struct KeyEvent {
    pub code: KeyCode,
    pub modifiers: KeyModifiers,
}

impl KeyEvent {
    pub fn new(code: KeyCode, modifiers: u8) -> (k: KeyEvent)
        ensures
            k.code == code,
            k.modifiers.bits == modifiers,
    {
        KeyEvent { code, modifiers: KeyModifiers { bits: modifiers } }
    }
}

/// An event delivered to a pane.
#[derive(Debug, Clone)]
pub enum AppEvent {
    Key(KeyEvent),
    DataUpdated(String),
    ThemeChanged,
}

} // verus!
