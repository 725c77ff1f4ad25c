//! What the user does.
use vstd::prelude::*;
use crate::dialog::DialogKey;

verus! {

/// A key, as far as the browser tells keys apart.
#[derive(Debug, Clone, Copy, PartialEq, Eq, Structural)]
pub enum Key {
    Char(char),
    Enter,
    Escape,
    Backspace,
    Delete,
    Tab,
    BackTab,
    Home,
    End,
    PageUp,
    PageDown,
    Up,
    Down,
    Left,
    Right,
    Other,
}

/// A key, with the modifier keys that are held, and whether it goes down rather than up or on.
#[derive(Debug, Clone, Copy, PartialEq, Eq, Structural)]
pub struct KeyInput {
    pub code: Key,
    pub shift: bool,
    pub ctrl: bool,
    pub press: bool,
}

/// What the mouse does.
#[derive(Debug, Clone, Copy, PartialEq, Eq, Structural)]
pub enum MouseKind {
    LeftDown,
    ScrollUp,
    ScrollDown,
    Other,
}

/// What the mouse does, and where.
#[derive(Debug, Clone, Copy, PartialEq, Eq, Structural)]
pub struct MouseInput {
    pub kind: MouseKind,
    pub x: u16,
    pub y: u16,
}

/// What the user does.
#[derive(Debug, Clone, Copy, PartialEq, Eq, Structural)]
pub enum Input {
    Key(KeyInput),
    Mouse(MouseInput),
    Other,
}

impl KeyInput {
    /// Whether the key is Ctrl+C.
    pub open spec fn is_interrupt(self) -> bool {
        self.code == Key::Char('c') && self.ctrl
    }

    /// The key as a dialog knows it.
    pub open spec fn for_dialog(self) -> Option<DialogKey> {
        if !self.press {
            None
        } else {
            match self.code {
                Key::Escape => Some(DialogKey::Escape),
                Key::Tab => Some(DialogKey::Tab),
                Key::Enter => Some(DialogKey::Enter),
                Key::Left => Some(DialogKey::Left),
                Key::Right => Some(DialogKey::Right),
                _ => None,
            }
        }
    }

    /// The modifier keys as bits: one for shift, four for control.
    pub open spec fn bits(self) -> u8 {
        ((if self.shift {
            1int
        } else {
            0
        }) + (if self.ctrl {
            4int
        } else {
            0
        })) as u8
    }

    /// Whether the key is Ctrl+C.
    pub fn interrupts(&self) -> (r: bool)
        ensures
            r == self.is_interrupt(),
    {
        match self.code {
            Key::Char(c) => c == 'c' && self.ctrl,
            _ => false,
        }
    }

    /// The key as a dialog knows it; a dialog listens to presses of a few keys only.
    pub fn dialog_key(&self) -> (r: Option<DialogKey>)
        ensures
            r == self.for_dialog(),
    {
        if !self.press {
            return None;
        }
        match self.code {
            Key::Escape => Some(DialogKey::Escape),
            Key::Tab => Some(DialogKey::Tab),
            Key::Enter => Some(DialogKey::Enter),
            Key::Left => Some(DialogKey::Left),
            Key::Right => Some(DialogKey::Right),
            _ => None,
        }
    }

    /// The modifier keys as bits: one for shift, four for control.
    pub fn modifier_bits(&self) -> (r: u8)
        ensures
            r == self.bits(),
    {
        let shift: u8 = if self.shift {
            1
        } else {
            0
        };
        let ctrl: u8 = if self.ctrl {
            4
        } else {
            0
        };
        shift + ctrl
    }
}

} // verus!
