//! Keyboard events as plain values: the key, the modifiers held with it,
//! and whether it was pressed, repeated or released. The terminal layer
//! converts the events it reads into these.

use vstd::prelude::*;

verus! {

/// A key on the keyboard.
#[derive(Debug, Clone, Copy, PartialEq, Eq, Structural)]
pub enum KeyCode {
    /// Backspace.
    Backspace,
    /// Enter.
    Enter,
    /// Left arrow.
    Left,
    /// Right arrow.
    Right,
    /// Up arrow.
    Up,
    /// Down arrow.
    Down,
    /// Home.
    Home,
    /// End.
    End,
    /// Page up.
    PageUp,
    /// Page down.
    PageDown,
    /// Tab.
    Tab,
    /// Shift+Tab.
    BackTab,
    /// Delete.
    Delete,
    /// Insert.
    Insert,
    /// A function key, `F(1)` for F1.
    F(u8),
    /// A character.
    Char(char),
    /// No key.
    Null,
    /// Escape.
    Esc,
    /// Caps lock.
    CapsLock,
    /// Scroll lock.
    ScrollLock,
    /// Num lock.
    NumLock,
    /// Print screen.
    PrintScreen,
    /// Pause.
    Pause,
    /// Menu.
    Menu,
    /// The keypad's middle key.
    KeypadBegin,
    /// A media key, by its position in the terminal library's list.
    Media(u8),
    /// A modifier key on its own, by its position in the terminal library's
    /// list.
    Modifier(u8),
}

/// The modifier keys held with a key.
#[derive(Debug, Clone, Copy, PartialEq, Eq, Structural)]
pub struct KeyModifiers {
    /// Shift.
    pub shift: bool,
    /// Control.
    pub control: bool,
    /// Alt.
    pub alt: bool,
    /// Super (Windows, Command).
    pub super_key: bool,
    /// Hyper.
    pub hyper: bool,
    /// Meta.
    pub meta: bool,
}

/// No modifier is held.
pub open spec fn no_mods(m: KeyModifiers) -> bool {
    !m.shift && !m.control && !m.alt && !m.super_key && !m.hyper && !m.meta
}

/// Only Shift is held.
pub open spec fn only_shift(m: KeyModifiers) -> bool {
    m.shift && !m.control && !m.alt && !m.super_key && !m.hyper && !m.meta
}

/// Only Control is held.
pub open spec fn only_control(m: KeyModifiers) -> bool {
    !m.shift && m.control && !m.alt && !m.super_key && !m.hyper && !m.meta
}

impl KeyModifiers {
    /// No modifier.
    pub fn none() -> (r: Self)
        ensures
            no_mods(r),
    {
        KeyModifiers {
            shift: false,
            control: false,
            alt: false,
            super_key: false,
            hyper: false,
            meta: false,
        }
    }

    /// Shift alone.
    pub fn shift() -> (r: Self)
        ensures
            only_shift(r),
    {
        KeyModifiers { shift: true, ..KeyModifiers::none() }
    }

    /// Control alone.
    pub fn control() -> (r: Self)
        ensures
            only_control(r),
    {
        KeyModifiers { control: true, ..KeyModifiers::none() }
    }

    /// Alt alone.
    pub fn alt() -> (r: Self)
        ensures
            r == (KeyModifiers { alt: true, ..KeyModifiers::none_spec() }),
    {
        KeyModifiers { alt: true, ..KeyModifiers::none() }
    }

    /// No modifier, in specifications.
    pub open spec fn none_spec() -> Self {
        KeyModifiers {
            shift: false,
            control: false,
            alt: false,
            super_key: false,
            hyper: false,
            meta: false,
        }
    }

    /// The modifiers held in either set.
    pub fn union(self, other: Self) -> (r: Self)
        ensures
            r.shift == (self.shift || other.shift),
            r.control == (self.control || other.control),
            r.alt == (self.alt || other.alt),
            r.super_key == (self.super_key || other.super_key),
            r.hyper == (self.hyper || other.hyper),
            r.meta == (self.meta || other.meta),
    {
        KeyModifiers {
            shift: self.shift || other.shift,
            control: self.control || other.control,
            alt: self.alt || other.alt,
            super_key: self.super_key || other.super_key,
            hyper: self.hyper || other.hyper,
            meta: self.meta || other.meta,
        }
    }

    /// Returns true if no modifier is held.
    pub fn is_empty(&self) -> (r: bool)
        ensures
            r == no_mods(*self),
    {
        !self.shift && !self.control && !self.alt && !self.super_key && !self.hyper && !self.meta
    }

    /// Returns true if exactly Shift is held.
    pub fn is_only_shift(&self) -> (r: bool)
        ensures
            r == only_shift(*self),
    {
        self.shift && !self.control && !self.alt && !self.super_key && !self.hyper && !self.meta
    }

    /// Returns true if exactly Control is held.
    pub fn is_only_control(&self) -> (r: bool)
        ensures
            r == only_control(*self),
    {
        !self.shift && self.control && !self.alt && !self.super_key && !self.hyper && !self.meta
    }
}

/// Whether a key went down, is auto-repeating, or came up.
#[derive(Debug, Clone, Copy, PartialEq, Eq, Structural)]
pub enum KeyEventKind {
    /// The key went down.
    Press,
    /// The key is held and repeating.
    Repeat,
    /// The key came up.
    Release,
}

/// One keyboard event.
#[derive(Debug, Clone, Copy, PartialEq, Eq, Structural)]
pub struct KeyEvent {
    /// The key.
    pub code: KeyCode,
    /// The modifiers held with it.
    pub modifiers: KeyModifiers,
    /// Press, repeat or release.
    pub kind: KeyEventKind,
}

impl KeyEvent {
    /// A key press with the given modifiers.
    pub fn new(code: KeyCode, modifiers: KeyModifiers) -> (r: Self)
        ensures
            r.code == code,
            r.modifiers == modifiers,
            r.kind == KeyEventKind::Press,
    {
        KeyEvent { code, modifiers, kind: KeyEventKind::Press }
    }

    /// An event of the given kind.
    pub fn with_kind(code: KeyCode, modifiers: KeyModifiers, kind: KeyEventKind) -> (r: Self)
        ensures
            r.code == code,
            r.modifiers == modifiers,
            r.kind == kind,
    {
        KeyEvent { code, modifiers, kind }
    }
}

/// A direction on the screen.
#[derive(Debug, Clone, Copy, PartialEq, Eq, Structural)]
pub enum Direction {
    /// Up.
    Up,
    /// Down.
    Down,
    /// Left.
    Left,
    /// Right.
    Right,
}

/// The direction an arrow key points in; `None` for any other key.
pub open spec fn arrow_direction(code: KeyCode) -> Option<Direction> {
    match code {
        KeyCode::Up => Some(Direction::Up),
        KeyCode::Down => Some(Direction::Down),
        KeyCode::Left => Some(Direction::Left),
        KeyCode::Right => Some(Direction::Right),
        _ => None,
    }
}

} // verus!
