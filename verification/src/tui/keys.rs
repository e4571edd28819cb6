use vstd::prelude::*;

verus! {

/// A key on the keyboard, as the terminal reports it.
#[derive(Clone, Copy, Debug, PartialEq, Eq, Structural)]
pub enum KeyCode {
    /// backspace
    Backspace,
    /// enter (return)
    Enter,
    /// left arrow
    Left,
    /// right arrow
    Right,
    /// up arrow
    Up,
    /// down arrow
    Down,
    /// home
    Home,
    /// end
    End,
    /// page up
    PageUp,
    /// page down
    PageDown,
    /// tab
    Tab,
    /// shift + tab
    BackTab,
    /// delete
    Delete,
    /// insert
    Insert,
    /// a function key, by its number
    F(u8),
    /// a character key
    Char(char),
    /// no key
    Null,
    /// escape
    Esc,
    /// caps lock
    CapsLock,
    /// scroll lock
    ScrollLock,
    /// num lock
    NumLock,
    /// print screen
    PrintScreen,
    /// pause
    Pause,
    /// menu
    Menu,
    /// the "begin" key of the keypad
    KeypadBegin,
    /// a media key or a modifier key pressed on its own
    Other,
}

/// The modifier keys held with a key, as a set of bits: shift, control,
/// alt, super, hyper and meta, from the lowest bit up.
#[derive(Clone, Copy, Debug, PartialEq, Eq, Structural)]
pub struct KeyModifiers {
    /// the bits of the modifiers held
    pub bits: u8,
}

impl KeyModifiers {
    /// no modifier
    pub fn none() -> (m: KeyModifiers)
        ensures
            m.bits == 0,
    {
        KeyModifiers { bits: 0 }
    }

    /// shift
    pub fn shift() -> (m: KeyModifiers)
        ensures
            m.bits == 1,
    {
        KeyModifiers { bits: 1 }
    }

    /// control
    pub fn control() -> (m: KeyModifiers)
        ensures
            m.bits == 2,
    {
        KeyModifiers { bits: 2 }
    }

    /// alt
    pub fn alt() -> (m: KeyModifiers)
        ensures
            m.bits == 4,
    {
        KeyModifiers { bits: 4 }
    }

    /// `intersection` holds the modifiers that both sets hold.
    pub fn intersection(self, other: KeyModifiers) -> (m: KeyModifiers)
        ensures
            m.bits == self.bits & other.bits,
    {
        KeyModifiers { bits: self.bits & other.bits }
    }

    /// `union` holds the modifiers that either set holds.
    pub fn union(self, other: KeyModifiers) -> (m: KeyModifiers)
        ensures
            m.bits == self.bits | other.bits,
    {
        KeyModifiers { bits: self.bits | other.bits }
    }
}

/// Whether a key went down, repeats while held, or came up.
#[derive(Clone, Copy, Debug, PartialEq, Eq, Structural)]
pub enum KeyEventKind {
    /// the key was pressed
    Press,
    /// the key repeats while held
    Repeat,
    /// the key was released
    Release,
}

/// A key event: the key, the modifiers held with it, and its kind.
#[derive(Clone, Copy, Debug, PartialEq, Eq, Structural)]
pub struct KeyEvent {
    /// the key
    pub code: KeyCode,
    /// the modifiers held
    pub modifiers: KeyModifiers,
    /// press, repeat or release
    pub kind: KeyEventKind,
}

impl KeyEvent {
    /// `new` is a press of `code` with `modifiers` held.
    pub fn new(code: KeyCode, modifiers: KeyModifiers) -> (e: KeyEvent)
        ensures
            e.code == code,
            e.modifiers == modifiers,
            e.kind == KeyEventKind::Press,
    {
        KeyEvent { code, modifiers, kind: KeyEventKind::Press }
    }
}

} // verus!
