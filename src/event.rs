use vstd::prelude::*;

verus! {

/// Modifier bit for the Shift key.
pub const SHIFT: u8 = 0b0000_0001;

/// Modifier bit for the Control key.
pub const CONTROL: u8 = 0b0000_0010;

/// Modifier bit for the Alt key.
pub const ALT: u8 = 0b0000_0100;

/// The key that was pressed.
#[derive(Clone, Copy, Debug, PartialEq, Eq, Structural)]
pub enum KeyCode {
    Char(char),
    Enter,
    Backspace,
    /// Any key that the editor does not act on.
    Other,
}

/// The set of modifier keys held during a key press, as bits.
#[derive(Clone, Copy, Debug, PartialEq, Eq, Structural)]
pub struct KeyModifiers {
    pub bits: u8,
}

impl KeyModifiers {
    pub fn none() -> (r: KeyModifiers)
        ensures
            r.bits == 0,
    {
        KeyModifiers { bits: 0 }
    }

    pub fn control() -> (r: KeyModifiers)
        ensures
            r.bits == CONTROL,
    {
        KeyModifiers { bits: CONTROL }
    }
}

/// A decoded key press.
#[derive(Clone, Copy, Debug, PartialEq, Eq, Structural)]
pub struct KeyEvent {
    pub code: KeyCode,
    pub modifiers: KeyModifiers,
}

impl KeyEvent {
    /// A key press with no modifier held.
    pub fn plain(code: KeyCode) -> (r: KeyEvent)
        ensures
            r.code == code,
            r.modifiers.bits == 0,
    {
        KeyEvent { code, modifiers: KeyModifiers::none() }
    }

    /// A key press with Control, and nothing else, held.
    pub fn with_control(code: KeyCode) -> (r: KeyEvent)
        ensures
            r.code == code,
            r.modifiers.bits == CONTROL,
    {
        KeyEvent { code, modifiers: KeyModifiers::control() }
    }
}

/// What the input source hands to the loop.
#[derive(Clone, Copy, Debug, PartialEq, Eq, Structural)]
pub enum Event {
    Input(KeyEvent),
    /// A periodic wake-up with no effect on the state.
    Tick,
}

/// What the loop does after an event.
#[derive(Clone, Copy, Debug, PartialEq, Eq, Structural)]
pub enum Action {
    Continue,
    Exit,
}

/// Control-C or Control-D, with no other modifier held.
pub open spec fn is_exit_key(k: KeyEvent) -> bool {
    &&& k.modifiers.bits == CONTROL
    &&& (k.code == KeyCode::Char('c') || k.code == KeyCode::Char('d'))
}

/// Whether the key press ends the session.
pub fn is_exit(k: &KeyEvent) -> (r: bool)
    ensures
        r == is_exit_key(*k),
{
    if k.modifiers.bits == CONTROL {
        match k.code {
            KeyCode::Char(c) => c == 'c' || c == 'd',
            _ => false,
        }
    } else {
        false
    }
}

} // verus!
