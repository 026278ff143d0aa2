//! Key events as the stopwatch sees them, and the total mapping from an event
//! to the transition it triggers: Escape requests exit, Space toggles running,
//! `r` resets, and everything else — any modifier, any non-press, any other
//! key — is ignored.

use vstd::prelude::*;

verus! {

/// The part of a key code the stopwatch distinguishes.
#[derive(Clone, Copy, Debug, PartialEq, Eq, Structural)]
pub enum KeyCode {
    /// The Escape key.
    Esc,
    /// A printable character key.
    Char(char),
    /// Any other key (arrows, function keys, ...).
    Other,
}

/// One key event as reported by the terminal: which key, whether the modifier
/// set was empty, and whether this was a press (as opposed to a release or a
/// repeat, which must not trigger duplicate transitions).
#[derive(Clone, Copy, Debug, PartialEq, Eq, Structural)]
pub struct KeyEvent {
    pub code: KeyCode,
    pub no_modifiers: bool,
    pub is_press: bool,
}

/// The transition a key event asks for, `Ignore` for all unmapped events.
#[derive(Clone, Copy, Debug, PartialEq, Eq, Structural)]
pub enum Action {
    /// Request that the interaction loop exit.
    Exit,
    /// Flip the running flag.
    Toggle,
    /// Set the elapsed time back to zero.
    Reset,
    /// Do nothing.
    Ignore,
}

/// The total mapping from key events to transitions: only an unmodified
/// key press of Escape, Space or `r` is actionable.
pub open spec fn action_of(ev: KeyEvent) -> Action {
    if ev.is_press && ev.no_modifiers {
        match ev.code {
            KeyCode::Esc => Action::Exit,
            KeyCode::Char(c) => if c == ' ' {
                Action::Toggle
            } else if c == 'r' {
                Action::Reset
            } else {
                Action::Ignore
            },
            KeyCode::Other => Action::Ignore,
        }
    } else {
        Action::Ignore
    }
}

/// Classify one key event, exactly as `action_of` says.
pub fn classify(ev: &KeyEvent) -> (a: Action)
    ensures
        a == action_of(*ev),
{
    if ev.is_press && ev.no_modifiers {
        match ev.code {
            KeyCode::Esc => Action::Exit,
            KeyCode::Char(c) => if c == ' ' {
                Action::Toggle
            } else if c == 'r' {
                Action::Reset
            } else {
                Action::Ignore
            },
            KeyCode::Other => Action::Ignore,
        }
    } else {
        Action::Ignore
    }
}

} // verus!
