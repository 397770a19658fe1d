//! The input boundary: a key press as the page components see it, reduced
//! to the codes and the one modifier the application reacts to.

use vstd::prelude::*;

verus! {

/// The key codes the pages distinguish; every other key is `Other`.
#[derive(Debug, Clone, Copy, PartialEq, Eq, Structural)]
pub enum KeyCode {
    Char(char),
    Enter,
    Esc,
    Backspace,
    Left,
    Right,
    Other,
}

/// One key press: its code and whether Control was held.
#[derive(Debug, Clone, Copy, PartialEq, Eq, Structural)]
pub struct KeyEvent {
    pub code: KeyCode,
    pub ctrl: bool,
}

impl KeyEvent {
    /// A plain press of `c`, without modifiers.
    pub fn plain(c: char) -> (r: KeyEvent)
        ensures
            r == (KeyEvent { code: KeyCode::Char(c), ctrl: false }),
    {
        KeyEvent { code: KeyCode::Char(c), ctrl: false }
    }

    /// A press of `c` with Control held.
    pub fn ctrl(c: char) -> (r: KeyEvent)
        ensures
            r == (KeyEvent { code: KeyCode::Char(c), ctrl: true }),
    {
        KeyEvent { code: KeyCode::Char(c), ctrl: true }
    }
}

} // verus!
