//! The key-event model: the logical identity of a pressed key, and the
//! classification the routing rules are written over.

use vstd::prelude::*;

verus! {

/// Logical identity of a key, stripped of everything the routing rules do not
/// read: a printable character, one of the named keys the dialog reacts to, or
/// `Other` for any further key.
#[derive(Clone, Copy, Debug, PartialEq, Eq, Structural)]
pub enum KeyCode {
    Char(char),
    Enter,
    Esc,
    Backspace,
    Left,
    Right,
    Up,
    Down,
    Other,
}

/// One key-press event: the key's identity and whether the control modifier
/// was held. Only press events reach the library; the shell discards release
/// and repeat classifications before routing.
#[derive(Clone, Copy, Debug, PartialEq, Eq, Structural)]
pub struct KeyEvent {
    pub code: KeyCode,
    pub ctrl: bool,
}

/// A navigation key moves the selection between the two authentication modes,
/// or between the modal's elements while nothing is focused.
pub open spec fn is_navigation_key(k: KeyEvent) -> bool {
    ||| k.code is Up
    ||| k.code is Down
    ||| k.code == KeyCode::Char('j')
    ||| k.code == KeyCode::Char('k')
}

/// The activate key confirms: it opens the modal, focuses the hovered input,
/// or presses the hovered submit button.
pub open spec fn is_activate_key(k: KeyEvent) -> bool {
    k.code is Enter
}

/// The escape key steps one level out: it unfocuses a focused element, or
/// closes the modal from a hovered element.
pub open spec fn is_escape_key(k: KeyEvent) -> bool {
    k.code is Esc
}

/// A quit key, as the shell interprets a bubbled event: escape, the letter
/// `q`, or control-c.
pub open spec fn is_quit_key(k: KeyEvent) -> bool {
    ||| k.code is Esc
    ||| k.code == KeyCode::Char('q')
    ||| k.ctrl && k.code == KeyCode::Char('c')
}

impl KeyEvent {
    pub fn is_navigation(self) -> (b: bool)
        ensures
            b == is_navigation_key(self),
    {
        match self.code {
            KeyCode::Up | KeyCode::Down => true,
            KeyCode::Char(c) => c == 'j' || c == 'k',
            _ => false,
        }
    }

    pub fn is_activate(self) -> (b: bool)
        ensures
            b == is_activate_key(self),
    {
        matches!(self.code, KeyCode::Enter)
    }

    pub fn is_escape(self) -> (b: bool)
        ensures
            b == is_escape_key(self),
    {
        matches!(self.code, KeyCode::Esc)
    }

    pub fn is_quit(self) -> (b: bool)
        ensures
            b == is_quit_key(self),
    {
        match self.code {
            KeyCode::Esc => true,
            KeyCode::Char(c) => c == 'q' || (self.ctrl && c == 'c'),
            _ => false,
        }
    }
}

} // verus!
