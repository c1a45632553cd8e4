//! Keys as the terminal reports them, and the editing actions they stand for.
use vstd::prelude::*;

verus! {

/// An editing action taken from one input event.
#[derive(Clone, Copy, Debug, PartialEq, Eq, Structural)]
pub enum Action {
    Commit,
    Abort,
    CursorLeft,
    CursorRight,
    DeleteBack,
    Insert(char),
}

/// The keys that the editor tells apart.
#[derive(Clone, Copy, Debug, PartialEq, Eq, Structural)]
pub enum Key {
    Esc,
    Enter,
    Left,
    Right,
    Backspace,
    Char(char),
    Other,
}

/// The action of a key event: only presses count, and keys without an
/// action give none.
pub open spec fn action_of(key: Key, pressed: bool) -> Option<Action> {
    if !pressed {
        None
    } else {
        match key {
            Key::Esc => Some(Action::Abort),
            Key::Enter => Some(Action::Commit),
            Key::Left => Some(Action::CursorLeft),
            Key::Right => Some(Action::CursorRight),
            Key::Backspace => Some(Action::DeleteBack),
            Key::Char(c) => Some(Action::Insert(c)),
            Key::Other => None,
        }
    }
}

/// Maps a key event to its action.
pub fn action_for(key: Key, pressed: bool) -> (r: Option<Action>)
    ensures
        r == action_of(key, pressed),
{
    if !pressed {
        return None;
    }
    match key {
        Key::Esc => Some(Action::Abort),
        Key::Enter => Some(Action::Commit),
        Key::Left => Some(Action::CursorLeft),
        Key::Right => Some(Action::CursorRight),
        Key::Backspace => Some(Action::DeleteBack),
        Key::Char(c) => Some(Action::Insert(c)),
        Key::Other => None,
    }
}

} // verus!
