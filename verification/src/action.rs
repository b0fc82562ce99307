//! What the user asks for, and the keys that ask for it.
use vstd::prelude::*;

verus! {

/// Something the user asks the application to do.
#[derive(Debug, Clone, Copy, PartialEq, Eq, Structural)]
pub enum Action {
    MoveDown,
    MoveUp,
    GoTop,
    GoBottom,
    FocusSidebar,
    FocusMain,
    Select,
    PlayPause,
    Next,
    Prev,
    SeekForward,
    SeekBackward,
    VolumeUp,
    VolumeDown,
    Refresh,
    Quit,
    /// One digit of a count typed before a motion.
    Digit(u8),
}

/// A key press, as far as the key map reads it.
#[derive(Debug, Clone, Copy, PartialEq, Eq, Structural)]
pub enum Key {
    Char(char),
    Up,
    Down,
    Enter,
    /// Any other key.
    Other,
}

/// The action that a key is bound to.
pub open spec fn spec_key_action(key: Key) -> Option<Action> {
    match key {
        Key::Char('j') | Key::Down => Some(Action::MoveDown),
        Key::Char('k') | Key::Up => Some(Action::MoveUp),
        Key::Char('g') => Some(Action::GoTop),
        Key::Char('G') => Some(Action::GoBottom),
        Key::Char('h') => Some(Action::FocusSidebar),
        Key::Char('l') => Some(Action::FocusMain),
        Key::Enter => Some(Action::Select),
        Key::Char(' ') => Some(Action::PlayPause),
        Key::Char('n') => Some(Action::Next),
        Key::Char('N') => Some(Action::Prev),
        Key::Char('>') => Some(Action::SeekForward),
        Key::Char('<') => Some(Action::SeekBackward),
        Key::Char('+') => Some(Action::VolumeUp),
        Key::Char('-') => Some(Action::VolumeDown),
        Key::Char('R') => Some(Action::Refresh),
        Key::Char('q') => Some(Action::Quit),
        _ => None,
    }
}

/// Looks up the action that `key` is bound to; unbound keys give `None`.
pub fn key_to_action(key: Key) -> (action: Option<Action>)
    ensures
        action == spec_key_action(key),
{
    match key {
        Key::Char('j') | Key::Down => Some(Action::MoveDown),
        Key::Char('k') | Key::Up => Some(Action::MoveUp),
        Key::Char('g') => Some(Action::GoTop),
        Key::Char('G') => Some(Action::GoBottom),
        Key::Char('h') => Some(Action::FocusSidebar),
        Key::Char('l') => Some(Action::FocusMain),
        Key::Enter => Some(Action::Select),
        Key::Char(' ') => Some(Action::PlayPause),
        Key::Char('n') => Some(Action::Next),
        Key::Char('N') => Some(Action::Prev),
        Key::Char('>') => Some(Action::SeekForward),
        Key::Char('<') => Some(Action::SeekBackward),
        Key::Char('+') => Some(Action::VolumeUp),
        Key::Char('-') => Some(Action::VolumeDown),
        Key::Char('R') => Some(Action::Refresh),
        Key::Char('q') => Some(Action::Quit),
        _ => None,
    }
}

} // verus!
