//! From keys to the actions of the session.

use self::event_loop::Event;
use vstd::prelude::*;

pub mod event_loop;

verus! {

/// What the operator can ask of the session.
#[derive(Clone, Copy, Debug, PartialEq, Eq)]
pub enum InputAction {
    Quit,
    NextPod,
    PreviousPod,
    FetchLogs,
    LogsUp,
    LogsDown,
    LogsEnd,
}

/// A key of the keyboard, as the terminal reports it.
#[derive(Clone, Copy, Debug, PartialEq, Eq)]
pub enum Key {
    Backspace,
    Enter,
    Left,
    Right,
    Up,
    Down,
    Home,
    End,
    PageUp,
    PageDown,
    Tab,
    BackTab,
    Delete,
    Insert,
    /// A function key, by its number.
    F(u8),
    /// A key that writes a character.
    Char(char),
    Null,
    Esc,
    /// Any key that has no name here.
    Other,
}

/// The action bound to `key`, if one is.
pub open spec fn action_of(key: Key) -> Option<InputAction> {
    match key {
        Key::Char(c) => if c == 'q' {
            Some(InputAction::Quit)
        } else {
            None
        },
        Key::F(n) => if n == 12 {
            Some(InputAction::Quit)
        } else {
            None
        },
        Key::Down => Some(InputAction::NextPod),
        Key::Up => Some(InputAction::PreviousPod),
        Key::Enter => Some(InputAction::FetchLogs),
        Key::PageUp => Some(InputAction::LogsUp),
        Key::PageDown => Some(InputAction::LogsDown),
        Key::End => Some(InputAction::LogsEnd),
        _ => None,
    }
}

/// The action that `input` asks for. A tick asks for none, nor does a key
/// that no action is bound to.
pub open spec fn action_of_event(input: Event<Key>) -> Option<InputAction> {
    match input {
        Event::Input(key) => action_of(key),
        Event::Tick => None,
    }
}

/// Maps an event of the input source to the action that it asks for.
pub fn map_input(input: Event<Key>) -> (action: Option<InputAction>)
    ensures
        action == action_of_event(input),
{
    match input {
        Event::Input(key) => match key {
            Key::Char('q') | Key::F(12) => Some(InputAction::Quit),
            Key::Down => Some(InputAction::NextPod),
            Key::Up => Some(InputAction::PreviousPod),
            Key::Enter => Some(InputAction::FetchLogs),
            Key::PageUp => Some(InputAction::LogsUp),
            Key::PageDown => Some(InputAction::LogsDown),
            Key::End => Some(InputAction::LogsEnd),
            _ => None,
        },
        Event::Tick => None,
    }
}

} // verus!
