//! Messages: what a screen is told about, one occurrence at a time.

use crossterm::event::{KeyCode, KeyEventState, KeyModifiers, MouseEvent};
use vstd::prelude::*;

verus! {

/// Keyboard state reported together with a key press.
pub type KeyState = KeyEventState;

/// A mouse occurrence, passed on as the terminal reported it.
pub type MouseMsg = MouseEvent;

/// A key press.
#[derive(Debug, PartialEq, Eq)]
pub struct KeyMsg {
    pub code: KeyCode,
    pub modifiers: KeyModifiers,
    pub state: KeyState,
}

/// One input, timing or lifecycle occurrence, delivered to a screen's update
/// step.
#[derive(Debug, PartialEq, Eq)]
pub enum Message {
    Key(KeyMsg),
    Mouse(MouseMsg),
    Resize(u16, u16),
    FocusGained,
    FocusLost,
    Paste(String),
    /// The runtime is shutting down.
    Shutdown,
    /// A loop iteration passed without input.
    Tick,
}

/// How a key occurrence came about.
#[derive(Debug, Clone, Copy, PartialEq, Eq, Structural)]
pub enum KeyKind {
    Press,
    Repeat,
    Release,
}

/// A raw input occurrence as the terminal's event source reports it, before
/// the listener has decided whether to pass it on.
#[derive(Debug, PartialEq, Eq)]
pub enum InputEvent {
    FocusGained,
    FocusLost,
    Key { code: KeyCode, modifiers: KeyModifiers, kind: KeyKind, state: KeyState },
    Mouse(MouseEvent),
    Paste(String),
    Resize(u16, u16),
}

impl InputEvent {
    /// The message that stands for this occurrence. A key occurrence keeps its
    /// code, modifiers and state; every other occurrence keeps all it holds.
    pub open spec fn message(self) -> Message {
        match self {
            InputEvent::FocusGained => Message::FocusGained,
            InputEvent::FocusLost => Message::FocusLost,
            InputEvent::Key { code, modifiers, kind, state } => Message::Key(
                KeyMsg { code, modifiers, state },
            ),
            InputEvent::Mouse(mouse) => Message::Mouse(mouse),
            InputEvent::Paste(text) => Message::Paste(text),
            InputEvent::Resize(width, height) => Message::Resize(width, height),
        }
    }

    /// Whether the listener passes this occurrence on: a key occurrence only
    /// when it is a press, every other occurrence always.
    pub open spec fn forwarded(self) -> bool {
        self matches InputEvent::Key { kind, .. } ==> kind == KeyKind::Press
    }

    /// Decides whether the listener passes this occurrence on to the runtime.
    pub fn is_forwarded(&self) -> (forwarded: bool)
        ensures
            forwarded == self.forwarded(),
    {
        match self {
            InputEvent::Key { kind, .. } => match kind {
                KeyKind::Press => true,
                KeyKind::Repeat => false,
                KeyKind::Release => false,
            },
            _ => true,
        }
    }
}

impl From<InputEvent> for Message {
    fn from(value: InputEvent) -> (message: Message) {
        match value {
            InputEvent::FocusGained => Message::FocusGained,
            InputEvent::FocusLost => Message::FocusLost,
            InputEvent::Key { code, modifiers, kind, state } => Message::Key(
                KeyMsg { code, modifiers, state },
            ),
            InputEvent::Mouse(mouse) => Message::Mouse(mouse),
            InputEvent::Paste(text) => Message::Paste(text),
            InputEvent::Resize(width, height) => Message::Resize(width, height),
        }
    }
}

impl vstd::std_specs::convert::FromSpecImpl<InputEvent> for Message {
    open spec fn obeys_from_spec() -> bool {
        true
    }

    open spec fn from_spec(value: InputEvent) -> Message {
        value.message()
    }
}

impl Message {
    /// The message of one loop iteration: the pending input if the listener
    /// had one, a tick if it had none.
    pub open spec fn of_read(read: Option<InputEvent>) -> Message {
        match read {
            Some(event) => event.message(),
            None => Message::Tick,
        }
    }

    /// Turns what one poll of the listener gave into the message of this
    /// iteration.
    pub fn next(read: Option<InputEvent>) -> (message: Message)
        ensures
            message == Message::of_read(read),
    {
        match read {
            Some(event) => Message::from(event),
            None => Message::Tick,
        }
    }
}

} // verus!
