//! Input events delivered by the display backend.

use vstd::prelude::*;

verus! {

/// Event structure for input handling.
#[derive(Debug, Clone, PartialEq, Eq, Structural)]
pub struct InputEvent {
    pub event_type: InputEventType,
}

/// What happened: the window was asked to close, or a key went down or up.
#[derive(Debug, Clone, Copy, PartialEq, Eq, Structural)]
pub enum InputEventType {
    Quit,
    KeyPress(u32),
    KeyRelease(u32),
}

impl InputEvent {
    pub fn new(event_type: InputEventType) -> (e: Self)
        ensures
            e.event_type == event_type,
    {
        InputEvent { event_type }
    }

    /// Whether the event asks the application to quit.
    pub fn is_quit(&self) -> (r: bool)
        ensures
            r == (self.event_type == InputEventType::Quit),
    {
        match self.event_type {
            InputEventType::Quit => true,
            _ => false,
        }
    }
}

} // verus!
