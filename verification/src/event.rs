use vstd::prelude::*;

verus! {

/// Whether a key went down or came up.
#[derive(Clone, Copy, Debug, PartialEq, Eq, Structural)]
pub enum KeyState {
    Pressed,
    Released,
}

/// The keys the render loop tells apart.
#[derive(Clone, Copy, Debug, PartialEq, Eq, Structural)]
pub enum KeyCode {
    Escape,
    Other,
}

/// One entry of the window's event queue.
#[derive(Clone, Copy, Debug, PartialEq, Eq)]
pub enum Event {
    /// The window was asked to close.
    Closed,
    /// The window now measures `width` by `height` pixels.
    Resized(u32, u32),
    /// A key changed state; the code is absent for keys the platform cannot name.
    KeyboardInput(KeyState, Option<KeyCode>),
    /// Anything else; the loop ignores it.
    Other,
}

impl Event {
    /// A press of the escape key.
    pub open spec fn is_escape_press(&self) -> bool {
        *self == Event::KeyboardInput(KeyState::Pressed, Some(KeyCode::Escape))
    }

    /// The events that end the loop: a close request or a press of escape.
    pub open spec fn spec_quits(&self) -> bool {
        self is Closed || self.is_escape_press()
    }

    /// Whether this event ends the loop.
    #[verifier::when_used_as_spec(spec_quits)]
    pub fn quits(&self) -> (quit: bool)
        ensures
            quit == self.quits(),
    {
        match self {
            Event::Closed => true,
            Event::KeyboardInput(KeyState::Pressed, Some(KeyCode::Escape)) => true,
            _ => false,
        }
    }
}

} // verus!
