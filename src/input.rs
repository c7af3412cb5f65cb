use vstd::prelude::*;

verus! {

/// Whether a key went down or came up.
#[derive(Clone, Copy, PartialEq, Eq, Structural, Debug)]
pub enum KeyState {
    Pressed,
    Released,
}

/// A key that changed state. `key` is the code of the virtual key.
#[derive(Clone, Copy, PartialEq, Eq, Structural, Debug)]
pub struct KeyEvent {
    pub state: KeyState,
    pub key: u32,
}

/// Input handed to the application.
#[derive(Clone, Copy, PartialEq, Eq, Structural, Debug)]
pub enum InputEvent {
    Key(KeyEvent),
}

impl InputEvent {
    /// The event says that `key` went down.
    pub fn is_key_pressed(self, key: u32) -> (r: bool)
        ensures
            r == (self == InputEvent::Key(KeyEvent { state: KeyState::Pressed, key })),
    {
        self.is_key_state(KeyState::Pressed, key)
    }

    /// The event says that `key` came up.
    pub fn is_key_released(self, key: u32) -> (r: bool)
        ensures
            r == (self == InputEvent::Key(KeyEvent { state: KeyState::Released, key })),
    {
        self.is_key_state(KeyState::Released, key)
    }

    fn is_key_state(self, state: KeyState, key: u32) -> (r: bool)
        ensures
            r == (self == InputEvent::Key(KeyEvent { state, key })),
    {
        match self {
            InputEvent::Key(e) => e.state == state && e.key == key,
        }
    }
}

} // verus!
