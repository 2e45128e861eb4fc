pub mod bindings;
pub mod keyboard;
pub mod pointer;

pub use bindings::Bindings;
pub use keyboard::KeyboardState;
pub use pointer::PointerState;

use vstd::prelude::*;

verus! {

/// The input devices and bindings.
pub struct InputState {
    keyboard: KeyboardState,
    pointer: PointerState,
    bindings: Bindings,
    initialized: bool,
}

impl InputState {
    pub closed spec fn is_initialized(&self) -> bool {
        self.initialized
    }

    pub closed spec fn keyboard_part(&self) -> KeyboardState {
        self.keyboard
    }

    pub closed spec fn pointer_part(&self) -> PointerState {
        self.pointer
    }

    pub fn new() -> (s: InputState)
        ensures
            !s.is_initialized(),
            !s.keyboard_part().is_initialized(),
            !s.pointer_part().is_initialized(),
    {
        InputState {
            keyboard: KeyboardState::new(),
            pointer: PointerState::new(),
            bindings: Bindings::default(),
            initialized: false,
        }
    }

    /// Initializes the keyboard and the pointer, then the input state itself.
    pub fn initialize(&mut self)
        ensures
            final(self).is_initialized(),
            final(self).keyboard_part().is_initialized(),
            final(self).pointer_part().is_initialized(),
    {
        self.keyboard.initialize();
        self.pointer.initialize();
        self.initialized = true;
    }
}

impl Default for InputState {
    fn default() -> (s: InputState)
        ensures
            !s.is_initialized(),
    {
        InputState::new()
    }
}

} // verus!
