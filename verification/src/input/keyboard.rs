use vstd::prelude::*;

verus! {

/// The keyboard's bookkeeping.
#[derive(Debug)]
pub struct KeyboardState {
    initialized: bool,
}

impl KeyboardState {
    pub closed spec fn is_initialized(&self) -> bool {
        self.initialized
    }

    pub fn new() -> (k: KeyboardState)
        ensures
            !k.is_initialized(),
    {
        KeyboardState { initialized: false }
    }

    pub fn initialize(&mut self)
        ensures
            final(self).is_initialized(),
    {
        self.initialized = true;
    }
}

impl Default for KeyboardState {
    fn default() -> (k: KeyboardState)
        ensures
            !k.is_initialized(),
    {
        KeyboardState::new()
    }
}

} // verus!
