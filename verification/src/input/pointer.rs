use vstd::prelude::*;

verus! {

/// The pointer's bookkeeping.
#[derive(Debug)]
pub struct PointerState {
    initialized: bool,
}

impl PointerState {
    pub closed spec fn is_initialized(&self) -> bool {
        self.initialized
    }

    pub fn new() -> (k: PointerState)
        ensures
            !k.is_initialized(),
    {
        PointerState { initialized: false }
    }

    pub fn initialize(&mut self)
        ensures
            final(self).is_initialized(),
    {
        self.initialized = true;
    }
}

impl Default for PointerState {
    fn default() -> (k: PointerState)
        ensures
            !k.is_initialized(),
    {
        PointerState::new()
    }
}

} // verus!
