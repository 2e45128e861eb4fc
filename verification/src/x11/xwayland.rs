use vstd::prelude::*;

verus! {

/// The Xwayland integration's bookkeeping.
#[derive(Debug)]
pub struct X11State {
    initialized: bool,
}

impl X11State {
    pub closed spec fn is_initialized(&self) -> bool {
        self.initialized
    }

    pub fn new() -> (s: X11State)
        ensures
            !s.is_initialized(),
    {
        X11State { initialized: false }
    }

    pub fn initialize(&mut self)
        ensures
            final(self).is_initialized(),
    {
        self.initialized = true;
    }
}

impl Default for X11State {
    fn default() -> (s: X11State)
        ensures
            !s.is_initialized(),
    {
        X11State::new()
    }
}

} // verus!
