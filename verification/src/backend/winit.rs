use vstd::prelude::*;

verus! {

/// The nested (winit) backend's bookkeeping.
pub struct WinitBackend {
    initialized: bool,
}

impl WinitBackend {
    /// Whether `initialize` has run.
    pub closed spec fn is_initialized(&self) -> bool {
        self.initialized
    }

    pub fn new() -> (b: WinitBackend)
        ensures
            !b.is_initialized(),
    {
        WinitBackend { initialized: false }
    }

    pub fn initialize(&mut self)
        ensures
            final(self).is_initialized(),
    {
        self.initialized = true;
    }

    /// The backend's name, which tells whether it was initialized.
    pub fn name(&self) -> (n: &'static str)
        ensures
            n@ == (if self.is_initialized() {
                "winit-stub"@
            } else {
                "winit-stub(uninitialized)"@
            }),
    {
        if self.initialized {
            "winit-stub"
        } else {
            "winit-stub(uninitialized)"
        }
    }
}

} // verus!
