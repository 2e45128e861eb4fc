pub mod smithay;
pub mod tty;
pub mod winit;

pub use self::smithay::SmithayBackend;
pub use self::tty::TtyBackend;
pub use self::winit::WinitBackend;

use vstd::prelude::*;

use crate::utils::Error;

verus! {

/// The message with which `run_tty` fails in a build without the tty backend.
pub open spec fn tty_disabled_message() -> Seq<char> {
    "tty backend is disabled in this build; rebuild with `--features tty-backend`"@
}

/// The display backend: the smithay bootstrap and the nested winit backend.
pub struct Backend {
    smithay: SmithayBackend,
    winit: WinitBackend,
    initialized: bool,
}

impl Backend {
    pub closed spec fn is_initialized(&self) -> bool {
        self.initialized
    }

    /// The smithay part.
    pub closed spec fn smithay_part(&self) -> SmithayBackend {
        self.smithay
    }

    /// The winit part.
    pub closed spec fn winit_part(&self) -> WinitBackend {
        self.winit
    }

    pub fn new() -> (b: Backend)
        ensures
            !b.is_initialized(),
            !b.smithay_part().is_initialized(),
            !b.smithay_part().has_display(),
            !b.smithay_part().has_event_loop(),
            !b.winit_part().is_initialized(),
    {
        Backend { smithay: SmithayBackend::new(), winit: WinitBackend::new(), initialized: false }
    }

    /// Initializes both parts and the backend itself.
    pub fn initialize(&mut self)
        ensures
            final(self).is_initialized(),
            final(self).smithay_part().is_initialized(),
            final(self).smithay_part().has_display(),
            final(self).smithay_part().has_event_loop(),
            final(self).winit_part().is_initialized(),
    {
        self.smithay.initialize();
        self.winit.initialize();
        self.initialized = true;
    }

    /// The smithay part's name once initialized, "uninitialized" before.
    pub fn name(&self) -> (n: &'static str)
        ensures
            n@ == (if self.is_initialized() {
                if self.smithay_part().is_initialized() {
                    "smithay-bootstrap"@
                } else {
                    "smithay-bootstrap(uninitialized)"@
                }
            } else {
                "uninitialized"@
            }),
    {
        if self.initialized {
            self.smithay.name()
        } else {
            "uninitialized"
        }
    }

    /// The smithay part's readiness.
    pub fn smithay_summary(&self) -> (s: &'static str)
        ensures
            s@ == (if self.smithay_part().is_initialized() && self.smithay_part().has_display()
                && self.smithay_part().has_event_loop() {
                "display+event-loop ready"@
            } else {
                "not ready"@
            }),
    {
        self.smithay.summary()
    }

    /// Runs the tty backend; this build has none, so it always fails and says how to get one.
    pub fn run_tty(&mut self) -> (r: Result<(), Error>)
        ensures
            r matches Err(e) && e.spec_message() == tty_disabled_message(),
            *final(self) == *old(self),
    {
        Err(Error::new("tty backend is disabled in this build; rebuild with `--features tty-backend`"))
    }
}

impl Default for Backend {
    fn default() -> (b: Backend)
        ensures
            !b.is_initialized(),
            !b.smithay_part().is_initialized(),
            !b.winit_part().is_initialized(),
    {
        Backend::new()
    }
}

} // verus!
