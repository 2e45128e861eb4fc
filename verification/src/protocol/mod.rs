use vstd::prelude::*;

verus! {

/// The `wl_compositor` global.
pub struct CompositorProtocol;

/// The `xdg_wm_base` global.
pub struct XdgShellProtocol;

/// The `wl_seat` global.
pub struct SeatProtocol;

/// The `wl_output` global.
pub struct OutputProtocol;

/// The `wl_shm` global.
pub struct ShmProtocol;

/// The wayland protocols the compositor serves.
pub struct ProtocolState {
    compositor: CompositorProtocol,
    xdg_shell: XdgShellProtocol,
    seat: SeatProtocol,
    output: OutputProtocol,
    shm: ShmProtocol,
    initialized: bool,
}

impl ProtocolState {
    pub closed spec fn is_initialized(&self) -> bool {
        self.initialized
    }

    pub fn new() -> (s: ProtocolState)
        ensures
            !s.is_initialized(),
    {
        ProtocolState {
            compositor: CompositorProtocol,
            xdg_shell: XdgShellProtocol,
            seat: SeatProtocol,
            output: OutputProtocol,
            shm: ShmProtocol,
            initialized: false,
        }
    }

    pub fn initialize(&mut self)
        ensures
            final(self).is_initialized(),
    {
        self.initialized = true;
    }
}

impl Default for ProtocolState {
    fn default() -> (s: ProtocolState)
        ensures
            !s.is_initialized(),
    {
        ProtocolState::new()
    }
}

} // verus!
