use vstd::prelude::*;

use crate::backend::Backend;
use crate::input::InputState;
use crate::protocol::ProtocolState;
use crate::render::Renderer;
use crate::x11::X11State;

verus! {

/// What a boot reports: the names the backend and the renderer give themselves.
pub struct BootSummary {
    pub backend_name: &'static str,
    pub renderer_name: &'static str,
}

/// Initializes every subsystem, the backend first, and reports the names
/// the backend and the renderer then give.
pub fn boot(
    backend: &mut Backend,
    renderer: &mut Renderer,
    protocols: &mut ProtocolState,
    input: &mut InputState,
    x11: &mut X11State,
) -> (summary: BootSummary)
    ensures
        final(backend).is_initialized(),
        final(backend).smithay_part().is_initialized(),
        final(backend).smithay_part().has_display(),
        final(backend).smithay_part().has_event_loop(),
        final(backend).winit_part().is_initialized(),
        final(renderer).is_initialized(),
        final(protocols).is_initialized(),
        final(input).is_initialized(),
        final(input).keyboard_part().is_initialized(),
        final(input).pointer_part().is_initialized(),
        final(x11).is_initialized(),
        summary.backend_name@ == "smithay-bootstrap"@,
        summary.renderer_name@ == "renderer-stub"@,
{
    backend.initialize();
    renderer.initialize();
    protocols.initialize();
    input.initialize();
    x11.initialize();

    BootSummary { backend_name: backend.name(), renderer_name: renderer.name() }
}

} // verus!
