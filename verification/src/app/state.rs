use vstd::prelude::*;

use crate::app::startup::{boot, BootSummary};
use crate::backend::Backend;
use crate::desktop::geometry::{rect_of, Point, Rect};
use crate::desktop::window::{ResizeEdge, Window, WindowId, WindowKind};
use crate::desktop::workspace::Workspace;
use crate::input::InputState;
use crate::protocol::ProtocolState;
use crate::render::Renderer;
use crate::utils::Error;
use crate::wm::grabs::GrabState;
use crate::wm::manager::WindowManager;
use crate::x11::X11State;

verus! {

/// The whole compositor: its subsystems and the window manager.
pub struct Application {
    backend: Backend,
    renderer: Renderer,
    protocols: ProtocolState,
    input: InputState,
    wm: WindowManager,
    x11: X11State,
}

impl Application {
    /// The window manager.
    pub closed spec fn spec_wm(&self) -> WindowManager {
        self.wm
    }

    /// The backend.
    pub closed spec fn spec_backend(&self) -> Backend {
        self.backend
    }

    /// The renderer.
    pub closed spec fn spec_renderer(&self) -> Renderer {
        self.renderer
    }

    /// The protocols.
    pub closed spec fn spec_protocols(&self) -> ProtocolState {
        self.protocols
    }

    /// The input state.
    pub closed spec fn spec_input(&self) -> InputState {
        self.input
    }

    /// The Xwayland state.
    pub closed spec fn spec_x11(&self) -> X11State {
        self.x11
    }

    /// A fresh application: nothing initialized, no windows, one workspace named "1".
    pub fn new() -> (app: Application)
        ensures
            app.spec_wm().wf(),
            app.spec_wm().spec_next_id() == 1,
            app.spec_wm().spec_windows() == Map::<u64, Window>::empty(),
            app.spec_wm().spec_order() == Seq::<WindowId>::empty(),
            app.spec_wm().spec_focused() == None::<WindowId>,
            app.spec_wm().spec_grab() == None::<GrabState>,
            app.spec_wm().spec_workspaces().len() == 1,
            app.spec_wm().spec_workspaces()[0].name@ == "1"@,
            !app.spec_backend().is_initialized(),
            !app.spec_renderer().is_initialized(),
            !app.spec_protocols().is_initialized(),
            !app.spec_input().is_initialized(),
            !app.spec_x11().is_initialized(),
    {
        Application {
            backend: Backend::new(),
            renderer: Renderer::new(),
            protocols: ProtocolState::new(),
            input: InputState::new(),
            wm: WindowManager::new(vec![Workspace::new("1")]),
            x11: X11State::new(),
        }
    }

    /// The window manager.
    pub fn wm(&self) -> (wm: &WindowManager)
        ensures
            *wm == self.spec_wm(),
    {
        &self.wm
    }

    /// Boots every subsystem and reports the backend's and the renderer's names;
    /// the windows are left as they were.
    pub fn run(&mut self) -> (summary: BootSummary)
        ensures
            final(self).spec_backend().is_initialized(),
            final(self).spec_renderer().is_initialized(),
            final(self).spec_protocols().is_initialized(),
            final(self).spec_input().is_initialized(),
            final(self).spec_x11().is_initialized(),
            final(self).spec_wm() == old(self).spec_wm(),
            summary.backend_name@ == "smithay-bootstrap"@,
            summary.renderer_name@ == "renderer-stub"@,
    {
        boot(&mut self.backend, &mut self.renderer, &mut self.protocols, &mut self.input, &mut self.x11)
    }

    /// Runs the tty backend; this build has none, so it fails.
    pub fn run_tty(&mut self) -> (r: Result<(), Error>)
        ensures
            r matches Err(e) && e.spec_message() == crate::backend::tty_disabled_message(),
            *final(self) == *old(self),
    {
        self.backend.run_tty()
    }

    /// Exercises the window manager: opens a terminal and a browser, focuses
    /// the terminal, raises the browser, drags the browser by (120, 70) and
    /// then resizes it from its bottom-right corner by (150, 110). Returns the
    /// terminal's and the browser's identifiers.
    pub fn demo(&mut self) -> (ids: (WindowId, WindowId))
        requires
            old(self).spec_wm().spec_next_id() + 1 < u64::MAX,
        ensures
            final(self).spec_wm().wf(),
            final(self).spec_wm().spec_next_id() == old(self).spec_wm().spec_next_id() + 2,
            final(self).spec_wm().spec_windows().dom() == old(self).spec_wm().spec_windows().dom().insert(
                ids.0.0,
            ).insert(ids.1.0),
            forall|k: u64| #[trigger]
                old(self).spec_wm().spec_windows().contains_key(k) ==> final(self).spec_wm().spec_windows()[k]
                    == old(self).spec_wm().spec_windows()[k],
            final(self).spec_wm().spec_windows()[ids.0.0].mapped,
            !final(self).spec_wm().spec_windows()[ids.0.0].fullscreen,
            final(self).spec_wm().spec_windows()[ids.1.0].mapped,
            !final(self).spec_wm().spec_windows()[ids.1.0].fullscreen,
            ids.0 == WindowId(old(self).spec_wm().spec_next_id()),
            ids.1 == WindowId((old(self).spec_wm().spec_next_id() + 1) as u64),
            final(self).spec_wm().spec_windows()[ids.0.0].rect == rect_of(40, 40, 960, 540),
            final(self).spec_wm().spec_windows()[ids.0.0].kind == WindowKind::Wayland,
            final(self).spec_wm().spec_windows()[ids.0.0].title@ == "Terminal"@,
            final(self).spec_wm().spec_windows()[ids.1.0].rect == rect_of(240, 160, 1350, 910),
            final(self).spec_wm().spec_windows()[ids.1.0].kind == WindowKind::X11,
            final(self).spec_wm().spec_windows()[ids.1.0].title@ == "Browser"@,
            final(self).spec_wm().spec_order() == old(self).spec_wm().spec_order().push(ids.0).push(
                ids.1,
            ),
            final(self).spec_wm().spec_focused() == Some(ids.0),
            final(self).spec_wm().spec_grab() == None::<GrabState>,
            final(self).spec_wm().spec_workspaces() == old(self).spec_wm().spec_workspaces(),
            final(self).spec_backend() == old(self).spec_backend(),
            final(self).spec_renderer() == old(self).spec_renderer(),
            final(self).spec_protocols() == old(self).spec_protocols(),
            final(self).spec_input() == old(self).spec_input(),
            final(self).spec_x11() == old(self).spec_x11(),
    {
        proof {
            use_type_invariant(&self.wm);
        }
        let terminal = self.wm.create_window("Terminal", Rect::new(40, 40, 960, 540), WindowKind::Wayland);
        let ghost first = self.wm.spec_windows();
        let browser = self.wm.create_window("Browser", Rect::new(120, 90, 1200, 800), WindowKind::X11);
        let ghost created = self.wm.spec_windows();
        proof {
            assert forall|k: u64| #[trigger] old(self).wm.spec_windows().contains_key(k) implies created[k]
                == old(self).wm.spec_windows()[k] && k != browser.0 by {
                assert(first[k] == old(self).wm.spec_windows()[k]);
                assert(first.contains_key(k));
                assert(created[k] == first[k]);
            }
        }

        self.wm.focus(terminal);
        proof {
            let order = self.wm.spec_order();
            assert(order.drop_last() =~= old(self).wm.spec_order().push(terminal));
            crate::wm::laws::law_raise_top_is_noop(order, browser);
        }
        self.wm.raise(browser);
        self.wm.begin_move(browser, Point::new(120, 90));
        self.wm.update_cursor(Point::new(240, 160));
        self.wm.end_grab();

        self.wm.begin_resize(browser, ResizeEdge::BottomRight, Point::new(0, 0));
        self.wm.update_cursor(Point::new(150, 110));
        self.wm.end_grab();
        proof {
            assert forall|k: u64| #[trigger] old(self).wm.spec_windows().contains_key(k) implies self.wm.spec_windows()[k]
                == old(self).wm.spec_windows()[k] by {
                assert(created[k] == old(self).wm.spec_windows()[k]);
                assert(k != browser.0);
            }
        }

        (terminal, browser)
    }
}

impl Default for Application {
    /// The same as `new`.
    fn default() -> (app: Application)
        ensures
            app.spec_wm().wf(),
            app.spec_wm().spec_next_id() == 1,
            app.spec_wm().spec_windows() == Map::<u64, Window>::empty(),
            app.spec_wm().spec_order() == Seq::<WindowId>::empty(),
            app.spec_wm().spec_focused() == None::<WindowId>,
            app.spec_wm().spec_grab() == None::<GrabState>,
            app.spec_wm().spec_workspaces().len() == 1,
            app.spec_wm().spec_workspaces()[0].name@ == "1"@,
            !app.spec_backend().is_initialized(),
            !app.spec_renderer().is_initialized(),
            !app.spec_protocols().is_initialized(),
            !app.spec_input().is_initialized(),
            !app.spec_x11().is_initialized(),
    {
        Application::new()
    }
}

} // verus!
