use vstd::prelude::*;

use crate::desktop::window::WindowId;

verus! {

/// Which window holds the keyboard focus, if any.
#[derive(Debug)]
pub struct FocusStack {
    current: Option<WindowId>,
}

impl View for FocusStack {
    type V = Option<WindowId>;

    closed spec fn view(&self) -> Option<WindowId> {
        self.current
    }
}

impl Default for FocusStack {
    /// No window is focused.
    fn default() -> (f: FocusStack)
        ensures
            f@ == None::<WindowId>,
    {
        FocusStack { current: None }
    }
}

impl FocusStack {
    /// Gives the focus to `window`.
    pub fn focus(&mut self, window: WindowId)
        ensures
            final(self)@ == Some(window),
        no_unwind
    {
        self.current = Some(window);
    }

    /// The focused window, if any.
    pub fn current(&self) -> (w: Option<WindowId>)
        ensures
            w == self@,
    {
        self.current
    }
}

} // verus!
