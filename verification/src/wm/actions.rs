use vstd::prelude::*;

use crate::desktop::geometry::Point;
use crate::desktop::window::{ResizeEdge, WindowId};

verus! {

/// A request that input handling makes of the window manager.
#[derive(Debug, Clone, Copy, PartialEq, Eq, Structural)]
pub enum WindowAction {
    Focus(WindowId),
    Raise(WindowId),
    StartMove(WindowId, Point),
    StartResize(WindowId, ResizeEdge, Point),
    EndGrab,
}

} // verus!
