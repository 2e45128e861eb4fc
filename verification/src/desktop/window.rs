use vstd::prelude::*;

use crate::desktop::geometry::Rect;

verus! {

/// The identifier of a managed window.
#[derive(Debug, Clone, Copy, PartialEq, Eq, Hash, Structural)]
pub struct WindowId(pub u64);

/// The protocol a window's client speaks.
#[derive(Debug, Clone, Copy, PartialEq, Eq, Structural)]
pub enum WindowKind {
    Wayland,
    X11,
}

/// The edge or corner of a window that an interactive resize drags.
#[derive(Debug, Clone, Copy, PartialEq, Eq, Structural)]
pub enum ResizeEdge {
    Top,
    Bottom,
    Left,
    Right,
    TopLeft,
    TopRight,
    BottomLeft,
    BottomRight,
}

/// A managed window.
#[derive(Debug, Clone)]
pub struct Window {
    pub id: WindowId,
    pub title: String,
    pub kind: WindowKind,
    pub rect: Rect,
    pub mapped: bool,
    pub fullscreen: bool,
}

impl Window {
    /// A new window: mapped, not fullscreen, with the given identity, title, kind and place.
    pub fn new(id: WindowId, title: &str, kind: WindowKind, rect: Rect) -> (w: Window)
        ensures
            w.id == id,
            w.title@ == title@,
            w.kind == kind,
            w.rect == rect,
            w.mapped,
            !w.fullscreen,
    {
        Window { id, title: title.to_owned(), kind, rect, mapped: true, fullscreen: false }
    }
}

} // verus!
