use vstd::prelude::*;

use crate::desktop::geometry::{rect_of, Point, Rect, Size};
use crate::desktop::window::{ResizeEdge, WindowId};
use crate::wm::resize::{fits_i32, resize_fits, resized_rect};

verus! {

/// An interactive grab in progress: where the cursor and the window were when it began.
#[derive(Debug, Clone, Copy, PartialEq, Eq, Structural)]
pub enum GrabState {
    Move { window: WindowId, start_cursor: Point, start_rect: Rect },
    Resize { window: WindowId, edge: ResizeEdge, start_cursor: Point, start_rect: Rect },
}

impl GrabState {
    /// The grabbed window.
    pub open spec fn target(self) -> WindowId {
        match self {
            GrabState::Move { window, .. } => window,
            GrabState::Resize { window, .. } => window,
        }
    }

    /// The cursor position when the grab began.
    pub open spec fn origin_cursor(self) -> Point {
        match self {
            GrabState::Move { start_cursor, .. } => start_cursor,
            GrabState::Resize { start_cursor, .. } => start_cursor,
        }
    }

    /// The window's rectangle when the grab began.
    pub open spec fn origin_rect(self) -> Rect {
        match self {
            GrabState::Move { start_rect, .. } => start_rect,
            GrabState::Resize { start_rect, .. } => start_rect,
        }
    }
}

/// Horizontal cursor travel since the grab began.
pub open spec fn travel_x(grab: GrabState, cursor: Point) -> int {
    cursor.x - grab.origin_cursor().x
}

/// Vertical cursor travel since the grab began.
pub open spec fn travel_y(grab: GrabState, cursor: Point) -> int {
    cursor.y - grab.origin_cursor().y
}

/// The origin of `start` translated by `(dx, dy)`, with the size `size`.
pub open spec fn moved_rect(start: Rect, size: Size, dx: int, dy: int) -> Rect {
    rect_of((start.origin.x + dx) as i32, (start.origin.y + dy) as i32, size.width, size.height)
}

/// The rectangle the grabbed window, currently at `current`, takes with the
/// cursor at `cursor`: a move translates the grab's starting origin by the
/// cursor's travel and keeps the current size; a resize resizes the grab's
/// starting rectangle.
pub open spec fn grab_rect(grab: GrabState, current: Rect, cursor: Point) -> Rect {
    match grab {
        GrabState::Move { start_rect, .. } => moved_rect(
            start_rect,
            current.size,
            travel_x(grab, cursor),
            travel_y(grab, cursor),
        ),
        GrabState::Resize { edge, start_rect, .. } => resized_rect(
            edge,
            start_rect,
            travel_x(grab, cursor),
            travel_y(grab, cursor),
        ),
    }
}

/// Every value computed while following the cursor to `cursor` fits in an `i32`.
pub open spec fn grab_fits(grab: GrabState, cursor: Point) -> bool {
    &&& fits_i32(travel_x(grab, cursor))
    &&& fits_i32(travel_y(grab, cursor))
    &&& match grab {
        GrabState::Move { start_rect, .. } => fits_i32(start_rect.origin.x + travel_x(grab, cursor))
            && fits_i32(start_rect.origin.y + travel_y(grab, cursor)),
        GrabState::Resize { edge, start_rect, .. } => resize_fits(
            edge,
            start_rect,
            travel_x(grab, cursor),
            travel_y(grab, cursor),
        ),
    }
}

} // verus!
