use vstd::prelude::*;

use crate::desktop::geometry::{rect_of, Rect};
use crate::desktop::window::{ResizeEdge, Window};

verus! {

/// The narrowest a window can be resized to.
pub const MIN_WIDTH: i32 = 100;

/// The shortest a window can be resized to.
pub const MIN_HEIGHT: i32 = 80;

/// `v` is representable as an `i32`.
pub open spec fn fits_i32(v: int) -> bool {
    i32::MIN <= v <= i32::MAX
}

/// The edge moves the window's left side.
pub open spec fn drags_left(edge: ResizeEdge) -> bool {
    edge == ResizeEdge::Left || edge == ResizeEdge::TopLeft || edge == ResizeEdge::BottomLeft
}

/// The edge moves the window's right side.
pub open spec fn drags_right(edge: ResizeEdge) -> bool {
    edge == ResizeEdge::Right || edge == ResizeEdge::TopRight || edge == ResizeEdge::BottomRight
}

/// The edge moves the window's top side.
pub open spec fn drags_top(edge: ResizeEdge) -> bool {
    edge == ResizeEdge::Top || edge == ResizeEdge::TopLeft || edge == ResizeEdge::TopRight
}

/// The edge moves the window's bottom side.
pub open spec fn drags_bottom(edge: ResizeEdge) -> bool {
    edge == ResizeEdge::Bottom || edge == ResizeEdge::BottomLeft || edge == ResizeEdge::BottomRight
}

/// Left side after dragging `edge` by `dx`, before the minimum width applies.
pub open spec fn dragged_x(edge: ResizeEdge, start: Rect, dx: int) -> int {
    if drags_left(edge) {
        start.origin.x + dx
    } else {
        start.origin.x as int
    }
}

/// Width after dragging `edge` by `dx`, before the minimum width applies.
pub open spec fn dragged_width(edge: ResizeEdge, start: Rect, dx: int) -> int {
    if drags_left(edge) {
        start.size.width - dx
    } else if drags_right(edge) {
        start.size.width + dx
    } else {
        start.size.width as int
    }
}

/// Top side after dragging `edge` by `dy`, before the minimum height applies.
pub open spec fn dragged_y(edge: ResizeEdge, start: Rect, dy: int) -> int {
    if drags_top(edge) {
        start.origin.y + dy
    } else {
        start.origin.y as int
    }
}

/// Height after dragging `edge` by `dy`, before the minimum height applies.
pub open spec fn dragged_height(edge: ResizeEdge, start: Rect, dy: int) -> int {
    if drags_top(edge) {
        start.size.height - dy
    } else if drags_bottom(edge) {
        start.size.height + dy
    } else {
        start.size.height as int
    }
}

/// Final left side: where the width is clamped to the minimum and the left
/// side was dragged, the window keeps its right side where it started.
pub open spec fn resized_x(edge: ResizeEdge, start: Rect, dx: int) -> int {
    if dragged_width(edge, start, dx) < MIN_WIDTH && drags_left(edge) {
        start.origin.x + (start.size.width - MIN_WIDTH)
    } else {
        dragged_x(edge, start, dx)
    }
}

/// Final width: the dragged width, but never below the minimum.
pub open spec fn resized_width(edge: ResizeEdge, start: Rect, dx: int) -> int {
    if dragged_width(edge, start, dx) < MIN_WIDTH {
        MIN_WIDTH as int
    } else {
        dragged_width(edge, start, dx)
    }
}

/// Final top side: where the height is clamped to the minimum and the top
/// side was dragged, the window keeps its bottom side where it started.
pub open spec fn resized_y(edge: ResizeEdge, start: Rect, dy: int) -> int {
    if dragged_height(edge, start, dy) < MIN_HEIGHT && drags_top(edge) {
        start.origin.y + (start.size.height - MIN_HEIGHT)
    } else {
        dragged_y(edge, start, dy)
    }
}

/// Final height: the dragged height, but never below the minimum.
pub open spec fn resized_height(edge: ResizeEdge, start: Rect, dy: int) -> int {
    if dragged_height(edge, start, dy) < MIN_HEIGHT {
        MIN_HEIGHT as int
    } else {
        dragged_height(edge, start, dy)
    }
}

/// The rectangle that a resize of `start` by `edge`, with the cursor moved by
/// `(dx, dy)`, produces.
pub open spec fn resized_rect(edge: ResizeEdge, start: Rect, dx: int, dy: int) -> Rect {
    rect_of(
        resized_x(edge, start, dx) as i32,
        resized_y(edge, start, dy) as i32,
        resized_width(edge, start, dx) as i32,
        resized_height(edge, start, dy) as i32,
    )
}

/// Every intermediate value that the resize computes fits in an `i32`.
pub open spec fn resize_fits(edge: ResizeEdge, start: Rect, dx: int, dy: int) -> bool {
    &&& drags_left(edge) ==> fits_i32(start.origin.x + dx) && fits_i32(start.size.width - dx)
    &&& drags_right(edge) ==> fits_i32(start.size.width + dx)
    &&& drags_top(edge) ==> fits_i32(start.origin.y + dy) && fits_i32(start.size.height - dy)
    &&& drags_bottom(edge) ==> fits_i32(start.size.height + dy)
    &&& drags_left(edge) && dragged_width(edge, start, dx) < MIN_WIDTH ==> fits_i32(
        start.size.width - MIN_WIDTH,
    ) && fits_i32(start.origin.x + (start.size.width - MIN_WIDTH))
    &&& drags_top(edge) && dragged_height(edge, start, dy) < MIN_HEIGHT ==> fits_i32(
        start.size.height - MIN_HEIGHT,
    ) && fits_i32(start.origin.y + (start.size.height - MIN_HEIGHT))
}

fn fits(v: i64) -> (b: bool)
    ensures
        b == fits_i32(v as int),
{
    i32::MIN as i64 <= v && v <= i32::MAX as i64
}

/// Whether a resize of `start_rect` by `edge` with cursor travel `(dx, dy)`
/// stays within `i32` arithmetic.
pub fn resize_fits_exec(edge: ResizeEdge, start_rect: Rect, dx: i32, dy: i32) -> (ok: bool)
    ensures
        ok == resize_fits(edge, start_rect, dx as int, dy as int),
{
    let x0 = start_rect.origin.x as i64;
    let y0 = start_rect.origin.y as i64;
    let w0 = start_rect.size.width as i64;
    let h0 = start_rect.size.height as i64;
    let left = is_left_edge(edge);
    let right = is_right_edge(edge);
    let top = is_top_edge(edge);
    let bottom = is_bottom_edge(edge);
    let dx = dx as i64;
    let dy = dy as i64;
    let width = if left { w0 - dx } else if right { w0 + dx } else { w0 };
    let height = if top { h0 - dy } else if bottom { h0 + dy } else { h0 };
    (!left || (fits(x0 + dx) && fits(w0 - dx))) && (!right || fits(w0 + dx)) && (!top || (fits(
        y0 + dy,
    ) && fits(h0 - dy))) && (!bottom || fits(h0 + dy)) && (!(left && width < MIN_WIDTH as i64)
        || (fits(w0 - MIN_WIDTH as i64) && fits(x0 + (w0 - MIN_WIDTH as i64)))) && (!(top && height
        < MIN_HEIGHT as i64) || (fits(h0 - MIN_HEIGHT as i64) && fits(
        y0 + (h0 - MIN_HEIGHT as i64),
    )))
}

fn is_right_edge(edge: ResizeEdge) -> (b: bool)
    ensures
        b == drags_right(edge),
{
    match edge {
        ResizeEdge::Right | ResizeEdge::TopRight | ResizeEdge::BottomRight => true,
        _ => false,
    }
}

fn is_bottom_edge(edge: ResizeEdge) -> (b: bool)
    ensures
        b == drags_bottom(edge),
{
    match edge {
        ResizeEdge::Bottom | ResizeEdge::BottomLeft | ResizeEdge::BottomRight => true,
        _ => false,
    }
}

fn is_left_edge(edge: ResizeEdge) -> (b: bool)
    ensures
        b == drags_left(edge),
{
    match edge {
        ResizeEdge::Left | ResizeEdge::TopLeft | ResizeEdge::BottomLeft => true,
        _ => false,
    }
}

fn is_top_edge(edge: ResizeEdge) -> (b: bool)
    ensures
        b == drags_top(edge),
{
    match edge {
        ResizeEdge::Top | ResizeEdge::TopLeft | ResizeEdge::TopRight => true,
        _ => false,
    }
}

/// Sets `window`'s rectangle to `start_rect` resized by `edge` with the cursor
/// moved by `(dx, dy)`; the minimum size applies. Nothing else of the window changes.
pub fn apply_resize(window: &mut Window, edge: ResizeEdge, start_rect: Rect, dx: i32, dy: i32)
    requires
        resize_fits(edge, start_rect, dx as int, dy as int),
    ensures
        final(window).rect == resized_rect(edge, start_rect, dx as int, dy as int),
        final(window).id == old(window).id,
        final(window).title == old(window).title,
        final(window).kind == old(window).kind,
        final(window).mapped == old(window).mapped,
        final(window).fullscreen == old(window).fullscreen,
{
    let mut x = start_rect.origin.x;
    let mut y = start_rect.origin.y;
    let mut width = start_rect.size.width;
    let mut height = start_rect.size.height;

    match edge {
        ResizeEdge::Top => {
            y += dy;
            height -= dy;
        },
        ResizeEdge::Bottom => {
            height += dy;
        },
        ResizeEdge::Left => {
            x += dx;
            width -= dx;
        },
        ResizeEdge::Right => {
            width += dx;
        },
        ResizeEdge::TopLeft => {
            x += dx;
            width -= dx;
            y += dy;
            height -= dy;
        },
        ResizeEdge::TopRight => {
            width += dx;
            y += dy;
            height -= dy;
        },
        ResizeEdge::BottomLeft => {
            x += dx;
            width -= dx;
            height += dy;
        },
        ResizeEdge::BottomRight => {
            width += dx;
            height += dy;
        },
    }

    if width < MIN_WIDTH {
        width = MIN_WIDTH;
        if is_left_edge(edge) {
            x = start_rect.origin.x + (start_rect.size.width - MIN_WIDTH);
        }
    }

    if height < MIN_HEIGHT {
        height = MIN_HEIGHT;
        if is_top_edge(edge) {
            y = start_rect.origin.y + (start_rect.size.height - MIN_HEIGHT);
        }
    }

    window.rect = Rect::new(x, y, width, height);
}

} // verus!
