use vstd::prelude::*;

use crate::desktop::geometry::{Point, Rect};
use crate::desktop::stacking::{other_than, raised};
use crate::desktop::window::{ResizeEdge, Window, WindowId};
use crate::wm::grabs::{GrabState};
use crate::wm::manager::{cursor_applied, with_rect};
use crate::wm::resize::{
    drags_bottom, drags_left, drags_right, drags_top, fits_i32, resize_fits, resized_rect,
    MIN_HEIGHT, MIN_WIDTH,
};

verus! {

/// However far the cursor travels, a resize never leaves a window narrower
/// than `MIN_WIDTH` or shorter than `MIN_HEIGHT`.
pub proof fn law_resize_respects_minimum(edge: ResizeEdge, start: Rect, dx: int, dy: int)
    requires
        resize_fits(edge, start, dx, dy),
    ensures
        resized_rect(edge, start, dx, dy).size.width >= MIN_WIDTH,
        resized_rect(edge, start, dx, dy).size.height >= MIN_HEIGHT,
{
}

/// A resize moves only the dragged sides: a window resized by a left edge
/// keeps its right side where it started, otherwise its left side; likewise
/// a window resized by a top edge keeps its bottom side, otherwise its top side.
pub proof fn law_resize_keeps_opposite_sides(edge: ResizeEdge, start: Rect, dx: int, dy: int)
    requires
        resize_fits(edge, start, dx, dy),
    ensures
        ({
            let r = resized_rect(edge, start, dx, dy);
            &&& drags_left(edge) ==> r.origin.x + r.size.width == start.origin.x + start.size.width
            &&& !drags_left(edge) ==> r.origin.x == start.origin.x
            &&& drags_top(edge) ==> r.origin.y + r.size.height == start.origin.y
                + start.size.height
            &&& !drags_top(edge) ==> r.origin.y == start.origin.y
        }),
{
}

/// Above the minimum size the dragged sides follow the cursor's signed
/// travel: dragging a left edge by `dx` moves the left side to `x + dx` and
/// makes the width `width - dx` (so dragging it outward, `dx < 0`, widens the
/// window), dragging a right edge by `dx` makes the width `width + dx` with
/// the left side in place; the top and bottom edges do the same with `dy`.
pub proof fn law_resize_follows_cursor(edge: ResizeEdge, start: Rect, dx: int, dy: int)
    requires
        drags_left(edge) ==> fits_i32(start.origin.x + dx) && fits_i32(start.size.width - dx),
        drags_right(edge) ==> fits_i32(start.size.width + dx),
        drags_top(edge) ==> fits_i32(start.origin.y + dy) && fits_i32(start.size.height - dy),
        drags_bottom(edge) ==> fits_i32(start.size.height + dy),
    ensures
        ({
            let r = resized_rect(edge, start, dx, dy);
            &&& drags_left(edge) && start.size.width - dx >= MIN_WIDTH ==> r.origin.x
                == start.origin.x + dx && r.size.width == start.size.width - dx
            &&& drags_right(edge) && start.size.width + dx >= MIN_WIDTH ==> r.origin.x
                == start.origin.x && r.size.width == start.size.width + dx
            &&& drags_top(edge) && start.size.height - dy >= MIN_HEIGHT ==> r.origin.y
                == start.origin.y + dy && r.size.height == start.size.height - dy
            &&& drags_bottom(edge) && start.size.height + dy >= MIN_HEIGHT ==> r.origin.y
                == start.origin.y && r.size.height == start.size.height + dy
        }),
{
}

/// During a resize grab the dragged sides follow the cursor: with the cursor
/// at `cursor`, a dragged left side lies where it started plus the cursor's
/// horizontal travel since the grab began, and a dragged top side where it
/// started plus the vertical travel, as long as the window stays above the
/// minimum size.
pub proof fn law_resize_grab_follows_cursor(
    windows: Map<u64, Window>,
    grab: GrabState,
    cursor: Point,
)
    requires
        grab is Resize,
        windows.contains_key(grab.target().0),
        drags_left(grab->edge) ==> fits_i32(
            grab.origin_rect().origin.x + (cursor.x - grab.origin_cursor().x),
        ) && fits_i32(grab.origin_rect().size.width - (cursor.x - grab.origin_cursor().x)),
        drags_right(grab->edge) ==> fits_i32(
            grab.origin_rect().size.width + (cursor.x - grab.origin_cursor().x),
        ),
        drags_top(grab->edge) ==> fits_i32(
            grab.origin_rect().origin.y + (cursor.y - grab.origin_cursor().y),
        ) && fits_i32(grab.origin_rect().size.height - (cursor.y - grab.origin_cursor().y)),
        drags_bottom(grab->edge) ==> fits_i32(
            grab.origin_rect().size.height + (cursor.y - grab.origin_cursor().y),
        ),
    ensures
        ({
            let start = grab.origin_rect();
            let dx = cursor.x - grab.origin_cursor().x;
            let dy = cursor.y - grab.origin_cursor().y;
            let r = cursor_applied(windows, Some(grab), cursor)[grab.target().0].rect;
            &&& drags_left(grab->edge) && start.size.width - dx >= MIN_WIDTH ==> r.origin.x
                == start.origin.x + dx && r.size.width == start.size.width - dx
            &&& drags_top(grab->edge) && start.size.height - dy >= MIN_HEIGHT ==> r.origin.y
                == start.origin.y + dy && r.size.height == start.size.height - dy
        }),
{
    law_resize_follows_cursor(
        grab->edge,
        grab.origin_rect(),
        cursor.x - grab.origin_cursor().x,
        cursor.y - grab.origin_cursor().y,
    );
}

/// Below the minimum size a resize stops at it: a width that the drag would
/// take under `MIN_WIDTH` becomes exactly `MIN_WIDTH` (a dragged left side
/// then stops where the right side stays put), and likewise a height under
/// `MIN_HEIGHT`; a side that no edge drags keeps its place.
pub proof fn law_resize_clamps_to_minimum(edge: ResizeEdge, start: Rect, dx: int, dy: int)
    requires
        drags_left(edge) ==> fits_i32(start.origin.x + dx) && fits_i32(start.size.width - dx)
            && fits_i32(start.origin.x + (start.size.width - MIN_WIDTH)),
        drags_right(edge) ==> fits_i32(start.size.width + dx),
        drags_top(edge) ==> fits_i32(start.origin.y + dy) && fits_i32(start.size.height - dy)
            && fits_i32(start.origin.y + (start.size.height - MIN_HEIGHT)),
        drags_bottom(edge) ==> fits_i32(start.size.height + dy),
    ensures
        ({
            let r = resized_rect(edge, start, dx, dy);
            &&& drags_left(edge) && start.size.width - dx < MIN_WIDTH ==> r.size.width == MIN_WIDTH
                && r.origin.x == start.origin.x + start.size.width - MIN_WIDTH
            &&& drags_right(edge) && start.size.width + dx < MIN_WIDTH ==> r.size.width
                == MIN_WIDTH && r.origin.x == start.origin.x
            &&& drags_top(edge) && start.size.height - dy < MIN_HEIGHT ==> r.size.height
                == MIN_HEIGHT && r.origin.y == start.origin.y + start.size.height - MIN_HEIGHT
            &&& drags_bottom(edge) && start.size.height + dy < MIN_HEIGHT ==> r.size.height
                == MIN_HEIGHT && r.origin.y == start.origin.y
            &&& !drags_left(edge) && !drags_right(edge) ==> r.origin.x == start.origin.x
                && r.size.width == (if start.size.width < MIN_WIDTH {
                MIN_WIDTH
            } else {
                start.size.width
            })
            &&& !drags_top(edge) && !drags_bottom(edge) ==> r.origin.y == start.origin.y
                && r.size.height == (if start.size.height < MIN_HEIGHT {
                MIN_HEIGHT
            } else {
                start.size.height
            })
        }),
{
}

/// With no cursor travel, a resize gives back the rectangle it started from,
/// as long as that rectangle already met the minimum size.
pub proof fn law_resize_without_travel_is_identity(edge: ResizeEdge, start: Rect)
    requires
        start.size.width >= MIN_WIDTH,
        start.size.height >= MIN_HEIGHT,
    ensures
        resize_fits(edge, start, 0, 0),
        resized_rect(edge, start, 0, 0) == start,
{
}

/// During a grab only the latest cursor position matters: following the
/// cursor to `first` and then to `second` leaves the windows as following it
/// to `second` alone. In particular, repeating an update changes nothing.
pub proof fn law_latest_cursor_wins(
    windows: Map<u64, Window>,
    grab: Option<GrabState>,
    first: Point,
    second: Point,
)
    ensures
        cursor_applied(cursor_applied(windows, grab, first), grab, second) == cursor_applied(
            windows,
            grab,
            second,
        ),
{
    if let Some(g) = grab {
        let k = g.target().0;
        if windows.contains_key(k) {
            let once = cursor_applied(windows, grab, first);
            assert(once[k].rect.size == windows[k].rect.size || g is Resize);
            assert(cursor_applied(once, grab, second) =~= cursor_applied(windows, grab, second));
        }
    }
}

/// Bringing the cursor back to where a grab began puts the grabbed window
/// back where it was when the grab began (for a resize, as long as the
/// window met the minimum size then).
pub proof fn law_cursor_back_to_start_restores(windows: Map<u64, Window>, grab: GrabState)
    requires
        windows.contains_key(grab.target().0),
        windows[grab.target().0].rect == grab.origin_rect(),
        grab is Resize ==> grab.origin_rect().size.width >= MIN_WIDTH
            && grab.origin_rect().size.height >= MIN_HEIGHT,
    ensures
        cursor_applied(windows, Some(grab), grab.origin_cursor()) == windows,
{
    let k = grab.target().0;
    if let GrabState::Resize { edge, start_rect, .. } = grab {
        law_resize_without_travel_is_identity(edge, start_rect);
    }
    assert(with_rect(windows[k], windows[k].rect) == windows[k]);
    assert(cursor_applied(windows, Some(grab), grab.origin_cursor()) =~= windows);
}

/// Without a grab, moving the cursor moves no window (so after `end_grab`
/// `update_cursor` changes nothing).
pub proof fn law_no_grab_moves_nothing(windows: Map<u64, Window>, cursor: Point)
    ensures
        cursor_applied(windows, None, cursor) == windows,
{
}

/// Raising the window that was just raised changes nothing.
pub proof fn law_raise_is_idempotent(order: Seq<WindowId>, id: WindowId)
    ensures
        raised(raised(order, id), id) == raised(order, id),
{
    let p = other_than(id);
    let kept = order.filter(p);
    assert(kept.push(id).filter(p) == kept) by {
        reveal_with_fuel(Seq::<_>::filter, 1);
        assert(kept.push(id).drop_last() =~= kept);
        lemma_filter_idempotent(order, p);
    }
}

/// Raising `id` puts it on top and keeps every other window in its relative
/// order: below `id` lies exactly the old order with `id` taken out.
pub proof fn law_raise_keeps_others_in_order(order: Seq<WindowId>, id: WindowId)
    ensures
        raised(order, id).len() == order.filter(|w: WindowId| w != id).len() + 1,
        raised(order, id).last() == id,
        raised(order, id).drop_last() == order.filter(|w: WindowId| w != id),
{
    assert(other_than(id) =~= (|w: WindowId| w != id));
    assert(raised(order, id).drop_last() =~= order.filter(other_than(id)));
}

/// Raising the window already on top, which appears nowhere else, changes nothing.
pub proof fn law_raise_top_is_noop(order: Seq<WindowId>, id: WindowId)
    requires
        order.len() > 0,
        order.last() == id,
        !order.drop_last().contains(id),
    ensures
        raised(order, id) == order,
{
    reveal_with_fuel(Seq::<_>::filter, 1);
    lemma_filter_keeps_all(order.drop_last(), other_than(id));
    assert(order.drop_last().push(id) =~= order);
}

/// Filtering a sequence all of whose elements pass keeps it whole.
pub proof fn lemma_filter_keeps_all(s: Seq<WindowId>, p: spec_fn(WindowId) -> bool)
    requires
        forall|i: int| 0 <= i < s.len() ==> p(#[trigger] s[i]),
    ensures
        s.filter(p) == s,
    decreases s.len(),
{
    reveal_with_fuel(Seq::<_>::filter, 1);
    if s.len() > 0 {
        lemma_filter_keeps_all(s.drop_last(), p);
        assert(s.drop_last().push(s.last()) =~= s);
    }
}

/// Filtering twice by the same predicate is filtering once.
pub proof fn lemma_filter_idempotent(s: Seq<WindowId>, p: spec_fn(WindowId) -> bool)
    ensures
        s.filter(p).filter(p) == s.filter(p),
    decreases s.len(),
{
    reveal_with_fuel(Seq::<_>::filter, 1);
    if s.len() > 0 {
        lemma_filter_idempotent(s.drop_last(), p);
        let f = s.drop_last().filter(p);
        if p(s.last()) {
            assert(f.push(s.last()).drop_last() =~= f);
        }
    }
}

} // verus!
