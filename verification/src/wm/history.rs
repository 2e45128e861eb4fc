use vstd::prelude::*;

use crate::desktop::geometry::{Point, Rect};
use crate::desktop::stacking::raised;
use crate::desktop::window::{ResizeEdge, WindowId, WindowKind};
use crate::wm::grabs::GrabState;
use crate::wm::manager::{cursor_applied, WindowManager};
use crate::wm::resize::{fits_i32, resized_rect};

verus! {

/// A mutating call on a window manager, with its arguments (a created
/// window's title aside).
#[derive(Debug, Clone, Copy, PartialEq, Eq, Structural)]
pub enum ManagerCall {
    CreateWindow { rect: Rect, kind: WindowKind },
    Focus(WindowId),
    Raise(WindowId),
    BeginMove(WindowId, Point),
    BeginResize(WindowId, ResizeEdge, Point),
    UpdateCursor(Point),
    EndGrab,
}

/// Everything but the windows, the order, the focus and the grab is as before.
pub open spec fn same_frame(before: WindowManager, after: WindowManager) -> bool {
    &&& after.spec_next_id() == before.spec_next_id()
    &&& after.spec_workspaces() == before.spec_workspaces()
}

/// `call`, made on `before`, leaves the manager as `after`: what each
/// mutating method of `WindowManager` ensures, as one relation.
pub open spec fn performs(before: WindowManager, call: ManagerCall, after: WindowManager) -> bool {
    &&& before.wf()
    &&& after.wf()
    &&& match call {
        ManagerCall::CreateWindow { rect, kind } => {
            let id = WindowId(before.spec_next_id());
            &&& !before.spec_windows().contains_key(id.0)
            &&& after.spec_next_id() == before.spec_next_id() + 1
            &&& after.spec_windows().dom() == before.spec_windows().dom().insert(id.0)
            &&& forall|k: u64| #[trigger]
                before.spec_windows().contains_key(k) ==> after.spec_windows()[k]
                    == before.spec_windows()[k]
            &&& after.spec_windows()[id.0].id == id
            &&& after.spec_windows()[id.0].kind == kind
            &&& after.spec_windows()[id.0].rect == rect
            &&& after.spec_windows()[id.0].mapped
            &&& !after.spec_windows()[id.0].fullscreen
            &&& after.spec_order() == before.spec_order().push(id)
            &&& after.spec_focused() == Some(id)
            &&& after.spec_grab() == before.spec_grab()
            &&& after.spec_workspaces() == before.spec_workspaces()
        },
        ManagerCall::Focus(id) => {
            &&& same_frame(before, after)
            &&& after.spec_windows() == before.spec_windows()
            &&& after.spec_order() == before.spec_order()
            &&& after.spec_grab() == before.spec_grab()
            &&& after.spec_focused() == (if before.spec_windows().contains_key(id.0) {
                Some(id)
            } else {
                before.spec_focused()
            })
        },
        ManagerCall::Raise(id) => {
            &&& same_frame(before, after)
            &&& after.spec_windows() == before.spec_windows()
            &&& after.spec_focused() == before.spec_focused()
            &&& after.spec_grab() == before.spec_grab()
            &&& after.spec_order() == (if before.spec_windows().contains_key(id.0) {
                raised(before.spec_order(), id)
            } else {
                before.spec_order()
            })
        },
        ManagerCall::BeginMove(id, cursor) => {
            &&& same_frame(before, after)
            &&& after.spec_windows() == before.spec_windows()
            &&& after.spec_order() == before.spec_order()
            &&& after.spec_focused() == before.spec_focused()
            &&& after.spec_grab() == (if before.spec_windows().contains_key(id.0) {
                Some(
                    GrabState::Move {
                        window: id,
                        start_cursor: cursor,
                        start_rect: before.spec_windows()[id.0].rect,
                    },
                )
            } else {
                before.spec_grab()
            })
        },
        ManagerCall::BeginResize(id, edge, cursor) => {
            &&& same_frame(before, after)
            &&& after.spec_windows() == before.spec_windows()
            &&& after.spec_order() == before.spec_order()
            &&& after.spec_focused() == before.spec_focused()
            &&& after.spec_grab() == (if before.spec_windows().contains_key(id.0) {
                Some(
                    GrabState::Resize {
                        window: id,
                        edge,
                        start_cursor: cursor,
                        start_rect: before.spec_windows()[id.0].rect,
                    },
                )
            } else {
                before.spec_grab()
            })
        },
        ManagerCall::UpdateCursor(cursor) => {
            &&& same_frame(before, after)
            &&& before.cursor_update_fits(cursor)
            &&& after.spec_windows() == cursor_applied(
                before.spec_windows(),
                before.spec_grab(),
                cursor,
            )
            &&& after.spec_order() == before.spec_order()
            &&& after.spec_focused() == before.spec_focused()
            &&& after.spec_grab() == before.spec_grab()
        },
        ManagerCall::EndGrab => {
            &&& same_frame(before, after)
            &&& after.spec_windows() == before.spec_windows()
            &&& after.spec_order() == before.spec_order()
            &&& after.spec_focused() == before.spec_focused()
            &&& after.spec_grab() == None::<GrabState>
        },
    }
}

/// `states[i + 1]` is what `calls[i]` made of `states[i]`, for every call.
pub open spec fn is_history(states: Seq<WindowManager>, calls: Seq<ManagerCall>) -> bool {
    &&& states.len() == calls.len() + 1
    &&& forall|i: int| 0 <= i < calls.len() ==> performs(states[i], #[trigger] calls[i], states[i + 1])
}

/// The call starts a grab: a move or resize of a window that exists.
pub open spec fn starts_grab(before: WindowManager, call: ManagerCall) -> bool {
    match call {
        ManagerCall::BeginMove(id, _) => before.spec_windows().contains_key(id.0),
        ManagerCall::BeginResize(id, _, _) => before.spec_windows().contains_key(id.0),
        _ => false,
    }
}

/// The call starts or ends a grab.
pub open spec fn changes_grab(before: WindowManager, call: ManagerCall) -> bool {
    starts_grab(before, call) || call == ManagerCall::EndGrab
}

/// The focus after the first `n` calls: that of the latest created window
/// or of the latest focus call on an existing window, else the focus at the start.
pub open spec fn latest_focus(
    states: Seq<WindowManager>,
    calls: Seq<ManagerCall>,
    n: int,
) -> Option<WindowId>
    decreases n,
{
    if n <= 0 {
        states[0].spec_focused()
    } else {
        match calls[n - 1] {
            ManagerCall::CreateWindow { .. } => Some(WindowId(states[n - 1].spec_next_id())),
            ManagerCall::Focus(id) => if states[n - 1].spec_windows().contains_key(id.0) {
                Some(id)
            } else {
                latest_focus(states, calls, n - 1)
            },
            _ => latest_focus(states, calls, n - 1),
        }
    }
}

/// No call of any kind changes the workspaces.
pub proof fn law_workspaces_never_change(states: Seq<WindowManager>, calls: Seq<ManagerCall>)
    requires
        is_history(states, calls),
    ensures
        states.last().spec_workspaces() == states[0].spec_workspaces(),
    decreases calls.len(),
{
    if calls.len() > 0 {
        let n = calls.len() - 1;
        law_workspaces_never_change(states.drop_last(), calls.drop_last());
        assert(performs(states[n], calls[n], states[n + 1]));
    }
}

/// The focused window is the latest one created or focused (a focus call
/// on a window that does not exist does not count); with neither, the
/// focus stays as it started (none, for a new manager).
pub proof fn law_focus_is_latest(states: Seq<WindowManager>, calls: Seq<ManagerCall>)
    requires
        is_history(states, calls),
    ensures
        states.last().spec_focused() == latest_focus(states, calls, calls.len() as int),
    decreases calls.len(),
{
    if calls.len() > 0 {
        let n = calls.len() - 1;
        let s0 = states.drop_last();
        let c0 = calls.drop_last();
        assert(is_history(s0, c0)) by {
            assert forall|i: int| 0 <= i < c0.len() implies performs(s0[i], #[trigger] c0[i], s0[i + 1]) by {
                assert(performs(states[i], calls[i], states[i + 1]));
            }
        }
        law_focus_is_latest(s0, c0);
        lemma_latest_focus_prefix(states, calls, n as int);
        assert(performs(states[n], calls[n], states[n + 1]));
    }
}

proof fn lemma_latest_focus_prefix(states: Seq<WindowManager>, calls: Seq<ManagerCall>, n: int)
    requires
        0 <= n < calls.len(),
        states.len() == calls.len() + 1,
    ensures
        latest_focus(states.drop_last(), calls.drop_last(), n) == latest_focus(states, calls, n),
    decreases n,
{
    if n > 0 {
        lemma_latest_focus_prefix(states, calls, n - 1);
    }
}

/// Between a call that starts or ends a grab and the next such call, the
/// grab stays what that call left: every state strictly after call `i`, up
/// to state `k`, holds the grab of state `i + 1`.
pub proof fn law_grab_persists(
    states: Seq<WindowManager>,
    calls: Seq<ManagerCall>,
    i: int,
    k: int,
)
    requires
        is_history(states, calls),
        0 <= i < k <= calls.len(),
        forall|j: int| i < j < k ==> !changes_grab(states[j], #[trigger] calls[j]),
    ensures
        states[k].spec_grab() == states[i + 1].spec_grab(),
    decreases k - i,
{
    if k > i + 1 {
        law_grab_persists(states, calls, i, k - 1);
        assert(performs(states[k - 1], calls[k - 1], states[k]));
        assert(!changes_grab(states[k - 1], calls[k - 1]));
    }
}

/// After `end_grab`, until the next move or resize of an existing window
/// begins, moving the cursor moves no window.
pub proof fn law_end_grab_stops_updates(
    states: Seq<WindowManager>,
    calls: Seq<ManagerCall>,
    i: int,
    j: int,
)
    requires
        is_history(states, calls),
        0 <= i < j < calls.len(),
        calls[i] == ManagerCall::EndGrab,
        forall|m: int| i < m < j ==> !changes_grab(states[m], #[trigger] calls[m]),
        calls[j] is UpdateCursor,
    ensures
        states[j + 1].spec_windows() == states[j].spec_windows(),
{
    assert(performs(states[i], calls[i], states[i + 1]));
    law_grab_persists(states, calls, i, j);
    assert(performs(states[j], calls[j], states[j + 1]));
}

/// After `begin_move(id, start)` on an existing window, the next cursor
/// update to `cursor` before any other grab starts or ends puts the window's
/// corner at its corner when the move began, plus the cursor's travel from
/// `start` (which fits in an `i32`, as `update_cursor` requires).
pub proof fn law_move_follows_cursor(
    states: Seq<WindowManager>,
    calls: Seq<ManagerCall>,
    i: int,
    k: int,
    id: WindowId,
    start: Point,
    cursor: Point,
)
    requires
        is_history(states, calls),
        0 <= i < k < calls.len(),
        calls[i] == ManagerCall::BeginMove(id, start),
        states[i].spec_windows().contains_key(id.0),
        forall|j: int| i < j < k ==> !changes_grab(states[j], #[trigger] calls[j]),
        calls[k] == ManagerCall::UpdateCursor(cursor),
    ensures
        ({
            let r0 = states[i].spec_windows()[id.0].rect;
            let r = states[k + 1].spec_windows()[id.0].rect;
            &&& fits_i32(r0.origin.x + (cursor.x - start.x))
            &&& fits_i32(r0.origin.y + (cursor.y - start.y))
            &&& r.origin.x == r0.origin.x + (cursor.x - start.x)
            &&& r.origin.y == r0.origin.y + (cursor.y - start.y)
            &&& r.size == states[k].spec_windows()[id.0].rect.size
        }),
{
    assert(performs(states[i], calls[i], states[i + 1]));
    law_grab_persists(states, calls, i, k);
    assert(performs(states[k], calls[k], states[k + 1]));
}

/// After `begin_resize(id, edge, start)` on an existing window, the next
/// cursor update to `cursor` before any other grab starts or ends gives the
/// window the rectangle it had when the resize began, resized by `edge` with
/// the cursor's travel from `start`.
pub proof fn law_resize_follows_cursor(
    states: Seq<WindowManager>,
    calls: Seq<ManagerCall>,
    i: int,
    k: int,
    id: WindowId,
    edge: ResizeEdge,
    start: Point,
    cursor: Point,
)
    requires
        is_history(states, calls),
        0 <= i < k < calls.len(),
        calls[i] == ManagerCall::BeginResize(id, edge, start),
        states[i].spec_windows().contains_key(id.0),
        forall|j: int| i < j < k ==> !changes_grab(states[j], #[trigger] calls[j]),
        calls[k] == ManagerCall::UpdateCursor(cursor),
    ensures
        states[k + 1].spec_windows()[id.0].rect == resized_rect(
            edge,
            states[i].spec_windows()[id.0].rect,
            cursor.x - start.x,
            cursor.y - start.y,
        ),
{
    assert(performs(states[i], calls[i], states[i + 1]));
    law_grab_persists(states, calls, i, k);
    assert(performs(states[k], calls[k], states[k + 1]));
}

} // verus!
