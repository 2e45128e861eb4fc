use vstd::prelude::*;

use std::collections::HashMap;

use crate::desktop::focus::FocusStack;
use crate::desktop::geometry::{Point, Rect};
use crate::desktop::stacking::{other_than, raised, StackingOrder};
use crate::desktop::window::{ResizeEdge, Window, WindowId, WindowKind};
use crate::desktop::workspace::Workspace;
use crate::wm::grabs::{grab_fits, grab_rect, GrabState};
use crate::wm::history::{performs, ManagerCall};
use crate::wm::resize::apply_resize;

verus! {

broadcast use vstd::std_specs::hash::group_hash_axioms;

/// `w` with its rectangle replaced by `rect`.
pub open spec fn with_rect(w: Window, rect: Rect) -> Window {
    Window { rect, ..w }
}

/// The windows after the cursor moves to `cursor` while `grab` is held: the
/// grabbed window, if it exists, takes the grab's rectangle; nothing else changes.
pub open spec fn cursor_applied(
    windows: Map<u64, Window>,
    grab: Option<GrabState>,
    cursor: Point,
) -> Map<u64, Window> {
    match grab {
        None => windows,
        Some(g) => if windows.contains_key(g.target().0) {
            windows.insert(g.target().0, with_rect(
                windows[g.target().0],
                grab_rect(g, windows[g.target().0].rect, cursor),
            ))
        } else {
            windows
        },
    }
}

/// `w` is the window that `create_window` makes for these arguments.
pub open spec fn is_new_window(
    w: Window,
    id: WindowId,
    title: Seq<char>,
    kind: WindowKind,
    rect: Rect,
) -> bool {
    &&& w.id == id
    &&& w.title@ == title
    &&& w.kind == kind
    &&& w.rect == rect
    &&& w.mapped
    &&& !w.fullscreen
}

/// The window manager: its windows, their stacking order, the keyboard
/// focus, the grab in progress and the workspaces.
pub struct WindowManager {
    next_id: u64,
    windows: HashMap<u64, Window>,
    stacking: StackingOrder,
    focus: FocusStack,
    grab: Option<GrabState>,
    workspaces: Vec<Workspace>,
}

impl WindowManager {
    /// The identifier number the next window gets.
    pub closed spec fn spec_next_id(&self) -> u64 {
        self.next_id
    }

    /// The windows, by identifier number.
    pub closed spec fn spec_windows(&self) -> Map<u64, Window> {
        self.windows@
    }

    /// The windows from bottom to top.
    pub closed spec fn spec_order(&self) -> Seq<WindowId> {
        self.stacking@
    }

    /// The focused window.
    pub closed spec fn spec_focused(&self) -> Option<WindowId> {
        self.focus@
    }

    /// The grab in progress.
    pub closed spec fn spec_grab(&self) -> Option<GrabState> {
        self.grab
    }

    /// The workspaces.
    pub closed spec fn spec_workspaces(&self) -> Seq<Workspace> {
        self.workspaces@
    }

    /// The manager's invariant: windows are numbered `1 .. next_id` and each
    /// knows its number; the stacking order holds each window exactly once
    /// and nothing else; focus and grab refer to existing windows.
    pub open spec fn wf(&self) -> bool {
        &&& self.spec_next_id() >= 1
        &&& forall|k: u64| #[trigger]
            self.spec_windows().contains_key(k) <==> 1 <= k < self.spec_next_id()
        &&& forall|k: u64| #[trigger]
            self.spec_windows().contains_key(k) ==> self.spec_windows()[k].id == WindowId(k)
        &&& self.spec_order().no_duplicates()
        &&& forall|i: int|
            0 <= i < self.spec_order().len() ==> self.spec_windows().contains_key(
                #[trigger] self.spec_order()[i].0,
            )
        &&& forall|k: u64| #[trigger]
            self.spec_windows().contains_key(k) ==> self.spec_order().contains(WindowId(k))
        &&& (self.spec_focused() matches Some(f) ==> self.spec_windows().contains_key(f.0))
        &&& (self.spec_grab() matches Some(g) ==> self.spec_windows().contains_key(g.target().0))
    }

    /// Every manager keeps `wf`.
    #[verifier::type_invariant]
    pub(crate) open spec fn invariant_holds(self) -> bool {
        self.wf()
    }

    /// Following the cursor to `cursor` computes only values that fit in an `i32`.
    pub open spec fn cursor_update_fits(&self, cursor: Point) -> bool {
        match self.spec_grab() {
            None => true,
            Some(g) => self.spec_windows().contains_key(g.target().0) ==> grab_fits(g, cursor),
        }
    }

    /// A manager with no windows, no focus and no grab, over `workspaces`.
    pub fn new(workspaces: Vec<Workspace>) -> (wm: WindowManager)
        ensures
            wm.wf(),
            wm.spec_next_id() == 1,
            wm.spec_windows() == Map::<u64, Window>::empty(),
            wm.spec_order() == Seq::<WindowId>::empty(),
            wm.spec_focused() == None::<WindowId>,
            wm.spec_grab() == None::<GrabState>,
            wm.spec_workspaces() == workspaces@,
    {
        WindowManager {
            next_id: 1,
            windows: HashMap::new(),
            stacking: StackingOrder::default(),
            focus: FocusStack::default(),
            grab: None,
            workspaces,
        }
    }

    /// The number of workspaces.
    pub fn workspace_count(&self) -> (n: usize)
        ensures
            n == self.spec_workspaces().len(),
    {
        self.workspaces.len()
    }

    /// A new identifier can still be handed out.
    pub fn can_create_window(&self) -> (ok: bool)
        ensures
            ok == (self.spec_next_id() < u64::MAX),
    {
        self.next_id < u64::MAX
    }

    /// Creates a window with the next identifier, puts it on top and focuses it.
    pub fn create_window(&mut self, title: &str, rect: Rect, kind: WindowKind) -> (id: WindowId)
        requires
            old(self).spec_next_id() < u64::MAX,
        ensures
            final(self).wf(),
            id == WindowId(old(self).spec_next_id()),
            !old(self).spec_windows().contains_key(id.0),
            final(self).spec_next_id() == old(self).spec_next_id() + 1,
            final(self).spec_windows().dom() == old(self).spec_windows().dom().insert(id.0),
            forall|k: u64| #[trigger]
                old(self).spec_windows().contains_key(k) ==> final(self).spec_windows()[k]
                    == old(self).spec_windows()[k],
            is_new_window(final(self).spec_windows()[id.0], id, title@, kind, rect),
            final(self).spec_order() == old(self).spec_order().push(id),
            final(self).spec_focused() == Some(id),
            final(self).spec_grab() == old(self).spec_grab(),
            final(self).spec_workspaces() == old(self).spec_workspaces(),
            performs(*old(self), ManagerCall::CreateWindow { rect, kind }, *final(self)),
    {
        proof {
            use_type_invariant(&*self);
        }
        let mut current = WindowManager::new(Vec::new());
        std::mem::swap(self, &mut current);
        proof {
            use_type_invariant(&current);
        }
        let WindowManager { next_id, mut windows, mut stacking, mut focus, grab, workspaces } =
            current;
        let id = WindowId(next_id);
        let window = Window::new(id, title, kind, rect);
        windows.insert(id.0, window);
        stacking.push(id);
        focus.focus(id);
        proof {
            assert(windows@.dom() =~= old(self).windows@.dom().insert(id.0));
            assert(!old(self).stacking@.contains(id));
            assert forall|k: u64| #[trigger] windows@.contains_key(k) implies stacking@.contains(
                WindowId(k),
            ) by {
                if k != id.0 {
                    let j = choose|j: int| 0 <= j < old(self).stacking@.len() && old(self).stacking@[j] == WindowId(k);
                    assert(stacking@[j] == WindowId(k));
                } else {
                    assert(stacking@[stacking@.len() - 1] == id);
                }
            }
        }
        *self = WindowManager { next_id: next_id + 1, windows, stacking, focus, grab, workspaces };
        proof {
            use_type_invariant(&*self);
        }
        id
    }

    /// Focuses `id` if it is a window; otherwise nothing changes.
    pub fn focus(&mut self, id: WindowId)
        ensures
            final(self).wf(),
            final(self).spec_focused() == (if old(self).spec_windows().contains_key(id.0) {
                Some(id)
            } else {
                old(self).spec_focused()
            }),
            final(self).spec_next_id() == old(self).spec_next_id(),
            final(self).spec_windows() == old(self).spec_windows(),
            final(self).spec_order() == old(self).spec_order(),
            final(self).spec_grab() == old(self).spec_grab(),
            final(self).spec_workspaces() == old(self).spec_workspaces(),
            performs(*old(self), ManagerCall::Focus(id), *final(self)),
    {
        proof {
            use_type_invariant(&*self);
        }
        if self.windows.contains_key(&id.0) {
            self.focus.focus(id);
        }
        proof {
            use_type_invariant(&*self);
        }
    }

    /// The focused window, if any.
    pub fn focused(&self) -> (f: Option<WindowId>)
        ensures
            f == self.spec_focused(),
    {
        self.focus.current()
    }

    /// Raises `id` to the top if it is a window; otherwise nothing changes.
    pub fn raise(&mut self, id: WindowId)
        ensures
            final(self).wf(),
            final(self).spec_order() == (if old(self).spec_windows().contains_key(id.0) {
                raised(old(self).spec_order(), id)
            } else {
                old(self).spec_order()
            }),
            final(self).spec_next_id() == old(self).spec_next_id(),
            final(self).spec_windows() == old(self).spec_windows(),
            final(self).spec_focused() == old(self).spec_focused(),
            final(self).spec_grab() == old(self).spec_grab(),
            final(self).spec_workspaces() == old(self).spec_workspaces(),
            performs(*old(self), ManagerCall::Raise(id), *final(self)),
    {
        proof {
            use_type_invariant(&*self);
        }
        if self.windows.contains_key(&id.0) {
            proof {
                let order = self.stacking@;
                lemma_raised_members(order, id);
                assert forall|k: u64| #[trigger] self.windows@.contains_key(k) implies raised(
                    order,
                    id,
                ).contains(WindowId(k)) by {
                    assert(order.contains(WindowId(k)));
                }
                assert forall|i: int| 0 <= i < raised(order, id).len() implies self.windows@.contains_key(
                    #[trigger] raised(order, id)[i].0,
                ) by {
                    assert(raised(order, id).contains(raised(order, id)[i]));
                }
            }
            let mut current = WindowManager::new(Vec::new());
            std::mem::swap(self, &mut current);
            let WindowManager { next_id, windows, mut stacking, focus, grab, workspaces } = current;
            stacking.raise(id);
            *self = WindowManager { next_id, windows, stacking, focus, grab, workspaces };
        }
        proof {
            use_type_invariant(&*self);
        }
    }

    /// Starts moving `id` from `cursor` if it is a window; otherwise nothing changes.
    pub fn begin_move(&mut self, id: WindowId, cursor: Point)
        ensures
            final(self).wf(),
            final(self).spec_grab() == (if old(self).spec_windows().contains_key(id.0) {
                Some(
                    GrabState::Move {
                        window: id,
                        start_cursor: cursor,
                        start_rect: old(self).spec_windows()[id.0].rect,
                    },
                )
            } else {
                old(self).spec_grab()
            }),
            final(self).spec_next_id() == old(self).spec_next_id(),
            final(self).spec_windows() == old(self).spec_windows(),
            final(self).spec_order() == old(self).spec_order(),
            final(self).spec_focused() == old(self).spec_focused(),
            final(self).spec_workspaces() == old(self).spec_workspaces(),
            performs(*old(self), ManagerCall::BeginMove(id, cursor), *final(self)),
    {
        proof {
            use_type_invariant(&*self);
        }
        if let Some(window) = self.windows.get(&id.0) {
            self.grab = Some(GrabState::Move { window: id, start_cursor: cursor, start_rect: window.rect });
        }
        proof {
            use_type_invariant(&*self);
        }
    }

    /// Starts resizing `id` by `edge` from `cursor` if it is a window; otherwise nothing changes.
    pub fn begin_resize(&mut self, id: WindowId, edge: ResizeEdge, cursor: Point)
        ensures
            final(self).wf(),
            final(self).spec_grab() == (if old(self).spec_windows().contains_key(id.0) {
                Some(
                    GrabState::Resize {
                        window: id,
                        edge,
                        start_cursor: cursor,
                        start_rect: old(self).spec_windows()[id.0].rect,
                    },
                )
            } else {
                old(self).spec_grab()
            }),
            final(self).spec_next_id() == old(self).spec_next_id(),
            final(self).spec_windows() == old(self).spec_windows(),
            final(self).spec_order() == old(self).spec_order(),
            final(self).spec_focused() == old(self).spec_focused(),
            final(self).spec_workspaces() == old(self).spec_workspaces(),
            performs(*old(self), ManagerCall::BeginResize(id, edge, cursor), *final(self)),
    {
        proof {
            use_type_invariant(&*self);
        }
        if let Some(window) = self.windows.get(&id.0) {
            self.grab = Some(
                GrabState::Resize { window: id, edge, start_cursor: cursor, start_rect: window.rect },
            );
        }
        proof {
            use_type_invariant(&*self);
        }
    }

    /// Whether following the cursor to `cursor` stays within `i32` arithmetic.
    pub fn can_update_cursor(&self, cursor: Point) -> (ok: bool)
        ensures
            ok == self.cursor_update_fits(cursor),
    {
        match self.grab {
            None => true,
            Some(grab) => {
                let (window, start_cursor) = match grab {
                    GrabState::Move { window, start_cursor, .. } => (window, start_cursor),
                    GrabState::Resize { window, start_cursor, .. } => (window, start_cursor),
                };
                if !self.windows.contains_key(&window.0) {
                    return true;
                }
                let dx = cursor.x as i64 - start_cursor.x as i64;
                let dy = cursor.y as i64 - start_cursor.y as i64;
                if !(fits_i64(dx) && fits_i64(dy)) {
                    return false;
                }
                match grab {
                    GrabState::Move { start_rect, .. } => fits_i64(start_rect.origin.x as i64 + dx)
                        && fits_i64(start_rect.origin.y as i64 + dy),
                    GrabState::Resize { edge, start_rect, .. } => crate::wm::resize::resize_fits_exec(
                        edge,
                        start_rect,
                        dx as i32,
                        dy as i32,
                    ),
                }
            },
        }
    }

    /// Follows the cursor to `cursor` during a grab: a move translates the
    /// grabbed window by the cursor's travel since the grab began, a resize
    /// resizes it from where it started. Without a grab nothing changes.
    pub fn update_cursor(&mut self, cursor: Point)
        requires
            old(self).cursor_update_fits(cursor),
        ensures
            final(self).wf(),
            final(self).spec_windows() == cursor_applied(
                old(self).spec_windows(),
                old(self).spec_grab(),
                cursor,
            ),
            final(self).spec_next_id() == old(self).spec_next_id(),
            final(self).spec_order() == old(self).spec_order(),
            final(self).spec_focused() == old(self).spec_focused(),
            final(self).spec_grab() == old(self).spec_grab(),
            final(self).spec_workspaces() == old(self).spec_workspaces(),
            performs(*old(self), ManagerCall::UpdateCursor(cursor), *final(self)),
    {
        proof {
            use_type_invariant(&*self);
        }
        match self.grab {
            Some(GrabState::Move { window, start_cursor, start_rect }) => {
                if let Some(current) = self.windows.get(&window.0) {
                    let dx = cursor.x - start_cursor.x;
                    let dy = cursor.y - start_cursor.y;
                    let mut target = copy_window(current);
                    target.rect.origin.x = start_rect.origin.x + dx;
                    target.rect.origin.y = start_rect.origin.y + dy;
                    proof {
                        assert(self.windows@.insert(window.0, target) =~= cursor_applied(
                            old(self).windows@,
                            old(self).grab,
                            cursor,
                        ));
                    }
                    self.replace_window(window.0, target);
                }
            },
            Some(GrabState::Resize { window, edge, start_cursor, start_rect }) => {
                if let Some(current) = self.windows.get(&window.0) {
                    let dx = cursor.x - start_cursor.x;
                    let dy = cursor.y - start_cursor.y;
                    let mut target = copy_window(current);
                    apply_resize(&mut target, edge, start_rect, dx, dy);
                    proof {
                        assert(self.windows@.insert(window.0, target) =~= cursor_applied(
                            old(self).windows@,
                            old(self).grab,
                            cursor,
                        ));
                    }
                    self.replace_window(window.0, target);
                }
            },
            None => {},
        }
        proof {
            use_type_invariant(&*self);
        }
    }

    /// Ends the grab in progress, if any.
    pub fn end_grab(&mut self)
        ensures
            final(self).wf(),
            final(self).spec_grab() == None::<GrabState>,
            final(self).spec_next_id() == old(self).spec_next_id(),
            final(self).spec_windows() == old(self).spec_windows(),
            final(self).spec_order() == old(self).spec_order(),
            final(self).spec_focused() == old(self).spec_focused(),
            final(self).spec_workspaces() == old(self).spec_workspaces(),
            performs(*old(self), ManagerCall::EndGrab, *final(self)),
    {
        proof {
            use_type_invariant(&*self);
        }
        self.grab = None;
        proof {
            use_type_invariant(&*self);
        }
    }

    /// The windows from bottom to top.
    pub fn stacking(&self) -> (order: Vec<WindowId>)
        ensures
            order@ == self.spec_order(),
    {
        let all = self.stacking.all();
        let mut order: Vec<WindowId> = Vec::new();
        let n = all.len();
        for i in 0..n
            invariant
                n == all@.len(),
                all@ == self.stacking@,
                order@ == all@.take(i as int),
        {
            order.push(all[i]);
            proof {
                assert(all@.take(i + 1) =~= all@.take(i as int).push(all@[i as int]));
            }
        }
        proof {
            assert(all@.take(n as int) =~= all@);
        }
        order
    }

    /// The window `id`, if it exists.
    pub fn window(&self, id: WindowId) -> (w: Option<&Window>)
        ensures
            match w {
                Some(w) => self.spec_windows().contains_key(id.0) && *w == self.spec_windows()[id.0],
                None => !self.spec_windows().contains_key(id.0),
            },
    {
        self.windows.get(&id.0)
    }
}

/// Raising `id` keeps the same windows (adding `id`), and keeps each only once.
pub proof fn lemma_raised_members(order: Seq<WindowId>, id: WindowId)
    ensures
        forall|w: WindowId| #[trigger]
            raised(order, id).contains(w) <==> (order.contains(w) || w == id),
        order.no_duplicates() ==> raised(order, id).no_duplicates(),
{
    broadcast use vstd::seq_lib::group_filter_ensures;

    let kept = order.filter(other_than(id));
    let r = raised(order, id);
    assert(r.len() == kept.len() + 1);
    assert forall|w: WindowId| #[trigger] r.contains(w) implies (order.contains(w) || w == id) by {
        let i = choose|i: int| 0 <= i < r.len() && r[i] == w;
        if i < kept.len() {
            assert(kept[i] == w);
            assert(kept.contains(w));
            order.lemma_filter_contains_rev(other_than(id), w);
        }
    }
    assert forall|w: WindowId| (order.contains(w) || w == id) implies #[trigger] r.contains(w) by {
        if w == id {
            assert(r[kept.len() as int] == w);
        } else {
            let i = choose|i: int| 0 <= i < order.len() && order[i] == w;
            order.lemma_filter_contains(other_than(id), i);
            let j = choose|j: int| 0 <= j < kept.len() && kept[j] == w;
            assert(r[j] == w);
        }
    }
    if order.no_duplicates() {
        lemma_filter_no_duplicates(order, other_than(id));
        assert forall|i: int, j: int|
            0 <= i < raised(order, id).len() && 0 <= j < raised(order, id).len() && i != j
            implies raised(order, id)[i] != raised(order, id)[j] by {
            if i < kept.len() {
                order.lemma_filter_pred(other_than(id), i);
            }
            if j < kept.len() {
                order.lemma_filter_pred(other_than(id), j);
            }
        }
    }
}

/// Filtering keeps a sequence free of duplicates.
pub proof fn lemma_filter_no_duplicates(s: Seq<WindowId>, p: spec_fn(WindowId) -> bool)
    requires
        s.no_duplicates(),
    ensures
        s.filter(p).no_duplicates(),
    decreases s.len(),
{
    reveal_with_fuel(Seq::<_>::filter, 1);
    if s.len() > 0 {
        let init = s.drop_last();
        assert(init.no_duplicates());
        lemma_filter_no_duplicates(init, p);
        if p(s.last()) {
            let f = init.filter(p);
            assert forall|i: int| 0 <= i < f.len() implies f[i] != s.last() by {
                assert(f.contains(f[i]));
                init.lemma_filter_contains_rev(p, f[i]);
                let k = choose|k: int| 0 <= k < init.len() && init[k] == f[i];
                assert(s[k] == init[k]);
            }
        }
    }
}

impl WindowManager {
    /// Puts `w` in place of the window numbered `key`, which has `w`'s id.
    fn replace_window(&mut self, key: u64, w: Window)
        requires
            old(self).spec_windows().contains_key(key),
            w.id == WindowId(key),
        ensures
            final(self).spec_windows() == old(self).spec_windows().insert(key, w),
            final(self).spec_next_id() == old(self).spec_next_id(),
            final(self).spec_order() == old(self).spec_order(),
            final(self).spec_focused() == old(self).spec_focused(),
            final(self).spec_grab() == old(self).spec_grab(),
            final(self).spec_workspaces() == old(self).spec_workspaces(),
    {
        proof {
            use_type_invariant(&*self);
        }
        let mut current = WindowManager::new(Vec::new());
        std::mem::swap(self, &mut current);
        let WindowManager { next_id, mut windows, stacking, focus, grab, workspaces } = current;
        windows.insert(key, w);
        proof {
            assert(windows@.dom() =~= old(self).windows@.dom());
        }
        *self = WindowManager { next_id, windows, stacking, focus, grab, workspaces };
    }
}

/// A window equal to `w`, its title copied.
fn copy_window(w: &Window) -> (c: Window)
    ensures
        c == *w,
{
    Window {
        id: w.id,
        title: w.title.clone(),
        kind: w.kind,
        rect: w.rect,
        mapped: w.mapped,
        fullscreen: w.fullscreen,
    }
}

fn fits_i64(v: i64) -> (b: bool)
    ensures
        b == crate::wm::resize::fits_i32(v as int),
{
    i32::MIN as i64 <= v && v <= i32::MAX as i64
}

} // verus!
