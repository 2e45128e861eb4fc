use cubixwm::wm::grabs::GrabState;
use cubixwm::{Point, Rect, ResizeEdge, WindowId, WindowKind, WindowManager, Workspace};

fn fresh() -> WindowManager {
    WindowManager::new(vec![Workspace::new("1")])
}

#[test]
fn move_updates_window_position() {
    let mut wm = WindowManager::new(vec![Workspace::new("1")]);
    let id = wm.create_window("demo", Rect::new(10, 20, 300, 200), WindowKind::Wayland);

    wm.begin_move(id, Point::new(10, 10));
    wm.update_cursor(Point::new(40, 50));
    wm.end_grab();

    let window = wm.window(id).unwrap();
    assert_eq!(window.rect.origin, Point::new(40, 60));
}

#[test]
fn resize_respects_minimum_size() {
    let mut wm = WindowManager::new(vec![Workspace::new("1")]);
    let id = wm.create_window("demo", Rect::new(0, 0, 300, 200), WindowKind::Wayland);

    wm.begin_resize(id, ResizeEdge::TopLeft, Point::new(0, 0));
    wm.update_cursor(Point::new(500, 500));
    wm.end_grab();

    let window = wm.window(id).unwrap();
    assert_eq!(window.rect.size.width, 100);
    assert_eq!(window.rect.size.height, 80);
}

#[test]
fn new_manager_is_empty() {
    let wm = WindowManager::new(vec![Workspace::new("1"), Workspace::new("2")]);
    assert_eq!(wm.workspace_count(), 2);
    assert_eq!(wm.focused(), None);
    assert!(wm.stacking().is_empty());
    assert!(wm.window(WindowId(1)).is_none());
}

#[test]
fn create_window_numbers_stacks_and_focuses() {
    let mut wm = fresh();
    let a = wm.create_window("a", Rect::new(1, 2, 300, 400), WindowKind::Wayland);
    let b = wm.create_window("b", Rect::new(5, 6, 700, 800), WindowKind::X11);
    assert_eq!(a, WindowId(1));
    assert_eq!(b, WindowId(2));
    assert_eq!(wm.stacking(), vec![a, b]);
    assert_eq!(wm.focused(), Some(b));
    let w = wm.window(b).unwrap();
    assert_eq!(w.id, b);
    assert_eq!(w.title, "b");
    assert_eq!(w.kind, WindowKind::X11);
    assert_eq!(w.rect, Rect::new(5, 6, 700, 800));
    assert!(w.mapped);
    assert!(!w.fullscreen);
}

#[test]
fn focus_ignores_unknown_windows() {
    let mut wm = fresh();
    let a = wm.create_window("a", Rect::new(0, 0, 300, 300), WindowKind::Wayland);
    let b = wm.create_window("b", Rect::new(0, 0, 300, 300), WindowKind::Wayland);
    wm.focus(a);
    assert_eq!(wm.focused(), Some(a));
    wm.focus(WindowId(99));
    assert_eq!(wm.focused(), Some(a));
    wm.focus(b);
    assert_eq!(wm.focused(), Some(b));
}

#[test]
fn raise_moves_to_top_and_keeps_others_in_order() {
    let mut wm = fresh();
    let a = wm.create_window("a", Rect::new(0, 0, 300, 300), WindowKind::Wayland);
    let b = wm.create_window("b", Rect::new(0, 0, 300, 300), WindowKind::Wayland);
    let c = wm.create_window("c", Rect::new(0, 0, 300, 300), WindowKind::Wayland);
    wm.raise(a);
    assert_eq!(wm.stacking(), vec![b, c, a]);
    wm.raise(a);
    assert_eq!(wm.stacking(), vec![b, c, a]);
    wm.raise(WindowId(42));
    assert_eq!(wm.stacking(), vec![b, c, a]);
}

#[test]
fn grab_on_unknown_window_is_ignored() {
    let mut wm = fresh();
    let a = wm.create_window("a", Rect::new(10, 10, 300, 300), WindowKind::Wayland);
    wm.begin_move(WindowId(7), Point::new(0, 0));
    wm.update_cursor(Point::new(50, 50));
    assert_eq!(wm.window(a).unwrap().rect, Rect::new(10, 10, 300, 300));
    wm.begin_resize(WindowId(7), ResizeEdge::Right, Point::new(0, 0));
    wm.update_cursor(Point::new(50, 50));
    assert_eq!(wm.window(a).unwrap().rect, Rect::new(10, 10, 300, 300));
}

#[test]
fn latest_cursor_wins_and_back_to_start_restores() {
    let mut wm = fresh();
    let a = wm.create_window("a", Rect::new(10, 20, 300, 200), WindowKind::Wayland);
    wm.begin_move(a, Point::new(100, 100));
    wm.update_cursor(Point::new(130, 90));
    wm.update_cursor(Point::new(105, 101));
    assert_eq!(wm.window(a).unwrap().rect, Rect::new(15, 21, 300, 200));
    wm.update_cursor(Point::new(105, 101));
    assert_eq!(wm.window(a).unwrap().rect, Rect::new(15, 21, 300, 200));
    wm.update_cursor(Point::new(100, 100));
    assert_eq!(wm.window(a).unwrap().rect, Rect::new(10, 20, 300, 200));
}

#[test]
fn end_grab_stops_following_the_cursor() {
    let mut wm = fresh();
    let a = wm.create_window("a", Rect::new(0, 0, 300, 200), WindowKind::Wayland);
    wm.begin_move(a, Point::new(0, 0));
    wm.update_cursor(Point::new(5, 5));
    wm.end_grab();
    wm.update_cursor(Point::new(500, 500));
    assert_eq!(wm.window(a).unwrap().rect, Rect::new(5, 5, 300, 200));
}

#[test]
fn only_the_grabbed_window_moves() {
    let mut wm = fresh();
    let a = wm.create_window("a", Rect::new(0, 0, 300, 200), WindowKind::Wayland);
    let b = wm.create_window("b", Rect::new(50, 50, 300, 200), WindowKind::Wayland);
    wm.begin_move(a, Point::new(0, 0));
    wm.update_cursor(Point::new(7, 9));
    assert_eq!(wm.window(a).unwrap().rect, Rect::new(7, 9, 300, 200));
    assert_eq!(wm.window(b).unwrap().rect, Rect::new(50, 50, 300, 200));
}

fn resized(edge: ResizeEdge, start: Rect, dx: i32, dy: i32) -> Rect {
    let mut wm = fresh();
    let id = wm.create_window("r", start, WindowKind::Wayland);
    wm.begin_resize(id, edge, Point::new(0, 0));
    wm.update_cursor(Point::new(dx, dy));
    wm.window(id).unwrap().rect
}

#[test]
fn resize_each_edge() {
    let start = Rect::new(100, 100, 400, 300);
    assert_eq!(resized(ResizeEdge::Top, start, 10, 20), Rect::new(100, 120, 400, 280));
    assert_eq!(resized(ResizeEdge::Bottom, start, 10, 20), Rect::new(100, 100, 400, 320));
    assert_eq!(resized(ResizeEdge::Left, start, 10, 20), Rect::new(110, 100, 390, 300));
    assert_eq!(resized(ResizeEdge::Right, start, 10, 20), Rect::new(100, 100, 410, 300));
    assert_eq!(resized(ResizeEdge::TopLeft, start, 10, 20), Rect::new(110, 120, 390, 280));
    assert_eq!(resized(ResizeEdge::TopRight, start, 10, 20), Rect::new(100, 120, 410, 280));
    assert_eq!(resized(ResizeEdge::BottomLeft, start, 10, 20), Rect::new(110, 100, 390, 320));
    assert_eq!(resized(ResizeEdge::BottomRight, start, 10, 20), Rect::new(100, 100, 410, 320));
}

#[test]
fn resize_clamps_and_keeps_the_opposite_sides() {
    let start = Rect::new(100, 100, 400, 300);
    // dragging the left side far right: width clamps, right side stays at 500
    assert_eq!(resized(ResizeEdge::Left, start, 1000, 0), Rect::new(400, 100, 100, 300));
    // dragging the top far down: height clamps, bottom stays at 400
    assert_eq!(resized(ResizeEdge::Top, start, 0, 1000), Rect::new(100, 320, 400, 80));
    // dragging the right side far left: width clamps, left side stays
    assert_eq!(resized(ResizeEdge::Right, start, -1000, 0), Rect::new(100, 100, 100, 300));
    // dragging the bottom far up: height clamps, top stays
    assert_eq!(resized(ResizeEdge::Bottom, start, 0, -1000), Rect::new(100, 100, 400, 80));
    // both corners
    assert_eq!(resized(ResizeEdge::BottomRight, start, -1000, -1000), Rect::new(100, 100, 100, 80));
    assert_eq!(resized(ResizeEdge::TopLeft, start, 1000, 1000), Rect::new(400, 320, 100, 80));
}

#[test]
fn resize_of_an_undersized_window_with_no_travel_grows_it() {
    assert_eq!(
        resized(ResizeEdge::Left, Rect::new(0, 0, 50, 40), 0, 0),
        Rect::new(-50, 0, 100, 80)
    );
}

#[test]
fn cursor_checks_report_overflow() {
    let mut wm = fresh();
    assert!(wm.can_create_window());
    assert!(wm.can_update_cursor(Point::new(i32::MAX, i32::MIN)));
    let a = wm.create_window("a", Rect::new(0, 0, 300, 200), WindowKind::Wayland);
    wm.begin_move(a, Point::new(-10, 0));
    assert!(wm.can_update_cursor(Point::new(100, 100)));
    assert!(!wm.can_update_cursor(Point::new(i32::MAX, 0)));
    wm.begin_resize(a, ResizeEdge::Right, Point::new(0, 0));
    assert!(wm.can_update_cursor(Point::new(1000, 0)));
    assert!(!wm.can_update_cursor(Point::new(i32::MAX, 0)));
}

#[test]
fn grab_state_records_the_start() {
    let g = GrabState::Move { window: WindowId(3), start_cursor: Point::new(1, 2), start_rect: Rect::new(0, 0, 10, 10) };
    assert_eq!(g, GrabState::Move { window: WindowId(3), start_cursor: Point::new(1, 2), start_rect: Rect::new(0, 0, 10, 10) });
}
