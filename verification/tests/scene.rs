use blue_core::geometry::{Point, Rect, Size};
use blue_core::space::{MapError, Space, Window};

fn sized_window(id: u64, surface: u64, x: i32, y: i32, w: i32, h: i32) -> Window {
    let mut win = Window::new(id, surface, false);
    win.rect = Rect::new(x, y, w, h);
    win
}

#[test]
fn map_rejects_zero_area_output() {
    let mut s = Space::new(Size { w: 0, h: 600 });
    let r = s.map(Window::new(1, 101, false), Point { x: 0, y: 0 });
    assert_eq!(r, Err(MapError::EmptyOutput));
    assert_eq!(s.windows.len(), 0);
}

#[test]
fn map_rejects_duplicate_window_identity() {
    let mut s = Space::new(Size { w: 800, h: 600 });
    assert!(s.map(Window::new(1, 101, false), Point { x: 0, y: 0 }).is_ok());
    let r = s.map(Window::new(1, 102, false), Point { x: 10, y: 10 });
    assert_eq!(r, Err(MapError::DuplicateWindow));
}

#[test]
fn role_uniqueness_no_two_windows_share_a_surface() {
    let mut s = Space::new(Size { w: 800, h: 600 });
    assert!(s.map(Window::new(1, 101, false), Point { x: 0, y: 0 }).is_ok());
    // A long operation sequence: moves, raises, unmaps, re-maps.
    assert!(s.map(Window::new(2, 102, false), Point { x: 10, y: 10 }).is_ok());
    assert!(s.move_to(1, Point { x: 5, y: 5 }));
    assert!(s.raise(1));
    assert!(s.unmap(2));
    assert!(s.map(Window::new(3, 102, false), Point { x: 7, y: 7 }).is_ok());
    // The surface of a live window can never be mapped twice.
    let r = s.map(Window::new(4, 101, false), Point { x: 0, y: 0 });
    assert_eq!(r, Err(MapError::SurfaceInUse));
    for i in 0..s.windows.len() {
        for j in 0..s.windows.len() {
            if i != j {
                assert_ne!(s.windows[i].surface, s.windows[j].surface);
            }
        }
    }
}

#[test]
fn element_at_returns_most_recently_raised_hit() {
    let mut s = Space::new(Size { w: 1200, h: 800 });
    assert!(s.map(sized_window(1, 101, 0, 0, 100, 100), Point { x: 0, y: 0 }).is_ok());
    assert!(s.map(sized_window(2, 102, 50, 50, 100, 100), Point { x: 50, y: 50 }).is_ok());
    // Both contain (60, 60); window 2 was mapped later, so it is on top.
    assert_eq!(s.element_at(Point { x: 60, y: 60 }), Some(2));
    // Only window 2 contains (120, 120).
    assert_eq!(s.element_at(Point { x: 120, y: 120 }), Some(2));
    // Raising window 1 makes it the most recently raised hit.
    assert!(s.raise(1));
    assert_eq!(s.element_at(Point { x: 60, y: 60 }), Some(1));
    // No window contains (500, 500).
    assert_eq!(s.element_at(Point { x: 500, y: 500 }), None);
}

#[test]
fn element_at_is_none_on_empty_space() {
    let s = Space::new(Size { w: 800, h: 600 });
    assert_eq!(s.element_at(Point { x: 1, y: 1 }), None);
}

#[test]
fn arrange_three_windows_on_width_1200() {
    let mut s = Space::new(Size { w: 1200, h: 800 });
    assert!(s.map(Window::new(1, 101, false), Point { x: 3, y: 3 }).is_ok());
    assert!(s.map(Window::new(2, 102, false), Point { x: 6, y: 6 }).is_ok());
    assert!(s.map(Window::new(3, 103, false), Point { x: 9, y: 9 }).is_ok());
    s.set_tiling(true);
    s.arrange();
    let xs: Vec<i32> = s.windows.iter().map(|w| w.rect.pos.x).collect();
    let ws: Vec<i32> = s.windows.iter().map(|w| w.rect.size.w).collect();
    assert_eq!(xs, vec![0, 400, 800]);
    assert_eq!(ws, vec![400, 400, 400]);
    for w in s.windows.iter() {
        assert_eq!(w.rect.size.h, 800);
        assert!(w.tiled);
    }
}

#[test]
fn arrange_width_not_divisible() {
    let mut s = Space::new(Size { w: 1000, h: 500 });
    assert!(s.map(Window::new(1, 101, false), Point { x: 0, y: 0 }).is_ok());
    assert!(s.map(Window::new(2, 102, false), Point { x: 0, y: 0 }).is_ok());
    assert!(s.map(Window::new(3, 103, false), Point { x: 0, y: 0 }).is_ok());
    s.arrange();
    // 1000 / 3 = 333 by integer division; x advances by one slot per window.
    let xs: Vec<i32> = s.windows.iter().map(|w| w.rect.pos.x).collect();
    assert_eq!(xs, vec![0, 333, 666]);
    assert_eq!(s.windows[2].rect.size.w, 333);
}

#[test]
fn disabling_tiling_restores_floating_positions() {
    let mut s = Space::new(Size { w: 1200, h: 800 });
    assert!(s.map(Window::new(1, 101, false), Point { x: 11, y: 22 }).is_ok());
    assert!(s.map(Window::new(2, 102, false), Point { x: 33, y: 44 }).is_ok());
    s.set_tiling(true);
    s.arrange();
    assert_eq!(s.windows[1].rect.pos.x, 600);
    s.set_tiling(false);
    assert_eq!(s.windows[0].rect.pos, Point { x: 11, y: 22 });
    assert_eq!(s.windows[1].rect.pos, Point { x: 33, y: 44 });
    assert!(!s.windows[0].tiled && !s.windows[1].tiled);
}

#[test]
fn unmap_removes_only_the_named_window() {
    let mut s = Space::new(Size { w: 800, h: 600 });
    assert!(s.map(sized_window(1, 101, 0, 0, 10, 10), Point { x: 0, y: 0 }).is_ok());
    assert!(s.map(sized_window(2, 102, 20, 20, 10, 10), Point { x: 20, y: 20 }).is_ok());
    assert!(s.unmap(1));
    assert!(!s.unmap(1));
    assert_eq!(s.windows.len(), 1);
    assert_eq!(s.windows[0].id, 2);
    assert_eq!(s.element_at(Point { x: 5, y: 5 }), None);
}

#[test]
fn unmap_preserves_relative_stacking_order() {
    let mut s = Space::new(Size { w: 800, h: 600 });
    assert!(s.map(Window::new(1, 101, false), Point { x: 0, y: 0 }).is_ok());
    assert!(s.map(Window::new(2, 102, false), Point { x: 0, y: 0 }).is_ok());
    assert!(s.map(Window::new(3, 103, false), Point { x: 0, y: 0 }).is_ok());
    assert!(s.raise(1));
    assert_eq!(s.stack, vec![2, 3, 1]);
    assert!(s.unmap(3));
    // The other windows keep their relative order.
    assert_eq!(s.stack, vec![2, 1]);
}

#[test]
fn render_list_is_bottom_to_top() {
    let mut s = Space::new(Size { w: 800, h: 600 });
    assert!(s.map(sized_window(1, 101, 0, 0, 10, 10), Point { x: 0, y: 0 }).is_ok());
    assert!(s.map(sized_window(2, 102, 20, 20, 10, 10), Point { x: 20, y: 20 }).is_ok());
    assert!(s.raise(1));
    let order: Vec<u64> = s.render_list().iter().map(|e| e.0).collect();
    assert_eq!(order, vec![102, 101]);
}
