use blue_core::compositor::{ButtonReply, Compositor, KeyAction, MotionReply};
use blue_core::config::Config;
use blue_core::geometry::{Point, Rect, Size};
use blue_core::seat::{
    clamp_dim_values, move_position, resize_adjust, Edges, GrabState,
};

fn fresh_core() -> Compositor {
    Compositor::new(Config::default(), Size { w: 1200, h: 800 }, &Vec::new())
}

#[test]
fn move_grab_translates_by_pointer_delta() {
    // Started with window position (10, 20) and pointer at (100, 100); a
    // motion to (130, 90) yields (10, 20) + (30, -10) = (40, 10).
    let p = move_position(
        Point { x: 10, y: 20 },
        Point { x: 100, y: 100 },
        Point { x: 130, y: 90 },
    );
    assert_eq!(p, Some(Point { x: 40, y: 10 }));
}

#[test]
fn move_grab_through_the_seat_router() {
    let mut c = fresh_core();
    let reply = c.new_toplevel(101).unwrap();
    let id = reply.window;
    c.space.set_geometry(id, Rect::new(10, 20, 100, 100));
    // Pointer to (100, 100), button down over the window... the grab needs
    // a held button; the window is at (10..110, 20..120).
    c.pointer_motion(Point { x: 100, y: 100 });
    c.pointer_button(true, 272);
    assert!(c.move_request(101));
    match c.seat.grab {
        GrabState::Moving { window, start_pointer, start_window_pos } => {
            assert_eq!(window, id);
            assert_eq!(start_pointer, Point { x: 100, y: 100 });
            assert_eq!(start_window_pos, Point { x: 10, y: 20 });
        }
        _ => panic!("expected a move grab"),
    }
    // Motion is consumed by the grab and moves the window by the delta.
    match c.pointer_motion(Point { x: 130, y: 90 }) {
        MotionReply::Moved { window } => assert_eq!(window, id),
        _ => panic!("expected the grab to consume the motion"),
    }
    assert_eq!(c.space.windows[0].rect.pos, Point { x: 40, y: 10 });
    // Releasing the last button ends the grab.
    c.pointer_button(false, 272);
    assert!(matches!(c.seat.grab, GrabState::Idle));
}

#[test]
fn move_request_needs_a_held_button() {
    let mut c = fresh_core();
    c.new_toplevel(101).unwrap();
    assert!(!c.move_request(101));
    assert!(matches!(c.seat.grab, GrabState::Idle));
}

#[test]
fn resize_clamps_to_min_and_max() {
    let start = Rect::new(0, 0, 200, 200);
    let edges = Edges { top: false, bottom: true, left: false, right: true };
    let min = Size { w: 150, h: 150 };
    let max = Size { w: 300, h: 300 };
    // Shrinking by 400 in both axes would go negative: clamped to min.
    let r = resize_adjust(
        start,
        edges,
        Point { x: 0, y: 0 },
        Point { x: -400, y: -400 },
        min,
        max,
    )
    .unwrap();
    assert_eq!(r.size, Size { w: 150, h: 150 });
    // Growing by 400 is clamped to max.
    let r = resize_adjust(
        start,
        edges,
        Point { x: 0, y: 0 },
        Point { x: 400, y: 400 },
        min,
        max,
    )
    .unwrap();
    assert_eq!(r.size, Size { w: 300, h: 300 });
}

#[test]
fn resize_floors_unconstrained_dimension_to_one() {
    // No advertised minimum or maximum (zero means unconstrained): a delta
    // driving the size to zero or below is floored to 1.
    let start = Rect::new(0, 0, 100, 100);
    let edges = Edges { top: false, bottom: true, left: false, right: true };
    let zero = Size { w: 0, h: 0 };
    let r = resize_adjust(
        start,
        edges,
        Point { x: 0, y: 0 },
        Point { x: -100, y: -250 },
        zero,
        zero,
    )
    .unwrap();
    assert_eq!(r.size, Size { w: 1, h: 1 });
}

#[test]
fn resize_left_edge_keeps_right_edge_fixed() {
    let start = Rect::new(10, 10, 100, 100);
    let edges = Edges { top: false, bottom: false, left: true, right: false };
    let zero = Size { w: 0, h: 0 };
    let r = resize_adjust(
        start,
        edges,
        Point { x: 0, y: 0 },
        Point { x: 30, y: 0 },
        zero,
        zero,
    )
    .unwrap();
    // Width shrinks to 70; x shifts so that x + w stays 110.
    assert_eq!(r, Rect::new(40, 10, 70, 100));
    assert_eq!(r.pos.x + r.size.w, start.pos.x + start.size.w);
}

#[test]
fn clamp_dim_exact_values() {
    // candidate below an unset minimum, floored to 1.
    assert_eq!(clamp_dim_values(-5, 0, 0), 1);
    // candidate below the minimum.
    assert_eq!(clamp_dim_values(50, 100, 200), 100);
    // candidate above the maximum.
    assert_eq!(clamp_dim_values(500, 100, 200), 200);
    // candidate within bounds.
    assert_eq!(clamp_dim_values(150, 100, 200), 150);
}

#[test]
fn button_press_over_window_raises_and_focuses() {
    let mut c = fresh_core();
    let a = c.new_toplevel(101).unwrap().window;
    let b = c.new_toplevel(102).unwrap().window;
    c.space.set_geometry(a, Rect::new(0, 0, 100, 100));
    c.space.set_geometry(b, Rect::new(50, 50, 100, 100));
    // Focus moved to b when it was mapped; click on the overlap region
    // where a is underneath... first raise a by clicking at (10, 10).
    c.pointer_motion(Point { x: 10, y: 10 });
    let r = c.pointer_button(true, 272);
    assert!(matches!(r, ButtonReply::Forward));
    assert_eq!(c.seat.keyboard_focus, Some(a));
    assert_eq!(*c.space.stack.last().unwrap(), a);
    c.pointer_button(false, 272);
    // Keyboard focus does not follow the mouse: motion alone changes nothing.
    c.pointer_motion(Point { x: 60, y: 60 });
    assert_eq!(c.seat.keyboard_focus, Some(a));
}

#[test]
fn modifier_drag_starts_move_grab_and_swallows_button() {
    let mut c = fresh_core();
    let id = c.new_toplevel(101).unwrap().window;
    c.space.set_geometry(id, Rect::new(0, 0, 100, 100));
    c.pointer_motion(Point { x: 5, y: 5 });
    // Hold the configured modifier, press the drag button over the window.
    let cfg = Config::default();
    c.handle_key_press(cfg.modifier_key_a);
    match c.pointer_button(true, cfg.drag_button) {
        ButtonReply::GrabStarted { window } => assert_eq!(window, id),
        ButtonReply::Forward => panic!("the drag press must be swallowed"),
    }
    assert!(matches!(c.seat.grab, GrabState::Moving { .. }));
}

#[test]
fn keybindings_quit_and_toggle_tiling() {
    let mut c = fresh_core();
    c.new_toplevel(101).unwrap();
    let cfg = Config::default();
    // Without the command modifier the keys are forwarded.
    assert!(matches!(c.handle_key_press(cfg.exit_key), KeyAction::Forward));
    c.handle_key_release(cfg.exit_key);
    c.handle_key_press(cfg.command_key);
    match c.handle_key_press(cfg.tiling_toggle_key) {
        KeyAction::TilingToggled { configures } => {
            assert_eq!(configures.len(), 1);
            assert_eq!(configures[0].size, Some(Size { w: 1200, h: 800 }));
        }
        _ => panic!("expected the tiling toggle"),
    }
    assert!(c.space.tiling);
    assert!(matches!(c.handle_key_press(cfg.exit_key), KeyAction::Quit));
}

#[test]
fn grab_ends_only_when_no_buttons_remain() {
    let mut c = fresh_core();
    let id = c.new_toplevel(101).unwrap().window;
    c.space.set_geometry(id, Rect::new(0, 0, 100, 100));
    c.pointer_motion(Point { x: 5, y: 5 });
    c.pointer_button(true, 272);
    c.pointer_button(true, 273);
    assert!(c.resize_request(
        101,
        Edges { top: true, bottom: false, left: false, right: false }
    ));
    assert!(matches!(c.seat.grab, GrabState::Resizing { .. }));
    // One button is still held: the grab survives.
    c.pointer_button(false, 273);
    assert!(matches!(c.seat.grab, GrabState::Resizing { .. }));
    c.pointer_button(false, 272);
    assert!(matches!(c.seat.grab, GrabState::Idle));
}

#[test]
fn resize_grab_emits_clamped_configure() {
    let mut c = fresh_core();
    let id = c.new_toplevel(101).unwrap().window;
    c.space.set_geometry(id, Rect::new(0, 0, 200, 200));
    c.set_size_bounds(101, Size { w: 150, h: 150 }, Size { w: 300, h: 300 });
    c.pointer_motion(Point { x: 190, y: 190 });
    c.pointer_button(true, 272);
    assert!(c.resize_request(
        101,
        Edges { top: false, bottom: true, left: false, right: true }
    ));
    match c.pointer_motion(Point { x: -500, y: -500 }) {
        MotionReply::Resized { window, configure } => {
            assert_eq!(window, id);
            assert_eq!(configure.surface, 101);
            assert_eq!(configure.size, Some(Size { w: 150, h: 150 }));
        }
        _ => panic!("expected a resize configure"),
    }
    assert_eq!(c.space.windows[0].rect.size, Size { w: 150, h: 150 });
}

#[test]
fn surface_under_respects_output_bounds() {
    let mut c = fresh_core();
    let id = c.new_toplevel(101).unwrap().window;
    // Place the window straddling the right output edge (width 1200).
    c.space.set_geometry(id, Rect::new(1150, 0, 100, 100));
    assert_eq!(c.surface_under(Point { x: 1190, y: 50 }), Some(101));
    // Still inside the window, but beyond the output: nothing is hit.
    assert_eq!(c.surface_under(Point { x: 1210, y: 50 }), None);
    assert_eq!(c.surface_under(Point { x: 0, y: 0 }), None);
}

#[test]
fn explicit_activation_raises_and_focuses() {
    let mut c = fresh_core();
    let a = c.new_toplevel(101).unwrap().window;
    let b = c.new_toplevel(102).unwrap().window;
    assert_eq!(c.seat.keyboard_focus, Some(b));
    assert!(c.activate(101));
    assert_eq!(c.seat.keyboard_focus, Some(a));
    assert_eq!(*c.space.stack.last().unwrap(), a);
    assert!(!c.activate(999));
}

#[test]
fn window_destruction_clears_focus_explicitly() {
    let mut c = fresh_core();
    let a = c.new_toplevel(101).unwrap().window;
    assert_eq!(c.seat.keyboard_focus, Some(a));
    let cfgs = c.destroy_surface(101);
    assert!(cfgs.is_empty());
    assert_eq!(c.seat.keyboard_focus, None);
    assert!(c.space.windows.is_empty());
}
