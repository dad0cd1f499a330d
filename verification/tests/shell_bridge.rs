use blue_core::bridge::BridgeError;
use blue_core::compositor::{Compositor, CoreError};
use blue_core::config::{Config, PlacementPolicy};
use blue_core::geometry::{Point, Rect, Size};
use blue_core::shell::{AnchorX, AnchorY, Positioner, RoleError};
use blue_core::space::MapError;

fn core_on(w: i32, h: i32) -> Compositor {
    Compositor::new(Config::default(), Size { w, h }, &Vec::new())
}

/// A positioner attached to the anchor's top-left corner, no constraints.
fn plain_positioner(anchor: Rect, offset: Point, size: Size) -> Positioner {
    Positioner {
        anchor,
        anchor_x: AnchorX::Left,
        anchor_y: AnchorY::Top,
        offset,
        size,
        slide_x: false,
        slide_y: false,
    }
}

#[test]
fn toplevel_gets_activated_configure_then_fullscreen() {
    // A client requests a toplevel role: the core inserts it into the
    // scene and answers with an "activated" configure.
    let mut c = core_on(1920, 1080);
    let reply = c.new_toplevel(101).expect("the toplevel must be accepted");
    assert_eq!(c.space.windows.len(), 1);
    assert_eq!(reply.configures.len(), 1);
    assert!(reply.configures[0].activated);
    assert_eq!(reply.configures[0].surface, 101);
    // The client then requests fullscreen on the 1920x1080 output: the
    // window is resized to the output and marked fullscreen.
    let cfg = c.fullscreen_request(101).expect("the window exists");
    assert_eq!(cfg.size, Some(Size { w: 1920, h: 1080 }));
    assert!(cfg.fullscreen);
    assert_eq!(c.space.windows[0].rect.size, Size { w: 1920, h: 1080 });
    assert!(c.space.windows[0].fullscreen);
}

#[test]
fn fullscreen_is_independent_of_legacy_windows_on_the_output() {
    // Same request, but the output also hosts a legacy-bridge window.
    let mut c = core_on(1920, 1080);
    c.bridge_start_wm().unwrap();
    c.bridge_new_window(501, 901, false, Rect::new(5, 5, 300, 200)).unwrap();
    c.bridge_map_window(501).unwrap();
    let reply = c.new_toplevel(101).unwrap();
    assert!(reply.configures[0].activated);
    let cfg = c.fullscreen_request(101).unwrap();
    assert_eq!(cfg.size, Some(Size { w: 1920, h: 1080 }));
    assert!(cfg.fullscreen);
}

#[test]
fn double_role_is_a_protocol_violation() {
    let mut c = core_on(800, 600);
    c.new_toplevel(101).unwrap();
    let r = c.new_toplevel(101);
    assert!(matches!(r, Err(CoreError::Role(RoleError::RoleAlreadySet))));
    // Other role kinds collide with it just the same.
    let p = plain_positioner(
        Rect::new(0, 0, 10, 10),
        Point { x: 0, y: 0 },
        Size { w: 50, h: 50 },
    );
    assert!(matches!(
        c.new_popup(101, 999, p),
        Err(CoreError::Role(RoleError::RoleAlreadySet))
    ));
    assert!(matches!(
        c.new_layer_surface(101, 1, 30),
        Err(CoreError::Role(RoleError::RoleAlreadySet))
    ));
}

#[test]
fn toplevel_rejected_on_zero_area_output() {
    let mut c = core_on(0, 0);
    let r = c.new_toplevel(101);
    assert!(matches!(r, Err(CoreError::Scene(MapError::EmptyOutput))));
}

#[test]
fn toplevel_rejected_when_identities_exhausted() {
    let mut c = core_on(800, 600);
    c.next_window_id = u64::MAX;
    let r = c.new_toplevel(101);
    assert!(matches!(r, Err(CoreError::CapacityExhausted)));
}

#[test]
fn cascade_placement_advances_per_window() {
    let mut c = core_on(1200, 800);
    let a = c.new_toplevel(101).unwrap().window;
    let b = c.new_toplevel(102).unwrap().window;
    let d = c.new_toplevel(103).unwrap().window;
    assert_eq!(c.space.windows[0].rect.pos, Point { x: 20, y: 20 });
    assert_eq!(c.space.windows[1].rect.pos, Point { x: 40, y: 40 });
    assert_eq!(c.space.windows[2].rect.pos, Point { x: 60, y: 60 });
    assert!(a < b && b < d);
}

#[test]
fn randomized_placement_stays_in_the_region() {
    let mut config = Config::default();
    config.placement = PlacementPolicy::Randomized;
    let mut c = Compositor::new(config, Size { w: 1200, h: 800 }, &Vec::new());
    for surface in 200..230u64 {
        c.new_toplevel(surface).unwrap();
        let w = c.space.windows.last().unwrap();
        assert!(w.rect.pos.x >= 0 && w.rect.pos.x < 800);
        assert!(w.rect.pos.y >= 0 && w.rect.pos.y < 600);
    }
}

#[test]
fn tiling_after_each_map_while_active() {
    let mut c = core_on(1200, 800);
    c.toggle_tiling();
    c.new_toplevel(101).unwrap();
    c.new_toplevel(102).unwrap();
    let reply = c.new_toplevel(103).unwrap();
    // The activated configure comes first, then one resize configure per
    // arranged window.
    assert_eq!(reply.configures.len(), 4);
    assert_eq!(reply.configures[1].size, Some(Size { w: 400, h: 800 }));
    let xs: Vec<i32> = c.space.windows.iter().map(|w| w.rect.pos.x).collect();
    assert_eq!(xs, vec![0, 400, 800]);
}

#[test]
fn legacy_windows_join_the_tiling_layout() {
    let mut c = core_on(1200, 800);
    c.toggle_tiling();
    c.new_toplevel(101).unwrap();
    c.bridge_start_wm().unwrap();
    c.bridge_new_window(501, 901, false, Rect::new(0, 0, 100, 100)).unwrap();
    let reply = c.bridge_map_window(501).unwrap();
    // The acknowledgement comes first, then one configure per window.
    assert_eq!(reply.configures.len(), 3);
    let xs: Vec<i32> = c.space.windows.iter().map(|w| w.rect.pos.x).collect();
    assert_eq!(xs, vec![0, 600]);
}

#[test]
fn decoration_requests_always_answer_server_side() {
    let c = core_on(800, 600);
    let cfg = c.decoration_request(101);
    assert!(cfg.server_side_decorations);
    assert_eq!(cfg.surface, 101);
}

#[test]
fn popup_chain_dismisses_in_order() {
    let mut c = core_on(800, 600);
    c.new_toplevel(101).unwrap();
    let p = plain_positioner(
        Rect::new(10, 10, 20, 20),
        Point { x: 5, y: 5 },
        Size { w: 100, h: 80 },
    );
    let cfg = c.new_popup(201, 101, p).unwrap();
    assert_eq!(cfg.size, Some(Size { w: 100, h: 80 }));
    assert_eq!(c.popups[0].geometry, Rect::new(15, 15, 100, 80));
    c.new_popup(202, 201, p).unwrap();
    // Dismissal unwinds the chain from the top.
    assert_eq!(c.dismiss_topmost_popup(), Some(202));
    assert_eq!(c.dismiss_topmost_popup(), Some(201));
    assert_eq!(c.dismiss_topmost_popup(), None);
    // A dismissed surface may take a role again.
    assert!(c.new_popup(201, 101, p).is_ok());
}

#[test]
fn popup_positioner_out_of_range_is_rejected() {
    let mut c = core_on(800, 600);
    c.new_toplevel(101).unwrap();
    let p = plain_positioner(
        Rect::new(i32::MAX, 0, 1, 1),
        Point { x: 1, y: 0 },
        Size { w: 10, h: 10 },
    );
    assert!(matches!(c.new_popup(201, 101, p), Err(CoreError::PositionOutOfRange)));
}

#[test]
fn popup_anchor_edges_select_the_attachment_point() {
    let mut c = core_on(1920, 1080);
    c.new_toplevel(101).unwrap();
    // Anchor rect 40x20 at (100, 50); attach at its bottom-right corner.
    let p = Positioner {
        anchor: Rect::new(100, 50, 40, 20),
        anchor_x: AnchorX::Right,
        anchor_y: AnchorY::Bottom,
        offset: Point { x: 3, y: 4 },
        size: Size { w: 60, h: 30 },
        slide_x: false,
        slide_y: false,
    };
    c.new_popup(201, 101, p).unwrap();
    assert_eq!(c.popups[0].geometry, Rect::new(143, 74, 60, 30));
    // Center anchoring halves the anchor extent.
    let q = Positioner { anchor_x: AnchorX::Center, anchor_y: AnchorY::Center, ..p };
    c.new_popup(202, 101, q).unwrap();
    assert_eq!(c.popups[1].geometry, Rect::new(123, 64, 60, 30));
}

#[test]
fn popup_slide_constraint_keeps_it_on_the_output() {
    let mut c = core_on(1920, 1080);
    let id = c.new_toplevel(101).unwrap().window;
    c.space.set_geometry(id, Rect::new(1800, 0, 100, 100));
    // Anchored at the parent's local (80, 0): absolute x 1880, popup 200
    // wide — sliding pulls it back so it ends at the output edge (1720),
    // which is -80 relative to the parent.
    let p = Positioner {
        anchor: Rect::new(80, 0, 10, 10),
        anchor_x: AnchorX::Left,
        anchor_y: AnchorY::Top,
        offset: Point { x: 0, y: 0 },
        size: Size { w: 200, h: 50 },
        slide_x: true,
        slide_y: false,
    };
    c.new_popup(201, 101, p).unwrap();
    assert_eq!(c.popups[0].geometry.pos, Point { x: -80, y: 0 });
    // A popup wider than the output lands on the near edge.
    let q = Positioner { size: Size { w: 4000, h: 50 }, ..p };
    c.new_popup(202, 101, q).unwrap();
    assert_eq!(c.popups[1].geometry.pos, Point { x: -1800, y: 0 });
}

#[test]
fn destroying_a_parent_dismisses_its_popups() {
    let mut c = core_on(1920, 1080);
    c.new_toplevel(101).unwrap();
    c.new_toplevel(102).unwrap();
    let p = plain_positioner(
        Rect::new(0, 0, 10, 10),
        Point { x: 0, y: 0 },
        Size { w: 20, h: 20 },
    );
    c.new_popup(201, 101, p).unwrap();
    c.new_popup(202, 101, p).unwrap();
    c.new_popup(301, 102, p).unwrap();
    c.destroy_surface(101);
    // Both popups of the destroyed parent are gone, roles released; the
    // other toplevel's popup is untouched.
    let left: Vec<u64> = c.popups.iter().map(|q| q.surface).collect();
    assert_eq!(left, vec![301]);
    assert!(c.new_popup(201, 102, p).is_ok());
}

#[test]
fn destroying_a_legacy_surface_unlinks_the_bridge_entry() {
    let mut c = core_on(1920, 1080);
    c.bridge_start_wm().unwrap();
    c.bridge_new_window(501, 901, false, Rect::new(0, 0, 100, 100)).unwrap();
    c.bridge_map_window(501).unwrap();
    assert!(c.bridge.windows[0].mapped);
    assert!(c.bridge.windows[0].scene_window.is_some());
    // The client destroys the proxy surface directly: the scene window
    // goes, and the bridge entry is unmapped and unlinked, not stale.
    c.destroy_surface(901);
    assert!(c.space.windows.is_empty());
    assert!(!c.bridge.windows[0].mapped);
    assert_eq!(c.bridge.windows[0].scene_window, None);
}

#[test]
fn layer_surface_is_bound_to_one_output() {
    let mut c = core_on(800, 600);
    c.new_layer_surface(301, 1, 28).unwrap();
    assert_eq!(c.layers.len(), 1);
    assert_eq!(c.layers[0].output, 1);
    assert_eq!(c.layers[0].exclusive_zone, 28);
}

#[test]
fn render_elements_draw_layers_below_windows() {
    let mut c = core_on(1200, 800);
    let a = c.new_toplevel(101).unwrap().window;
    let b = c.new_toplevel(102).unwrap().window;
    c.space.set_geometry(a, Rect::new(0, 0, 10, 10));
    c.space.set_geometry(b, Rect::new(20, 20, 10, 10));
    c.new_layer_surface(301, 1, 28).unwrap();
    assert!(c.activate(101));
    let elements = c.render_elements();
    // Draw order: the layer surface first (below), then the windows bottom
    // to top in stacking order.
    let surfaces: Vec<u64> = elements.iter().map(|e| e.surface).collect();
    assert_eq!(surfaces, vec![301, 102, 101]);
    assert_eq!(elements[0].placement, None);
    assert_eq!(elements[2].placement, Some(Rect::new(0, 0, 10, 10)));
}

#[test]
fn layer_commit_is_directed_to_its_output() {
    let mut c = core_on(800, 600);
    c.new_layer_surface(301, 4, 28).unwrap();
    assert_eq!(c.layer_output(301), Some(4));
    assert_eq!(c.layer_output(999), None);
}

#[test]
fn initial_configure_targets_windows_and_popups() {
    let mut c = core_on(800, 600);
    c.new_toplevel(101).unwrap();
    assert!(c.initial_configure(101).is_some());
    assert!(c.initial_configure(999).is_none());
}

#[test]
fn second_window_manager_is_rejected() {
    let mut c = core_on(800, 600);
    c.bridge_start_wm().unwrap();
    assert!(matches!(
        c.bridge_start_wm(),
        Err(CoreError::Bridge(BridgeError::WmAlreadyActive))
    ));
}

#[test]
fn reentrant_legacy_window_creation_is_rejected() {
    let mut c = core_on(800, 600);
    c.bridge_start_wm().unwrap();
    c.bridge_new_window(501, 901, false, Rect::new(0, 0, 100, 100)).unwrap();
    assert!(matches!(
        c.bridge_new_window(501, 902, false, Rect::new(0, 0, 50, 50)),
        Err(CoreError::Bridge(BridgeError::DuplicateWindow))
    ));
}

#[test]
fn legacy_window_invisible_until_mapped() {
    // An unmapped legacy window is created at its intended location; a
    // pointer hit test there finds nothing until map_window completes.
    let mut c = core_on(1920, 1080);
    c.bridge_start_wm().unwrap();
    c.bridge_new_window(501, 901, false, Rect::new(100, 100, 300, 200)).unwrap();
    assert_eq!(c.space.element_at(Point { x: 150, y: 150 }), None);
    let reply = c.bridge_map_window(501).unwrap();
    let id = reply.scene_window.expect("a normal window enters the scene");
    assert_eq!(c.space.element_at(Point { x: 150, y: 150 }), Some(id));
    // The acknowledgement carries the requested geometry.
    assert_eq!(reply.configures[0].size, Some(Size { w: 300, h: 200 }));
}

#[test]
fn mapping_a_legacy_window_twice_fails() {
    let mut c = core_on(800, 600);
    c.bridge_start_wm().unwrap();
    c.bridge_new_window(501, 901, false, Rect::new(0, 0, 100, 100)).unwrap();
    c.bridge_map_window(501).unwrap();
    assert!(matches!(
        c.bridge_map_window(501),
        Err(CoreError::Bridge(BridgeError::AlreadyMapped))
    ));
    assert!(matches!(
        c.bridge_map_window(999),
        Err(CoreError::Bridge(BridgeError::UnknownWindow))
    ));
}

#[test]
fn override_redirect_windows_are_tracked_not_placed() {
    let mut c = core_on(800, 600);
    c.bridge_start_wm().unwrap();
    c.bridge_new_window(501, 901, true, Rect::new(10, 10, 50, 50)).unwrap();
    let reply = c.bridge_map_window(501).unwrap();
    assert_eq!(reply.scene_window, None);
    assert!(c.space.windows.is_empty());
    assert!(c.bridge.windows[0].mapped);
    // It stays invisible to scene hit testing.
    assert_eq!(c.space.element_at(Point { x: 20, y: 20 }), None);
}

#[test]
fn legacy_configure_request_is_acknowledged() {
    let mut c = core_on(800, 600);
    c.bridge_start_wm().unwrap();
    c.bridge_new_window(501, 901, false, Rect::new(0, 0, 100, 100)).unwrap();
    let ack = c.bridge_configure_request(501, Rect::new(30, 40, 200, 150)).unwrap();
    assert_eq!(ack.surface, 901);
    assert_eq!(ack.size, Some(Size { w: 200, h: 150 }));
    // The recorded geometry is used when the window is mapped.
    let reply = c.bridge_map_window(501).unwrap();
    assert!(reply.scene_window.is_some());
    assert_eq!(c.space.windows[0].rect, Rect::new(30, 40, 200, 150));
    assert!(matches!(
        c.bridge_configure_request(999, Rect::new(0, 0, 1, 1)),
        Err(CoreError::Bridge(BridgeError::UnknownWindow))
    ));
}

#[test]
fn legacy_unmap_and_destroy_clean_up() {
    let mut c = core_on(800, 600);
    c.bridge_start_wm().unwrap();
    c.bridge_new_window(501, 901, false, Rect::new(0, 0, 100, 100)).unwrap();
    c.bridge_map_window(501).unwrap();
    assert_eq!(c.space.windows.len(), 1);
    c.bridge_unmapped(501);
    assert_eq!(c.space.windows.len(), 0);
    assert!(!c.bridge.windows[0].mapped);
    c.bridge_destroyed(501);
    assert!(c.bridge.windows.is_empty());
}

#[test]
fn unknown_surface_requests_are_refused() {
    let mut c = core_on(800, 600);
    assert!(matches!(c.fullscreen_request(999), Err(CoreError::UnknownSurface)));
    assert!(matches!(c.maximize_request(999), Err(CoreError::UnknownSurface)));
    let p = plain_positioner(
        Rect::new(0, 0, 1, 1),
        Point { x: 0, y: 0 },
        Size { w: 1, h: 1 },
    );
    assert!(matches!(c.reposition_popup(999, p), Err(CoreError::UnknownSurface)));
}

#[test]
fn maximize_marks_and_sizes_the_window() {
    let mut c = core_on(1024, 768);
    c.new_toplevel(101).unwrap();
    let cfg = c.maximize_request(101).unwrap();
    assert_eq!(cfg.size, Some(Size { w: 1024, h: 768 }));
    assert!(cfg.maximized && !cfg.fullscreen);
    assert!(c.space.windows[0].maximized);
}
