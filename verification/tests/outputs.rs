use blue_core::dispatcher::{next_retry_delay, plan_tick, INITIAL_RETRY_DELAY_MS, MAX_RETRY_DELAY_MS};
use blue_core::geometry::Size;
use blue_core::output::{
    assign_outputs, select_primary_device, ConnectorInfo, FrameOutcome, FramePlan, GpuDevice,
    Mode, Pipeline,
};

fn mode(w: i32, h: i32) -> Mode {
    Mode { size: Size { w, h }, refresh_mhz: 60_000 }
}

fn connector(id: u64, connected: bool, modes: Vec<Mode>) -> ConnectorInfo {
    ConnectorInfo { id, connected, modes }
}

#[test]
fn primary_device_prefers_render_node() {
    let devices = vec![
        GpuDevice { id: 1, has_render_node: false, has_primary_node: true },
        GpuDevice { id: 2, has_render_node: true, has_primary_node: true },
        GpuDevice { id: 3, has_render_node: true, has_primary_node: false },
    ];
    assert_eq!(select_primary_device(&devices), Some(1));
}

#[test]
fn primary_device_falls_back_to_primary_node() {
    let devices = vec![
        GpuDevice { id: 1, has_render_node: false, has_primary_node: false },
        GpuDevice { id: 2, has_render_node: false, has_primary_node: true },
    ];
    assert_eq!(select_primary_device(&devices), Some(1));
    assert_eq!(select_primary_device(&Vec::new()), None);
}

#[test]
fn crtc_assignment_is_injective() {
    let connectors = vec![
        connector(10, true, vec![mode(1920, 1080)]),
        connector(11, false, vec![mode(800, 600)]),
        connector(12, true, vec![]),
        connector(13, true, vec![mode(2560, 1440), mode(1920, 1080)]),
        connector(14, true, vec![mode(1024, 768)]),
    ];
    let crtcs = vec![7, 8];
    let assigned = assign_outputs(&connectors, &crtcs);
    // Three eligible connectors (10, 13, 14), two CRTCs: one is left
    // unconfigured, already-made bindings stand.
    assert_eq!(assigned.bindings.len(), 2);
    assert_eq!(assigned.unconfigured, 1);
    assert_eq!(assigned.bindings[0].connector, 10);
    assert_eq!(assigned.bindings[0].crtc, 7);
    // The preferred (first) mode is picked.
    assert_eq!(assigned.bindings[1].connector, 13);
    assert_eq!(assigned.bindings[1].mode.size, Size { w: 2560, h: 1440 });
    assert_ne!(assigned.bindings[0].crtc, assigned.bindings[1].crtc);
}

#[test]
fn crtc_assignment_disconnected_and_modeless_are_skipped() {
    let connectors = vec![
        connector(1, false, vec![mode(800, 600)]),
        connector(2, true, vec![]),
    ];
    let assigned = assign_outputs(&connectors, &vec![7, 8, 9]);
    assert_eq!(assigned.bindings.len(), 0);
    assert_eq!(assigned.unconfigured, 0);
}

#[test]
fn at_most_one_frame_in_flight_per_output() {
    let connectors = vec![
        connector(10, true, vec![mode(1920, 1080)]),
        connector(11, true, vec![mode(800, 600)]),
    ];
    let assigned = assign_outputs(&connectors, &vec![7, 8]);
    let mut p = Pipeline::new(&assigned.bindings);
    // First tick: both outputs render, with the initial mode set.
    assert_eq!(p.plan_frame(0), FramePlan::Render { needs_modeset: true });
    p.note_flip_scheduled(0);
    // A second render request while in flight is a no-op: no flip.
    assert_eq!(p.plan_frame(0), FramePlan::Busy);
    assert_eq!(p.plan_frame(0), FramePlan::Busy);
    // The other output is unaffected.
    assert_eq!(p.plan_frame(1), FramePlan::Render { needs_modeset: true });
    // Completion keyed by the matching CRTC clears only that output.
    p.note_flip_scheduled(1);
    assert!(p.note_completion(7));
    assert_eq!(p.plan_frame(0), FramePlan::Render { needs_modeset: false });
    assert_eq!(p.plan_frame(1), FramePlan::Busy);
    // A completion for an unknown CRTC matches nothing.
    assert!(!p.note_completion(99));
}

#[test]
fn session_pause_gates_all_hardware_calls() {
    let connectors = vec![connector(10, true, vec![mode(1920, 1080)])];
    let assigned = assign_outputs(&connectors, &vec![7]);
    let mut p = Pipeline::new(&assigned.bindings);
    p.pause();
    assert_eq!(p.plan_frame(0), FramePlan::Suspended);
    assert_eq!(plan_tick(&p), vec![FramePlan::Suspended]);
    p.resume();
    assert_eq!(p.plan_frame(0), FramePlan::Render { needs_modeset: true });
}

#[test]
fn damage_tracker_is_sized_to_the_mode() {
    let connectors = vec![connector(10, true, vec![mode(2560, 1440)])];
    let assigned = assign_outputs(&connectors, &vec![7]);
    let p = Pipeline::new(&assigned.bindings);
    assert_eq!(p.slots[0].damage_size, Size { w: 2560, h: 1440 });
}

#[test]
fn plan_tick_reports_every_output() {
    let connectors = vec![
        connector(10, true, vec![mode(1920, 1080)]),
        connector(11, true, vec![mode(800, 600)]),
    ];
    let assigned = assign_outputs(&connectors, &vec![7, 8]);
    let mut p = Pipeline::new(&assigned.bindings);
    p.note_flip_scheduled(1);
    assert_eq!(
        plan_tick(&p),
        vec![FramePlan::Render { needs_modeset: true }, FramePlan::Busy]
    );
}

#[test]
fn failed_frames_are_dropped_and_isolated() {
    let connectors = vec![
        connector(10, true, vec![mode(1920, 1080)]),
        connector(11, true, vec![mode(800, 600)]),
    ];
    let assigned = assign_outputs(&connectors, &vec![7, 8]);
    let mut p = Pipeline::new(&assigned.bindings);
    p.note_flip_scheduled(1);
    // Every failure kind drops the frame: no flag set, the output is
    // simply retried on the next tick, and other outputs are untouched.
    for outcome in [
        FrameOutcome::BufferUnavailable,
        FrameOutcome::ImportFailed,
        FrameOutcome::RenderFailed,
        FrameOutcome::FlipFailed,
    ] {
        p.note_frame_outcome(0, outcome);
        assert_eq!(p.plan_frame(0), FramePlan::Render { needs_modeset: true });
        assert_eq!(p.plan_frame(1), FramePlan::Busy);
    }
    // The success path sets the in-flight flag and performs the mode set
    // exactly once: later frames only page-flip.
    p.note_frame_outcome(0, FrameOutcome::FlipScheduled);
    assert_eq!(p.plan_frame(0), FramePlan::Busy);
    assert!(p.note_completion(7));
    assert_eq!(p.plan_frame(0), FramePlan::Render { needs_modeset: false });
}

#[test]
fn retry_backoff_doubles_up_to_the_bound() {
    let mut d = INITIAL_RETRY_DELAY_MS;
    d = next_retry_delay(d);
    assert_eq!(d, 200);
    d = next_retry_delay(d);
    assert_eq!(d, 400);
    d = next_retry_delay(next_retry_delay(d));
    assert_eq!(d, MAX_RETRY_DELAY_MS);
    // Bounded: the interval never grows past the cap.
    assert_eq!(next_retry_delay(d), MAX_RETRY_DELAY_MS);
}
