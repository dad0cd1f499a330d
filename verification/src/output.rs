//! The hardware output pipeline, modeled over plain handles: primary GPU
//! selection, injective connector-to-CRTC assignment, and the per-output
//! render/flip cycle with its frame-in-flight pacing and the session
//! pause/resume gate.
//!
//! The actual device calls (buffer allocation, rendering, mode set, page
//! flip) happen outside this crate; the pipeline here decides, for each
//! dispatcher tick, whether and how an output may be serviced, and accounts
//! for the outcomes those calls report back.

use vstd::prelude::*;

use crate::geometry::Size;

verus! {

/// A GPU device as enumerated from the platform.
#[derive(Clone, Copy, Debug, PartialEq, Eq, Structural)]
pub struct GpuDevice {
    pub id: u64,
    /// Whether the device exposes a render node.
    pub has_render_node: bool,
    /// Whether the device exposes a primary node.
    pub has_primary_node: bool,
}

/// A display mode advertised by a connector.
#[derive(Clone, Copy, Debug, PartialEq, Eq, Structural)]
pub struct Mode {
    pub size: Size,
    /// Refresh rate in millihertz.
    pub refresh_mhz: i32,
}

/// A physical port as reported by the mode-setting subsystem.
pub struct ConnectorInfo {
    pub id: u64,
    pub connected: bool,
    /// Advertised modes, preferred first.
    pub modes: Vec<Mode>,
}

/// A recorded one-to-one (output, CRTC, connector) binding.
#[derive(Clone, Copy, Debug, PartialEq, Eq, Structural)]
pub struct OutputBinding {
    pub crtc: u64,
    pub connector: u64,
    pub mode: Mode,
}

/// Select the primary GPU device: the first exposing a render node, or,
/// when none does, the first exposing a primary node. None when no device
/// qualifies — a fatal initialization condition for the caller.
pub fn select_primary_device(devices: &Vec<GpuDevice>) -> (r: Option<usize>)
    ensures
        match r {
            Some(i) => {
                &&& i < devices@.len()
                &&& (devices@[i as int].has_render_node || devices@[i as int].has_primary_node)
                &&& devices@[i as int].has_render_node ==> forall|j: int|
                    0 <= j < i ==> !(#[trigger] devices@[j]).has_render_node
                &&& !devices@[i as int].has_render_node ==> {
                    &&& forall|j: int| 0 <= j < devices@.len() ==> !(#[trigger] devices@[j]).has_render_node
                    &&& forall|j: int| 0 <= j < i ==> !(#[trigger] devices@[j]).has_primary_node
                }
            },
            None => forall|j: int|
                0 <= j < devices@.len() ==> !(#[trigger] devices@[j]).has_render_node && !(
                #[trigger] devices@[j]).has_primary_node,
        },
{
    let mut i: usize = 0;
    while i < devices.len()
        invariant
            i <= devices@.len(),
            forall|j: int| 0 <= j < i ==> !(#[trigger] devices@[j]).has_render_node,
        decreases devices@.len() - i,
    {
        if devices[i].has_render_node {
            return Some(i);
        }
        i = i + 1;
    }
    let mut k: usize = 0;
    while k < devices.len()
        invariant
            k <= devices@.len(),
            forall|j: int| 0 <= j < devices@.len() ==> !(#[trigger] devices@[j]).has_render_node,
            forall|j: int| 0 <= j < k ==> !(#[trigger] devices@[j]).has_primary_node,
        decreases devices@.len() - k,
    {
        if devices[k].has_primary_node {
            return Some(k);
        }
        k = k + 1;
    }
    None
}

/// Whether a connector takes part in output configuration: it must be
/// connected and advertise at least one mode.
pub open spec fn eligible(c: ConnectorInfo) -> bool {
    c.connected && c.modes@.len() > 0
}

/// The eligible connectors of `cs`, in order.
pub open spec fn eligibles(cs: Seq<ConnectorInfo>) -> Seq<ConnectorInfo>
    decreases cs.len(),
{
    if cs.len() == 0 {
        Seq::empty()
    } else if eligible(cs.last()) {
        eligibles(cs.drop_last()).push(cs.last())
    } else {
        eligibles(cs.drop_last())
    }
}

/// How `eligibles` grows with one more connector.
proof fn lemma_eligibles_step(cs: Seq<ConnectorInfo>, i: int)
    requires
        0 <= i < cs.len(),
    ensures
        eligibles(cs.take(i + 1)) == if eligible(cs[i]) {
            eligibles(cs.take(i)).push(cs[i])
        } else {
            eligibles(cs.take(i))
        },
{
    assert(cs.take(i + 1).drop_last() =~= cs.take(i));
    assert(cs.take(i + 1).last() == cs[i]);
}

/// The result of configuring outputs against the available CRTCs.
pub struct AssignedOutputs {
    /// One binding per configured output.
    pub bindings: Vec<OutputBinding>,
    /// Eligible connectors left unconfigured because the CRTCs ran out — a
    /// resource-exhaustion condition the caller reports as a warning.
    pub unconfigured: usize,
}

/// Bind each connected connector that advertises a mode to the next free
/// CRTC, picking the connector's first (preferred) mode. CRTCs are consumed
/// in order, so the assignment is injective; when they run out, the excess
/// connectors are counted, not configured, and already-made bindings stand.
pub fn assign_outputs(connectors: &Vec<ConnectorInfo>, crtcs: &Vec<u64>) -> (r: AssignedOutputs)
    requires
        forall|i: int, j: int|
            0 <= i < j < crtcs@.len() ==> #[trigger] crtcs@[i] != #[trigger] crtcs@[j],
    ensures
        ({
            let elig = eligibles(connectors@);
            &&& r.bindings@.len() == if elig.len() <= crtcs@.len() {
                elig.len() as int
            } else {
                crtcs@.len() as int
            }
            &&& forall|k: int|
                0 <= k < r.bindings@.len() ==> {
                    &&& (#[trigger] r.bindings@[k]).connector == elig[k].id
                    &&& r.bindings@[k].mode == elig[k].modes@[0]
                    &&& r.bindings@[k].crtc == crtcs@[k]
                }
            &&& r.unconfigured == elig.len() - r.bindings@.len()
            &&& forall|k: int, l: int|
                0 <= k < l < r.bindings@.len() ==> (#[trigger] r.bindings@[k]).crtc != (
                #[trigger] r.bindings@[l]).crtc
        }),
{
    let mut bindings: Vec<OutputBinding> = Vec::new();
    let mut unconfigured: usize = 0;
    let mut i: usize = 0;
    proof {
        assert(connectors@.take(0) =~= Seq::<ConnectorInfo>::empty());
    }
    while i < connectors.len()
        invariant
            i <= connectors@.len(),
            forall|a: int, b: int|
                0 <= a < b < crtcs@.len() ==> #[trigger] crtcs@[a] != #[trigger] crtcs@[b],
            bindings@.len() + unconfigured == eligibles(connectors@.take(i as int)).len(),
            bindings@.len() + unconfigured <= i,
            bindings@.len() <= crtcs@.len(),
            unconfigured > 0 ==> bindings@.len() == crtcs@.len(),
            forall|k: int|
                0 <= k < bindings@.len() ==> {
                    &&& (#[trigger] bindings@[k]).connector == eligibles(
                        connectors@.take(i as int),
                    )[k].id
                    &&& bindings@[k].mode == eligibles(connectors@.take(i as int))[k].modes@[0]
                    &&& bindings@[k].crtc == crtcs@[k]
                },
        decreases connectors@.len() - i,
    {
        proof {
            lemma_eligibles_step(connectors@, i as int);
        }
        let c = &connectors[i];
        if c.connected && c.modes.len() > 0 {
            if bindings.len() < crtcs.len() {
                let b = OutputBinding { crtc: crtcs[bindings.len()], connector: c.id, mode: c.modes[0] };
                bindings.push(b);
            } else {
                unconfigured = unconfigured + 1;
            }
        }
        i = i + 1;
        proof {
            assert(connectors@.take(i as int) == connectors@.take(i as int - 1 + 1));
        }
    }
    proof {
        assert(connectors@.take(connectors@.len() as int) =~= connectors@);
    }
    AssignedOutputs { bindings, unconfigured }
}

/// Per-output render state on the hardware path.
#[derive(Clone, Copy, Debug, PartialEq, Eq, Structural)]
pub struct OutputSlot {
    pub binding: OutputBinding,
    /// Dimensions of this output's damage tracker, sized to its mode.
    pub damage_size: Size,
    /// Whether a page flip has been scheduled and not yet completed.
    pub in_flight: bool,
    /// Whether the initial mode set for this output has been performed.
    pub configured: bool,
}

/// What the dispatcher may do for an output on this tick.
#[derive(Clone, Copy, Debug, PartialEq, Eq, Structural)]
pub enum FramePlan {
    /// A frame is already in flight: servicing the output again now is a
    /// no-op; no second flip may be scheduled.
    Busy,
    /// The session is paused: no hardware call may be issued at all.
    Suspended,
    /// Render and schedule a flip; on the first frame, perform the initial
    /// mode set before flipping.
    Render { needs_modeset: bool },
}

/// How one tick's render/flip cycle ended for an output, as the hardware
/// calls report it.
#[derive(Clone, Copy, Debug, PartialEq, Eq, Structural)]
pub enum FrameOutcome {
    /// The allocator had no buffer to hand out.
    BufferUnavailable,
    /// The buffer could not be described or bound as a render target.
    ImportFailed,
    /// The damage-tracked render pass failed.
    RenderFailed,
    /// Promoting the buffer or scheduling the page flip failed.
    FlipFailed,
    /// The page flip was scheduled; the frame is in flight.
    FlipScheduled,
}

/// The per-display hardware path: the recorded output bindings plus the
/// pacing and session state that gate every hardware call.
pub struct Pipeline {
    pub slots: Vec<OutputSlot>,
    /// Set between a session pause notification and the matching resume;
    /// while set, no device call may be issued (the handle may be revoked).
    pub suspended: bool,
}

impl Pipeline {
    /// Well-formedness: distinct outputs hold distinct CRTCs, and each
    /// damage tracker is sized to its output's mode.
    pub open spec fn wf(self) -> bool {
        &&& forall|i: int, j: int|
            0 <= i < j < self.slots@.len() ==> (#[trigger] self.slots@[i]).binding.crtc != (
            #[trigger] self.slots@[j]).binding.crtc
        &&& forall|i: int|
            0 <= i < self.slots@.len() ==> (#[trigger] self.slots@[i]).damage_size
                == self.slots@[i].binding.mode.size
    }

    /// Build the pipeline from the recorded bindings: one slot per output,
    /// no frame in flight, nothing mode-set yet, session live.
    pub fn new(bindings: &Vec<OutputBinding>) -> (p: Pipeline)
        requires
            forall|i: int, j: int|
                0 <= i < j < bindings@.len() ==> (#[trigger] bindings@[i]).crtc != (
                #[trigger] bindings@[j]).crtc,
        ensures
            p.wf(),
            !p.suspended,
            p.slots@.len() == bindings@.len(),
            forall|i: int|
                0 <= i < bindings@.len() ==> (#[trigger] p.slots@[i]) == (OutputSlot {
                    binding: bindings@[i],
                    damage_size: bindings@[i].mode.size,
                    in_flight: false,
                    configured: false,
                }),
    {
        let mut slots: Vec<OutputSlot> = Vec::new();
        let mut i: usize = 0;
        while i < bindings.len()
            invariant
                i <= bindings@.len(),
                slots@.len() == i,
                forall|j: int|
                    0 <= j < i ==> (#[trigger] slots@[j]) == (OutputSlot {
                        binding: bindings@[j],
                        damage_size: bindings@[j].mode.size,
                        in_flight: false,
                        configured: false,
                    }),
            decreases bindings@.len() - i,
        {
            let b = bindings[i];
            slots.push(
                OutputSlot { binding: b, damage_size: b.mode.size, in_flight: false, configured: false },
            );
            i = i + 1;
        }
        Pipeline { slots, suspended: false }
    }

    /// What `plan_frame` decides for slot `i`.
    pub open spec fn spec_plan(self, i: int) -> FramePlan {
        if self.suspended {
            FramePlan::Suspended
        } else if self.slots@[i].in_flight {
            FramePlan::Busy
        } else {
            FramePlan::Render { needs_modeset: !self.slots@[i].configured }
        }
    }

    /// Decide whether output `i` may be serviced this tick. Never touches
    /// state: an in-flight or suspended output is simply skipped.
    pub fn plan_frame(&self, i: usize) -> (r: FramePlan)
        requires
            i < self.slots@.len(),
        ensures
            r == self.spec_plan(i as int),
    {
        if self.suspended {
            FramePlan::Suspended
        } else if self.slots[i].in_flight {
            FramePlan::Busy
        } else {
            FramePlan::Render { needs_modeset: !self.slots[i].configured }
        }
    }

    /// Account for how this tick's render/flip cycle ended on output `i`.
    /// Only a scheduled flip changes state: the output is then mode-set
    /// with a frame in flight. Every failure — no buffer, import refused,
    /// render error, flip error — drops this output's frame and nothing
    /// else: no retry storm, no effect on other outputs; the output is
    /// retried naturally on the next tick.
    pub fn note_frame_outcome(&mut self, i: usize, outcome: FrameOutcome)
        requires
            old(self).wf(),
            i < old(self).slots@.len(),
            !old(self).slots@[i as int].in_flight,
            !old(self).suspended,
        ensures
            final(self).wf(),
            final(self).suspended == old(self).suspended,
            outcome == FrameOutcome::FlipScheduled ==> final(self).slots@ == old(
                self,
            ).slots@.update(
                i as int,
                OutputSlot { in_flight: true, configured: true, ..old(self).slots@[i as int] },
            ),
            outcome != FrameOutcome::FlipScheduled ==> final(self).slots@ == old(self).slots@,
    {
        match outcome {
            FrameOutcome::FlipScheduled => {
                self.note_flip_scheduled(i);
            },
            _ => {},
        }
    }

    /// Account for a successfully scheduled page flip on output `i`: the
    /// output is now mode-set and has a frame in flight until the hardware
    /// reports completion. A flip is only ever issued for an output with
    /// no frame in flight and a live session — so no output can have two
    /// frames in flight.
    pub fn note_flip_scheduled(&mut self, i: usize)
        requires
            old(self).wf(),
            i < old(self).slots@.len(),
            !old(self).slots@[i as int].in_flight,
            !old(self).suspended,
        ensures
            final(self).wf(),
            final(self).suspended == old(self).suspended,
            final(self).slots@ == old(self).slots@.update(
                i as int,
                OutputSlot { in_flight: true, configured: true, ..old(self).slots@[i as int] },
            ),
    {
        let s = self.slots[i];
        self.slots.set(i, OutputSlot { in_flight: true, configured: true, ..s });
    }

    /// Account for a hardware completion event, keyed by CRTC: the matching
    /// output (if any) no longer has a frame in flight, permitting its next
    /// frame. Other outputs are untouched. Returns whether a slot matched.
    pub fn note_completion(&mut self, crtc: u64) -> (found: bool)
        requires
            old(self).wf(),
        ensures
            final(self).wf(),
            final(self).suspended == old(self).suspended,
            final(self).slots@.len() == old(self).slots@.len(),
            forall|j: int|
                0 <= j < old(self).slots@.len() ==> (#[trigger] final(self).slots@[j]) == if old(
                    self,
                ).slots@[j].binding.crtc == crtc {
                    OutputSlot { in_flight: false, ..old(self).slots@[j] }
                } else {
                    old(self).slots@[j]
                },
            found == exists|j: int|
                0 <= j < old(self).slots@.len() && (#[trigger] old(self).slots@[j]).binding.crtc
                    == crtc,
    {
        let mut i: usize = 0;
        while i < self.slots.len()
            invariant
                old(self).wf(),
                self.suspended == old(self).suspended,
                i <= self.slots@.len(),
                self.slots@.len() == old(self).slots@.len(),
                forall|j: int|
                    0 <= j < old(self).slots@.len() ==> (#[trigger] self.slots@[j]) == if old(
                        self,
                    ).slots@[j].binding.crtc == crtc && j < i {
                        OutputSlot { in_flight: false, ..old(self).slots@[j] }
                    } else {
                        old(self).slots@[j]
                    },
                forall|j: int|
                    0 <= j < i ==> (#[trigger] old(self).slots@[j]).binding.crtc != crtc,
            decreases self.slots@.len() - i,
        {
            if self.slots[i].binding.crtc == crtc {
                let s = self.slots[i];
                self.slots.set(i, OutputSlot { in_flight: false, ..s });
                proof {
                    assert forall|j: int|
                        0 <= j < old(self).slots@.len() implies (#[trigger] self.slots@[j]) == if old(
                        self,
                    ).slots@[j].binding.crtc == crtc {
                        OutputSlot { in_flight: false, ..old(self).slots@[j] }
                    } else {
                        old(self).slots@[j]
                    } by {
                        if j != i as int && old(self).slots@[j].binding.crtc == crtc {
                            // CRTCs are injective across slots, so no second
                            // slot can match.
                            if j < i as int {
                                assert(old(self).slots@[j].binding.crtc != old(
                                    self,
                                ).slots@[i as int].binding.crtc);
                            } else {
                                assert(old(self).slots@[i as int].binding.crtc != old(
                                    self,
                                ).slots@[j].binding.crtc);
                            }
                        }
                    }
                }
                return true;
            }
            i = i + 1;
        }
        false
    }

    /// A session pause notification: suspend all hardware calls until the
    /// matching resume arrives.
    pub fn pause(&mut self)
        ensures
            final(self).suspended,
            final(self).slots@ == old(self).slots@,
    {
        self.suspended = true;
    }

    /// The matching session resume: hardware calls are permitted again.
    pub fn resume(&mut self)
        ensures
            !final(self).suspended,
            final(self).slots@ == old(self).slots@,
    {
        self.suspended = false;
    }

    /// Law: at most one frame is in flight per output at any time (the slot
    /// state is a single flag that only a completion clears), and a render
    /// request for an output whose frame is in flight is a no-op: the plan
    /// comes back `Busy`, no flip is scheduled and no state changes.
    pub proof fn law_frame_pacing(self, i: int)
        requires
            0 <= i < self.slots@.len(),
            !self.suspended,
            self.slots@[i].in_flight,
        ensures
            self.spec_plan(i) == FramePlan::Busy,
    {
    }

    /// Law: while the session is paused, no output is planned for rendering,
    /// whatever its state — the pipeline issues no hardware call between a
    /// pause and the matching resume.
    pub proof fn law_session_pause(self, i: int)
        requires
            0 <= i < self.slots@.len(),
            self.suspended,
        ensures
            self.spec_plan(i) == FramePlan::Suspended,
    {
    }
}

/// Law: the output-to-CRTC assignment is injective, however many connectors
/// were detected: distinct configured outputs never share a CRTC.
pub proof fn law_crtc_injective(connectors: Seq<ConnectorInfo>, crtcs: Seq<u64>, bindings: Seq<OutputBinding>)
    requires
        forall|i: int, j: int| 0 <= i < j < crtcs.len() ==> #[trigger] crtcs[i] != #[trigger] crtcs[j],
        forall|k: int| 0 <= k < bindings.len() ==> (#[trigger] bindings[k]).crtc == crtcs[k],
        bindings.len() <= crtcs.len(),
    ensures
        forall|k: int, l: int|
            0 <= k < l < bindings.len() ==> (#[trigger] bindings[k]).crtc != (
            #[trigger] bindings[l]).crtc,
{
}

} // verus!
