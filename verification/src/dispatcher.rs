//! Dispatcher policy: the single reactor's pacing decisions.
//!
//! The reactor itself — polling the socket, client connections, hardware
//! events, input devices and timers — lives outside this crate. Here are
//! the decisions it consults: how long one iteration may block so outputs
//! are serviced near refresh cadence, how the retry interval grows while
//! waiting on legacy-bridge readiness, and which outputs a tick may render.

use vstd::prelude::*;

use crate::output::{FramePlan, Pipeline};

verus! {

/// How long one dispatcher iteration may block, so outputs are serviced
/// close to display refresh cadence.
pub const FRAME_BUDGET_MS: u64 = 16;

/// The first retry interval while waiting on legacy-bridge readiness.
pub const INITIAL_RETRY_DELAY_MS: u64 = 100;

/// The bound on the retry interval: backoff never waits longer than this.
pub const MAX_RETRY_DELAY_MS: u64 = 1600;

/// The next retry interval while the legacy bridge is not ready yet:
/// exponential backoff, bounded by `MAX_RETRY_DELAY_MS` so readiness is
/// still polled rather than waited on indefinitely.
pub fn next_retry_delay(current: u64) -> (r: u64)
    requires
        1 <= current <= MAX_RETRY_DELAY_MS,
    ensures
        r == if 2 * current <= MAX_RETRY_DELAY_MS {
            2 * current
        } else {
            MAX_RETRY_DELAY_MS as int
        },
        current < MAX_RETRY_DELAY_MS ==> r > current,
        r <= MAX_RETRY_DELAY_MS,
{
    if current <= MAX_RETRY_DELAY_MS / 2 {
        2 * current
    } else {
        MAX_RETRY_DELAY_MS
    }
}

/// What this tick may do for each output, in slot order: render (with or
/// without the initial mode set), or skip it because a frame is in flight
/// or the session is paused. Consulted once per dispatcher iteration.
pub fn plan_tick(p: &Pipeline) -> (plans: Vec<FramePlan>)
    ensures
        plans@.len() == p.slots@.len(),
        forall|i: int| 0 <= i < plans@.len() ==> plans@[i] == p.spec_plan(i),
{
    let mut plans: Vec<FramePlan> = Vec::new();
    let mut i: usize = 0;
    while i < p.slots.len()
        invariant
            i <= p.slots@.len(),
            plans@.len() == i,
            forall|j: int| 0 <= j < i ==> plans@[j] == p.spec_plan(j),
        decreases p.slots@.len() - i,
    {
        let plan = p.plan_frame(i);
        plans.push(plan);
        i = i + 1;
    }
    plans
}

} // verus!
