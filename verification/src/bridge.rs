//! The legacy-window bridge: bookkeeping for windows proxied from the
//! secondary windowing protocol into the scene.
//!
//! The embedded legacy server and its window manager run outside this
//! crate; here lives what the core decides: at most one window-manager
//! instance, rejection of re-entrant window creation for the same external
//! id, and the created-but-not-yet-mapped state in which a legacy window is
//! still invisible to hit testing (it only enters the scene on map).

use vstd::prelude::*;

use crate::geometry::Rect;

verus! {

/// Why a bridge request was rejected.
#[derive(Clone, Copy, Debug, PartialEq, Eq, Structural)]
pub enum BridgeError {
    /// A window-manager instance is already active.
    WmAlreadyActive,
    /// A window with this external id already exists (re-entrant creation).
    DuplicateWindow,
    /// No window with this external id exists.
    UnknownWindow,
    /// The window is already mapped.
    AlreadyMapped,
}

/// One window of the legacy protocol, as the bridge tracks it.
#[derive(Clone, Copy, Debug, PartialEq, Eq, Structural)]
pub struct LegacyWindow {
    /// The window's id in the legacy protocol.
    pub xid: u64,
    /// The proxy surface carrying its content.
    pub surface: u64,
    /// Whether the window has been mapped into the scene.
    pub mapped: bool,
    /// Override-redirect windows are tracked for bookkeeping but never
    /// auto-placed by scene policy.
    pub override_redirect: bool,
    /// The geometry last requested via a configure request.
    pub geometry: Rect,
    /// The scene window backing this legacy window once mapped.
    pub scene_window: Option<u64>,
}

/// The bridge state: whether a window manager is active, and the tracked
/// legacy windows.
pub struct LegacyBridge {
    pub wm_active: bool,
    pub windows: Vec<LegacyWindow>,
}

impl LegacyBridge {
    /// External ids are unique among tracked windows, and every recorded
    /// geometry is a valid rectangle.
    pub open spec fn wf(self) -> bool {
        &&& forall|i: int, j: int|
            0 <= i < j < self.windows@.len() ==> (#[trigger] self.windows@[i]).xid != (
            #[trigger] self.windows@[j]).xid
        &&& forall|i: int|
            0 <= i < self.windows@.len() ==> (#[trigger] self.windows@[i]).geometry.valid()
    }

    /// Whether a window with external id `xid` is tracked.
    pub open spec fn spec_has_window(self, xid: u64) -> bool {
        exists|i: int| 0 <= i < self.windows@.len() && (#[trigger] self.windows@[i]).xid == xid
    }

    /// The index of the tracked window with external id `xid`.
    pub open spec fn idx_of(self, xid: u64) -> int {
        choose|i: int| 0 <= i < self.windows@.len() && (#[trigger] self.windows@[i]).xid == xid
    }

    /// The tracked window with external id `xid`.
    pub open spec fn window_of(self, xid: u64) -> LegacyWindow {
        self.windows@[self.idx_of(xid)]
    }

    pub fn new() -> (b: LegacyBridge)
        ensures
            b.wf(),
            !b.wm_active,
            b.windows@.len() == 0,
    {
        LegacyBridge { wm_active: false, windows: Vec::new() }
    }

    /// Start the window-manager component. Exactly one instance may be
    /// active at a time; a second start is rejected.
    pub fn start_wm(&mut self) -> (r: Result<(), BridgeError>)
        ensures
            r is Ok <==> !old(self).wm_active,
            r is Err ==> *final(self) == *old(self) && r == Err::<(), BridgeError>(
                BridgeError::WmAlreadyActive,
            ),
            final(self).wm_active,
            final(self).windows@ == old(self).windows@,
    {
        if self.wm_active {
            return Err(BridgeError::WmAlreadyActive);
        }
        self.wm_active = true;
        Ok(())
    }

    /// Look up the index of the window with external id `xid`.
    pub fn find(&self, xid: u64) -> (r: Option<usize>)
        ensures
            match r {
                Some(i) => i < self.windows@.len() && self.windows@[i as int].xid == xid,
                None => !self.spec_has_window(xid),
            },
    {
        let mut i: usize = 0;
        while i < self.windows.len()
            invariant
                i <= self.windows@.len(),
                forall|j: int| 0 <= j < i ==> (#[trigger] self.windows@[j]).xid != xid,
            decreases self.windows@.len() - i,
        {
            if self.windows[i].xid == xid {
                return Some(i);
            }
            i = i + 1;
        }
        None
    }

    /// Under well-formedness, external ids determine their index.
    pub proof fn lemma_idx_of(self, i: int)
        requires
            self.wf(),
            0 <= i < self.windows@.len(),
        ensures
            self.idx_of(self.windows@[i].xid) == i,
            self.window_of(self.windows@[i].xid) == self.windows@[i],
    {
        let xid = self.windows@[i].xid;
        assert(self.spec_has_window(xid));
        let j = self.idx_of(xid);
        assert(0 <= j < self.windows@.len() && self.windows@[j].xid == xid);
        if i < j {
            assert(self.windows@[i].xid != self.windows@[j].xid);
        } else if j < i {
            assert(self.windows@[j].xid != self.windows@[i].xid);
        }
    }

    /// Track a freshly created legacy window, not yet mapped. A second
    /// creation for the same external id is rejected.
    pub fn new_window(&mut self, xid: u64, surface: u64, override_redirect: bool, geometry: Rect) -> (r: Result<(), BridgeError>)
        requires
            old(self).wf(),
            geometry.valid(),
        ensures
            final(self).wf(),
            r is Ok <==> !old(self).spec_has_window(xid),
            r is Ok ==> final(self).windows@ == old(self).windows@.push(
                LegacyWindow {
                    xid,
                    surface,
                    mapped: false,
                    override_redirect,
                    geometry,
                    scene_window: None,
                },
            ),
            r is Err ==> *final(self) == *old(self) && r == Err::<(), BridgeError>(
                BridgeError::DuplicateWindow,
            ),
            final(self).wm_active == old(self).wm_active,
    {
        if self.find(xid).is_some() {
            return Err(BridgeError::DuplicateWindow);
        }
        self.windows.push(
            LegacyWindow {
                xid,
                surface,
                mapped: false,
                override_redirect,
                geometry,
                scene_window: None,
            },
        );
        Ok(())
    }

    /// Record the geometry a configure request asked for; the caller
    /// acknowledges through the legacy protocol's configure-notify. Returns
    /// whether the window exists.
    pub fn set_geometry(&mut self, xid: u64, geometry: Rect) -> (r: bool)
        requires
            old(self).wf(),
            geometry.valid(),
        ensures
            final(self).wf(),
            r == old(self).spec_has_window(xid),
            !r ==> *final(self) == *old(self),
            r ==> final(self).windows@ == old(self).windows@.update(
                old(self).idx_of(xid),
                LegacyWindow { geometry, ..old(self).window_of(xid) },
            ),
            final(self).wm_active == old(self).wm_active,
    {
        let i = match self.find(xid) {
            Some(i) => i,
            None => {
                return false;
            },
        };
        proof {
            old(self).lemma_idx_of(i as int);
        }
        let w = self.windows[i];
        self.windows.set(i, LegacyWindow { geometry, ..w });
        proof {
            assert forall|a: int, b: int|
                0 <= a < b < self.windows@.len() implies (#[trigger] self.windows@[a]).xid != (
            #[trigger] self.windows@[b]).xid by {
                assert(self.windows@[a].xid == old(self).windows@[a].xid);
                assert(self.windows@[b].xid == old(self).windows@[b].xid);
            }
        }
        true
    }

    /// Record that the window was mapped into the scene as `scene_window`.
    pub fn mark_mapped(&mut self, xid: u64, scene_window: Option<u64>) -> (r: Result<
        (),
        BridgeError,
    >)
        requires
            old(self).wf(),
        ensures
            final(self).wf(),
            r is Ok <==> (old(self).spec_has_window(xid) && !old(
                self,
            ).window_of(xid).mapped),
            r is Ok ==> final(self).windows@ == old(self).windows@.update(
                old(self).idx_of(xid),
                LegacyWindow { mapped: true, scene_window, ..old(self).window_of(xid) },
            ),
            r is Err ==> *final(self) == *old(self),
            !old(self).spec_has_window(xid) ==> r == Err::<(), BridgeError>(
                BridgeError::UnknownWindow,
            ),
            old(self).spec_has_window(xid) && old(self).window_of(xid).mapped ==> r == Err::<
                (),
                BridgeError,
            >(BridgeError::AlreadyMapped),
            final(self).wm_active == old(self).wm_active,
    {
        let i = match self.find(xid) {
            Some(i) => i,
            None => {
                return Err(BridgeError::UnknownWindow);
            },
        };
        proof {
            old(self).lemma_idx_of(i as int);
        }
        if self.windows[i].mapped {
            return Err(BridgeError::AlreadyMapped);
        }
        let w = self.windows[i];
        self.windows.set(i, LegacyWindow { mapped: true, scene_window, ..w });
        proof {
            assert forall|a: int, b: int|
                0 <= a < b < self.windows@.len() implies (#[trigger] self.windows@[a]).xid != (
            #[trigger] self.windows@[b]).xid by {
                assert(self.windows@[a].xid == old(self).windows@[a].xid);
                assert(self.windows@[b].xid == old(self).windows@[b].xid);
            }
        }
        Ok(())
    }

    /// Record that the window was unmapped: it leaves the scene but stays
    /// tracked. Returns whether the window exists.
    pub fn mark_unmapped(&mut self, xid: u64) -> (r: bool)
        requires
            old(self).wf(),
        ensures
            final(self).wf(),
            r == old(self).spec_has_window(xid),
            !r ==> *final(self) == *old(self),
            r ==> final(self).windows@ == old(self).windows@.update(
                old(self).idx_of(xid),
                LegacyWindow {
                    mapped: false,
                    scene_window: None,
                    ..old(self).window_of(xid)
                },
            ),
            final(self).wm_active == old(self).wm_active,
    {
        let i = match self.find(xid) {
            Some(i) => i,
            None => {
                return false;
            },
        };
        proof {
            old(self).lemma_idx_of(i as int);
        }
        let w = self.windows[i];
        self.windows.set(i, LegacyWindow { mapped: false, scene_window: None, ..w });
        proof {
            assert forall|a: int, b: int|
                0 <= a < b < self.windows@.len() implies (#[trigger] self.windows@[a]).xid != (
            #[trigger] self.windows@[b]).xid by {
                assert(self.windows@[a].xid == old(self).windows@[a].xid);
                assert(self.windows@[b].xid == old(self).windows@[b].xid);
            }
        }
        true
    }

    /// The proxy surface `surface` left the scene (it was destroyed or its
    /// window unmapped): every entry carried by it is no longer mapped and
    /// no longer linked to a scene window. Nothing else changes.
    pub fn clear_surface(&mut self, surface: u64)
        requires
            old(self).wf(),
        ensures
            final(self).wf(),
            final(self).wm_active == old(self).wm_active,
            final(self).windows@.len() == old(self).windows@.len(),
            forall|i: int|
                0 <= i < old(self).windows@.len() ==> (#[trigger] final(self).windows@[i]) == if old(
                    self,
                ).windows@[i].surface == surface {
                    LegacyWindow { mapped: false, scene_window: None, ..old(self).windows@[i] }
                } else {
                    old(self).windows@[i]
                },
    {
        let mut k: usize = 0;
        while k < self.windows.len()
            invariant
                old(self).wf(),
                self.wm_active == old(self).wm_active,
                k <= self.windows@.len(),
                self.windows@.len() == old(self).windows@.len(),
                forall|i: int|
                    0 <= i < old(self).windows@.len() ==> (#[trigger] self.windows@[i]) == if old(
                        self,
                    ).windows@[i].surface == surface && i < k {
                        LegacyWindow {
                            mapped: false,
                            scene_window: None,
                            ..old(self).windows@[i]
                        }
                    } else {
                        old(self).windows@[i]
                    },
            decreases self.windows@.len() - k,
        {
            if self.windows[k].surface == surface {
                let e = self.windows[k];
                self.windows.set(k, LegacyWindow { mapped: false, scene_window: None, ..e });
            }
            k = k + 1;
        }
        proof {
            assert forall|a: int, b: int|
                0 <= a < b < self.windows@.len() implies (#[trigger] self.windows@[a]).xid != (
            #[trigger] self.windows@[b]).xid by {
                assert(self.windows@[a].xid == old(self).windows@[a].xid);
                assert(self.windows@[b].xid == old(self).windows@[b].xid);
            }
        }
    }

    /// Stop tracking a destroyed window. Returns whether it was tracked.
    pub fn remove(&mut self, xid: u64) -> (r: bool)
        requires
            old(self).wf(),
        ensures
            final(self).wf(),
            r == old(self).spec_has_window(xid),
            !r ==> *final(self) == *old(self),
            r ==> final(self).windows@ == old(self).windows@.remove(old(self).idx_of(xid)),
            !final(self).spec_has_window(xid),
            final(self).wm_active == old(self).wm_active,
    {
        let i = match self.find(xid) {
            Some(i) => i,
            None => {
                return false;
            },
        };
        proof {
            old(self).lemma_idx_of(i as int);
        }
        self.windows.remove(i);
        proof {
            let ws = self.windows@;
            let olds = old(self).windows@;
            assert forall|a: int, b: int|
                0 <= a < b < ws.len() implies (#[trigger] ws[a]).xid != (#[trigger] ws[b]).xid by {
                let a0: int = if a < i { a } else { a + 1 };
                let b0: int = if b < i { b } else { b + 1 };
                assert(ws[a].xid == olds[a0].xid && ws[b].xid == olds[b0].xid);
            }
            assert(!self.spec_has_window(xid)) by {
                if self.spec_has_window(xid) {
                    let j = choose|j: int| 0 <= j < ws.len() && (#[trigger] ws[j]).xid == xid;
                    let j0: int = if j < i { j } else { j + 1 };
                    assert(olds[j0].xid == xid && olds[i as int].xid == xid);
                }
            }
        }
        true
    }
}

} // verus!
