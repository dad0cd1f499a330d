//! The scene: a per-output spatial index and stacking order for windows.
//!
//! `Space` keeps two orders over the same set of windows: `windows` in map
//! (insertion) order, which the tiling layout uses, and `stack` in z-order
//! (bottom to top), which hit testing and rendering use. Its invariant also
//! carries role uniqueness: no surface ever backs two windows at once.

use vstd::arithmetic::div_mod::{lemma_fundamental_div_mod, lemma_mod_bound};
use vstd::arithmetic::mul::lemma_mul_inequality;
use vstd::prelude::*;

use crate::geometry::{Point, Rect, Size};

verus! {

/// The decoration mode negotiated for a window.
#[derive(Clone, Copy, Debug, PartialEq, Eq, Structural)]
pub enum DecorationMode {
    ClientSide,
    ServerSide,
}

/// A window: a role wrapping a surface plus placement and decoration state.
/// The `surface` field is a non-owning handle to the backing surface.
#[derive(Clone, Copy, Debug, PartialEq, Eq, Structural)]
pub struct Window {
    /// Scene identity, unique within a `Space`.
    pub id: u64,
    /// Handle of the backing surface; no two windows share one.
    pub surface: u64,
    /// Current placement.
    pub rect: Rect,
    /// Last explicitly chosen position, restored when tiling is disabled.
    pub floating_pos: Point,
    /// Advertised minimum size; a zero dimension means unconstrained.
    pub min_size: Size,
    /// Advertised maximum size; a zero dimension means unconstrained.
    pub max_size: Size,
    pub fullscreen: bool,
    pub maximized: bool,
    /// Whether the window currently occupies a tiling slot.
    pub tiled: bool,
    pub decoration: DecorationMode,
    /// Whether the window is proxied from the legacy protocol bridge.
    pub legacy: bool,
}

impl Window {
    /// Structural validity of a window record.
    pub open spec fn valid(self) -> bool {
        &&& self.rect.valid()
        &&& self.min_size.valid()
        &&& self.max_size.valid()
    }

    /// A fresh window for a surface that was just given a role.
    pub fn new(id: u64, surface: u64, legacy: bool) -> (w: Window)
        ensures
            w.id == id && w.surface == surface && w.legacy == legacy,
            w.valid(),
            !w.fullscreen && !w.maximized && !w.tiled,
            w.decoration == DecorationMode::ServerSide,
            w.rect == (Rect { pos: Point { x: 0, y: 0 }, size: Size { w: 0, h: 0 } }),
    {
        Window {
            id,
            surface,
            rect: Rect { pos: Point { x: 0, y: 0 }, size: Size { w: 0, h: 0 } },
            floating_pos: Point { x: 0, y: 0 },
            min_size: Size { w: 0, h: 0 },
            max_size: Size { w: 0, h: 0 },
            fullscreen: false,
            maximized: false,
            tiled: false,
            decoration: DecorationMode::ServerSide,
            legacy,
        }
    }
}

/// Why a `map` request was rejected.
#[derive(Clone, Copy, Debug, PartialEq, Eq, Structural)]
pub enum MapError {
    /// The output the window targets has zero area.
    EmptyOutput,
    /// A window with this identity is already mapped.
    DuplicateWindow,
    /// Another mapped window already references this surface: mapping it
    /// again would give one surface two roles.
    SurfaceInUse,
}

/// Per-output ordered stack of windows: spatial index plus z-order.
pub struct Space {
    /// All mapped windows, in map (insertion) order.
    pub windows: Vec<Window>,
    /// Window ids, bottom to top; always a permutation of the ids above.
    pub stack: Vec<u64>,
    /// Geometry of the output this space arranges windows on.
    pub output_size: Size,
    /// Whether the tiling placement policy is active.
    pub tiling: bool,
}

impl Space {
    /// Whether some mapped window has identity `id`.
    pub open spec fn has_id(self, id: u64) -> bool {
        exists|i: int| 0 <= i < self.windows@.len() && self.windows@[i].id == id
    }

    /// Whether some mapped window references surface `s`.
    pub open spec fn has_surface(self, s: u64) -> bool {
        exists|i: int| 0 <= i < self.windows@.len() && self.windows@[i].surface == s
    }

    /// Index of the window with identity `id` in map order.
    pub open spec fn idx_of(self, id: u64) -> int {
        choose|i: int| 0 <= i < self.windows@.len() && self.windows@[i].id == id
    }

    /// Index of the window backed by surface `s` in map order.
    pub open spec fn idx_of_surface(self, s: u64) -> int {
        choose|i: int| 0 <= i < self.windows@.len() && self.windows@[i].surface == s
    }

    /// The window with identity `id`.
    pub open spec fn window_of(self, id: u64) -> Window {
        self.windows@[self.idx_of(id)]
    }

    /// Well-formedness: valid windows, unique window ids, unique surface
    /// handles, and a stack that is exactly a permutation of the window ids.
    pub open spec fn wf(self) -> bool {
        &&& forall|i: int| 0 <= i < self.windows@.len() ==> (#[trigger] self.windows@[i]).valid()
        &&& forall|i: int, j: int|
            0 <= i < j < self.windows@.len() ==> (#[trigger] self.windows@[i]).id != (
            #[trigger] self.windows@[j]).id
        &&& forall|i: int, j: int|
            0 <= i < j < self.windows@.len() ==> (#[trigger] self.windows@[i]).surface != (
            #[trigger] self.windows@[j]).surface
        &&& self.stack@.len() == self.windows@.len()
        &&& forall|i: int, j: int|
            0 <= i < j < self.stack@.len() ==> #[trigger] self.stack@[i] != #[trigger] self.stack@[j]
        &&& forall|i: int| 0 <= i < self.stack@.len() ==> self.has_id(#[trigger] self.stack@[i])
        &&& forall|i: int|
            0 <= i < self.windows@.len() ==> self.stack@.contains(
                (#[trigger] self.windows@[i]).id,
            )
        &&& self.output_size.valid()
    }

    /// An empty space for an output of the given size.
    pub fn new(output_size: Size) -> (s: Space)
        requires
            output_size.valid(),
        ensures
            s.wf(),
            s.windows@.len() == 0,
            s.output_size == output_size,
            !s.tiling,
    {
        Space { windows: Vec::new(), stack: Vec::new(), output_size, tiling: false }
    }

    /// Look up the map-order index of the window with identity `id`.
    pub fn find(&self, id: u64) -> (r: Option<usize>)
        ensures
            match r {
                Some(i) => i < self.windows@.len() && self.windows@[i as int].id == id,
                None => !self.has_id(id),
            },
    {
        let mut i: usize = 0;
        while i < self.windows.len()
            invariant
                i <= self.windows@.len(),
                forall|j: int| 0 <= j < i ==> (#[trigger] self.windows@[j]).id != id,
            decreases self.windows@.len() - i,
        {
            if self.windows[i].id == id {
                return Some(i);
            }
            i = i + 1;
        }
        None
    }

    /// Look up the stack position of the window with identity `id`.
    fn find_in_stack(&self, id: u64) -> (r: Option<usize>)
        ensures
            match r {
                Some(k) => k < self.stack@.len() && self.stack@[k as int] == id,
                None => !self.stack@.contains(id),
            },
    {
        let mut k: usize = 0;
        while k < self.stack.len()
            invariant
                k <= self.stack@.len(),
                forall|j: int| 0 <= j < k ==> self.stack@[j] != id,
            decreases self.stack@.len() - k,
        {
            if self.stack[k] == id {
                return Some(k);
            }
            k = k + 1;
        }
        None
    }

    /// Whether any mapped window references surface `s`.
    pub fn surface_in_use(&self, s: u64) -> (r: bool)
        ensures
            r == self.has_surface(s),
    {
        let mut i: usize = 0;
        while i < self.windows.len()
            invariant
                i <= self.windows@.len(),
                forall|j: int| 0 <= j < i ==> (#[trigger] self.windows@[j]).surface != s,
            decreases self.windows@.len() - i,
        {
            if self.windows[i].surface == s {
                return true;
            }
            i = i + 1;
        }
        false
    }

    /// `w` placed at `pos`: the window as `map` records it.
    pub open spec fn placed(w: Window, pos: Point) -> Window {
        Window { rect: Rect { pos, ..w.rect }, floating_pos: pos, ..w }
    }

    /// Insert a window at `pos`, on top of the stack. Rejects the request
    /// when the output has zero area, when the window is already mapped, or
    /// when its surface already backs another window (role uniqueness).
    pub fn map(&mut self, w: Window, pos: Point) -> (r: Result<(), MapError>)
        requires
            old(self).wf(),
            w.valid(),
        ensures
            final(self).wf(),
            r is Ok <==> (!old(self).output_size.spec_is_empty() && !old(
                self,
            ).has_id(w.id) && !old(self).has_surface(w.surface)),
            r is Ok ==> {
                &&& final(self).windows@ == old(self).windows@.push(Self::placed(w, pos))
                &&& final(self).stack@ == old(self).stack@.push(w.id)
            },
            r is Err ==> *final(self) == *old(self),
            old(self).output_size.spec_is_empty() ==> r == Err::<(), MapError>(
                MapError::EmptyOutput,
            ),
            !old(self).output_size.spec_is_empty() && old(self).has_id(w.id) ==> r == Err::<
                (),
                MapError,
            >(MapError::DuplicateWindow),
            !old(self).output_size.spec_is_empty() && !old(self).has_id(w.id) && old(
                self,
            ).has_surface(w.surface) ==> r == Err::<(), MapError>(MapError::SurfaceInUse),
            final(self).output_size == old(self).output_size,
            final(self).tiling == old(self).tiling,
    {
        if self.output_size.is_empty() {
            return Err(MapError::EmptyOutput);
        }
        if self.find(w.id).is_some() {
            return Err(MapError::DuplicateWindow);
        }
        if self.surface_in_use(w.surface) {
            return Err(MapError::SurfaceInUse);
        }
        let placed = Window {
            rect: Rect { pos, ..w.rect },
            floating_pos: pos,
            ..w
        };
        self.windows.push(placed);
        self.stack.push(w.id);
        proof {
            let ws = self.windows@;
            let olds = old(self).windows@;
            assert forall|i: int| 0 <= i < self.stack@.len() implies self.has_id(
                #[trigger] self.stack@[i],
            ) by {
                if i < self.stack@.len() - 1 {
                    assert(old(self).has_id(old(self).stack@[i]));
                    let j = choose|j: int|
                        0 <= j < olds.len() && olds[j].id == old(self).stack@[i];
                    assert(ws[j].id == self.stack@[i]);
                } else {
                    assert(ws[ws.len() - 1].id == w.id);
                }
            }
            assert forall|i: int| 0 <= i < ws.len() implies self.stack@.contains(
                (#[trigger] ws[i]).id,
            ) by {
                if i < ws.len() - 1 {
                    assert(old(self).stack@.contains(olds[i].id));
                    let k = choose|k: int|
                        0 <= k < old(self).stack@.len() && old(self).stack@[k] == olds[i].id;
                    assert(self.stack@[k] == ws[i].id);
                } else {
                    assert(self.stack@[self.stack@.len() - 1] == ws[i].id);
                }
            }
        }
        Ok(())
    }

    /// Remove the window with identity `id` from the space. Returns whether
    /// a window was removed. Focus is deliberately not reassigned here: the
    /// caller decides what (if anything) receives focus next.
    pub fn unmap(&mut self, id: u64) -> (r: bool)
        requires
            old(self).wf(),
        ensures
            final(self).wf(),
            r == old(self).has_id(id),
            !r ==> *final(self) == *old(self),
            r ==> {
                &&& final(self).windows@ == old(self).windows@.remove(old(self).idx_of(id))
                &&& !final(self).has_id(id)
                &&& final(self).windows@.len() == old(self).windows@.len() - 1
                &&& final(self).stack@ == old(self).stack@.remove(old(self).stack@.index_of(id))
            },
            forall|other: u64|
                other != id ==> (final(self).has_id(other) == old(self).has_id(other)),
            final(self).output_size == old(self).output_size,
            final(self).tiling == old(self).tiling,
    {
        let i = match self.find(id) {
            Some(i) => i,
            None => {
                return false;
            },
        };
        let k = match self.find_in_stack(id) {
            Some(k) => k,
            None => {
                proof {
                    assert(self.stack@.contains(self.windows@[i as int].id));
                }
                return false;
            },
        };
        proof {
            assert(old(self).idx_of(id) == i as int) by {
                let j = old(self).idx_of(id);
                assert(0 <= j < old(self).windows@.len() && old(self).windows@[j].id == id);
            }
            assert(old(self).stack@.index_of(id) == k as int) by {
                assert(old(self).stack@[k as int] == id);
                let j = old(self).stack@.index_of(id);
                if j != k as int {
                    assert(0 <= j < old(self).stack@.len() && old(self).stack@[j] == id);
                }
            }
        }
        self.windows.remove(i);
        self.stack.remove(k);
        proof {
            let ws = self.windows@;
            let olds = old(self).windows@;
            let sk = self.stack@;
            let oldsk = old(self).stack@;
            // Removing one entry keeps every remaining id present in both
            // structures; the index just shifts across the removal point.
            assert forall|m: int| 0 <= m < sk.len() implies self.has_id(#[trigger] sk[m]) by {
                let m0: int = if m < k { m } else { m + 1 };
                assert(oldsk[m0] == sk[m]);
                assert(old(self).has_id(oldsk[m0]));
                let j = choose|j: int| 0 <= j < olds.len() && olds[j].id == oldsk[m0];
                assert(oldsk[m0] != id) by {
                    assert(oldsk[k as int] == id);
                }
                assert(j != i);
                let j1: int = if j < i { j } else { j - 1 };
                assert(ws[j1].id == sk[m]);
            }
            assert forall|m: int| 0 <= m < ws.len() implies sk.contains((#[trigger] ws[m]).id) by {
                let m0: int = if m < i { m } else { m + 1 };
                assert(olds[m0] == ws[m]);
                assert(oldsk.contains(olds[m0].id));
                let j = choose|j: int| 0 <= j < oldsk.len() && oldsk[j] == olds[m0].id;
                assert(olds[m0].id != id) by {
                    assert(olds[i as int].id == id);
                }
                assert(j != k);
                let j1: int = if j < k { j } else { j - 1 };
                assert(sk[j1] == ws[m].id);
            }
            assert forall|other: u64| other != id implies (self.has_id(other) == old(
                self,
            ).has_id(other)) by {
                if old(self).has_id(other) {
                    let j = choose|j: int| 0 <= j < olds.len() && olds[j].id == other;
                    assert(j != i);
                    let j1: int = if j < i { j } else { j - 1 };
                    assert(ws[j1].id == other);
                }
                if self.has_id(other) {
                    let j = choose|j: int| 0 <= j < ws.len() && ws[j].id == other;
                    let j0: int = if j < i { j } else { j + 1 };
                    assert(olds[j0].id == other);
                }
            }
            assert(!self.has_id(id)) by {
                if self.has_id(id) {
                    let j = choose|j: int| 0 <= j < ws.len() && ws[j].id == id;
                    let j0: int = if j < i { j } else { j + 1 };
                    assert(olds[j0].id == id && olds[i as int].id == id);
                }
            }
        }
        true
    }

    /// Replace the window at map-order index `i`, keeping its identity and
    /// surface: the shared step behind every per-window mutation.
    fn update_window(&mut self, i: usize, w: Window)
        requires
            old(self).wf(),
            i < old(self).windows@.len(),
            w.valid(),
            w.id == old(self).windows@[i as int].id,
            w.surface == old(self).windows@[i as int].surface,
        ensures
            final(self).wf(),
            final(self).windows@ == old(self).windows@.update(i as int, w),
            final(self).stack@ == old(self).stack@,
            final(self).output_size == old(self).output_size,
            final(self).tiling == old(self).tiling,
    {
        self.windows.set(i, w);
        proof {
            let ws = self.windows@;
            let olds = old(self).windows@;
            assert forall|m: int| 0 <= m < self.stack@.len() implies self.has_id(
                #[trigger] self.stack@[m],
            ) by {
                assert(old(self).has_id(old(self).stack@[m]));
                let j = choose|j: int|
                    0 <= j < olds.len() && olds[j].id == old(self).stack@[m];
                assert(ws[j].id == old(self).stack@[m]);
            }
            assert forall|m: int| 0 <= m < ws.len() implies self.stack@.contains(
                (#[trigger] ws[m]).id,
            ) by {
                assert(ws[m].id == olds[m].id);
                assert(self.stack@.contains(olds[m].id));
            }
        }
    }

    /// Move the window with identity `id` to `pos`; its last explicitly
    /// chosen (floating) position follows. Returns whether the window exists.
    pub fn move_to(&mut self, id: u64, pos: Point) -> (r: bool)
        requires
            old(self).wf(),
        ensures
            final(self).wf(),
            r == old(self).has_id(id),
            !r ==> *final(self) == *old(self),
            r ==> final(self).windows@ == old(self).windows@.update(
                old(self).idx_of(id),
                Self::placed(old(self).window_of(id), pos),
            ),
            final(self).stack@ == old(self).stack@,
            final(self).output_size == old(self).output_size,
            final(self).tiling == old(self).tiling,
    {
        let i = match self.find(id) {
            Some(i) => i,
            None => {
                return false;
            },
        };
        proof {
            self.lemma_idx_of(i as int);
        }
        let w = self.windows[i];
        self.update_window(i, Window { rect: Rect { pos, ..w.rect }, floating_pos: pos, ..w });
        true
    }

    /// Set the full placement of the window with identity `id` (both
    /// position and size, as an interactive resize does); its floating
    /// position follows. Returns whether the window exists.
    pub fn set_geometry(&mut self, id: u64, rect: Rect) -> (r: bool)
        requires
            old(self).wf(),
            rect.valid(),
        ensures
            final(self).wf(),
            r == old(self).has_id(id),
            !r ==> *final(self) == *old(self),
            r ==> final(self).windows@ == old(self).windows@.update(
                old(self).idx_of(id),
                Window { rect, floating_pos: rect.pos, ..old(self).window_of(id) },
            ),
            final(self).stack@ == old(self).stack@,
            final(self).output_size == old(self).output_size,
            final(self).tiling == old(self).tiling,
    {
        let i = match self.find(id) {
            Some(i) => i,
            None => {
                return false;
            },
        };
        proof {
            self.lemma_idx_of(i as int);
        }
        let w = self.windows[i];
        self.update_window(i, Window { rect, floating_pos: rect.pos, ..w });
        true
    }

    /// Record the size bounds the surface advertises for the window with
    /// identity `id`. Returns whether the window exists.
    pub fn set_size_bounds(&mut self, id: u64, min_size: Size, max_size: Size) -> (r: bool)
        requires
            old(self).wf(),
            min_size.valid(),
            max_size.valid(),
        ensures
            final(self).wf(),
            r == old(self).has_id(id),
            !r ==> *final(self) == *old(self),
            r ==> final(self).windows@ == old(self).windows@.update(
                old(self).idx_of(id),
                Window { min_size, max_size, ..old(self).window_of(id) },
            ),
            final(self).stack@ == old(self).stack@,
            final(self).output_size == old(self).output_size,
            final(self).tiling == old(self).tiling,
    {
        let i = match self.find(id) {
            Some(i) => i,
            None => {
                return false;
            },
        };
        proof {
            self.lemma_idx_of(i as int);
        }
        let w = self.windows[i];
        self.update_window(i, Window { min_size, max_size, ..w });
        true
    }

    /// Resize the window with identity `id` to `size` and set its
    /// fullscreen/maximized flags, as a fullscreen or maximize request
    /// does. The position is untouched. Returns whether the window exists.
    pub fn apply_state(&mut self, id: u64, size: Size, fullscreen: bool, maximized: bool) -> (r:
        bool)
        requires
            old(self).wf(),
            size.valid(),
        ensures
            final(self).wf(),
            r == old(self).has_id(id),
            !r ==> *final(self) == *old(self),
            r ==> final(self).windows@ == old(self).windows@.update(
                old(self).idx_of(id),
                Window {
                    rect: Rect { size, ..old(self).window_of(id).rect },
                    fullscreen,
                    maximized,
                    ..old(self).window_of(id)
                },
            ),
            final(self).stack@ == old(self).stack@,
            final(self).output_size == old(self).output_size,
            final(self).tiling == old(self).tiling,
    {
        let i = match self.find(id) {
            Some(i) => i,
            None => {
                return false;
            },
        };
        proof {
            self.lemma_idx_of(i as int);
        }
        let w = self.windows[i];
        self.update_window(
            i,
            Window { rect: Rect { size, ..w.rect }, fullscreen, maximized, ..w },
        );
        true
    }

    /// Look up the map-order index of the window backed by `surface`.
    pub fn find_by_surface(&self, surface: u64) -> (r: Option<usize>)
        ensures
            match r {
                Some(i) => i < self.windows@.len() && self.windows@[i as int].surface == surface,
                None => !self.has_surface(surface),
            },
    {
        let mut i: usize = 0;
        while i < self.windows.len()
            invariant
                i <= self.windows@.len(),
                forall|j: int| 0 <= j < i ==> (#[trigger] self.windows@[j]).surface != surface,
            decreases self.windows@.len() - i,
        {
            if self.windows[i].surface == surface {
                return Some(i);
            }
            i = i + 1;
        }
        None
    }

    /// Raise the window with identity `id` to the top of the stack. Returns
    /// whether the window exists.
    pub fn raise(&mut self, id: u64) -> (r: bool)
        requires
            old(self).wf(),
        ensures
            final(self).wf(),
            r == old(self).has_id(id),
            !r ==> *final(self) == *old(self),
            final(self).windows@ == old(self).windows@,
            r ==> {
                &&& final(self).stack@ == old(self).stack@.remove(
                    old(self).stack@.index_of(id),
                ).push(id)
                &&& final(self).stack@[final(self).stack@.len() - 1] == id
            },
            final(self).output_size == old(self).output_size,
            final(self).tiling == old(self).tiling,
    {
        let k = match self.find_in_stack(id) {
            Some(k) => k,
            None => {
                proof {
                    if old(self).has_id(id) {
                        let j = choose|j: int|
                            0 <= j < old(self).windows@.len() && old(self).windows@[j].id == id;
                        assert(old(self).stack@.contains(old(self).windows@[j].id));
                    }
                }
                return false;
            },
        };
        proof {
            assert(old(self).has_id(old(self).stack@[k as int]));
            assert(old(self).stack@.index_of(id) == k as int) by {
                assert(old(self).stack@[k as int] == id);
                let j = old(self).stack@.index_of(id);
                if j != k as int {
                    assert(0 <= j < old(self).stack@.len() && old(self).stack@[j] == id);
                }
            }
        }
        self.stack.remove(k);
        self.stack.push(id);
        proof {
            let sk = self.stack@;
            let oldsk = old(self).stack@;
            assert forall|m: int, n: int| 0 <= m < n < sk.len() implies #[trigger] sk[m]
                != #[trigger] sk[n] by {
                let m0: int = if m < k { m } else { m + 1 };
                if n == sk.len() - 1 {
                    assert(sk[m] == oldsk[m0] && sk[n] == oldsk[k as int]);
                } else {
                    let n0: int = if n < k { n } else { n + 1 };
                    assert(sk[m] == oldsk[m0] && sk[n] == oldsk[n0]);
                }
            }
            assert forall|m: int| 0 <= m < sk.len() implies self.has_id(#[trigger] sk[m]) by {
                let m0: int = if m == sk.len() - 1 {
                    k as int
                } else if m < k {
                    m
                } else {
                    m + 1
                };
                assert(sk[m] == oldsk[m0]);
                assert(old(self).has_id(oldsk[m0]));
            }
            assert forall|m: int| 0 <= m < self.windows@.len() implies sk.contains(
                (#[trigger] self.windows@[m]).id,
            ) by {
                assert(oldsk.contains(self.windows@[m].id));
                let j = choose|j: int|
                    0 <= j < oldsk.len() && oldsk[j] == self.windows@[m].id;
                if j == k as int {
                    assert(sk[sk.len() - 1] == self.windows@[m].id);
                } else {
                    let j1: int = if j < k { j } else { j - 1 };
                    assert(sk[j1] == self.windows@[m].id);
                }
            }
        }
        true
    }

    /// Under well-formedness, window ids determine their map-order index.
    pub proof fn lemma_idx_of(self, i: int)
        requires
            self.wf(),
            0 <= i < self.windows@.len(),
        ensures
            self.idx_of(self.windows@[i].id) == i,
            self.window_of(self.windows@[i].id) == self.windows@[i],
    {
        let id = self.windows@[i].id;
        assert(self.has_id(id));
        let j = self.idx_of(id);
        assert(0 <= j < self.windows@.len() && self.windows@[j].id == id);
        if i < j {
            assert(self.windows@[i].id != self.windows@[j].id);
        } else if j < i {
            assert(self.windows@[j].id != self.windows@[i].id);
        }
    }

    /// Under well-formedness, surfaces determine their map-order index.
    pub proof fn lemma_idx_of_surface(self, i: int)
        requires
            self.wf(),
            0 <= i < self.windows@.len(),
        ensures
            self.idx_of_surface(self.windows@[i].surface) == i,
    {
        let s = self.windows@[i].surface;
        assert(self.has_surface(s));
        let j = self.idx_of_surface(s);
        assert(0 <= j < self.windows@.len() && self.windows@[j].surface == s);
        if i < j {
            assert(self.windows@[i].surface != self.windows@[j].surface);
        } else if j < i {
            assert(self.windows@[j].surface != self.windows@[i].surface);
        }
    }

    /// No window at a stack position in `[lo, hi)` contains `p`.
    pub open spec fn no_hit_in(self, lo: int, hi: int, p: Point) -> bool {
        forall|m: int|
            lo <= m < hi ==> !self.window_of(#[trigger] self.stack@[m]).rect.spec_contains(p)
    }

    /// The topmost hit among the stack positions below `k`.
    pub open spec fn hit_below(self, k: int, p: Point) -> Option<u64>
        decreases k,
    {
        if k <= 0 {
            None
        } else if self.window_of(self.stack@[k - 1]).rect.spec_contains(p) {
            Some(self.stack@[k - 1])
        } else {
            self.hit_below(k - 1, p)
        }
    }

    /// The window `element_at` returns for `p`: the topmost hit, scanning
    /// the whole stack.
    pub open spec fn spec_element_at(self, p: Point) -> Option<u64> {
        self.hit_below(self.stack@.len() as int, p)
    }

    /// What a hit (or a miss) below stack height `k` means: a hit is a stack
    /// entry whose window contains `p` with nothing above it up to `k`
    /// containing `p`; a miss means nothing below `k` contains `p`.
    proof fn lemma_hit_below(self, k: int, p: Point)
        requires
            self.wf(),
            0 <= k <= self.stack@.len(),
        ensures
            match self.hit_below(k, p) {
                Some(id) => exists|j: int|
                    0 <= j < k && #[trigger] self.stack@[j] == id && self.window_of(
                        id,
                    ).rect.spec_contains(p) && self.no_hit_in(j + 1, k, p),
                None => self.no_hit_in(0, k, p),
            },
        decreases k,
    {
        if k > 0 {
            if self.window_of(self.stack@[k - 1]).rect.spec_contains(p) {
                assert(self.stack@[k - 1] == self.stack@[k - 1] && self.no_hit_in(k, k, p));
            } else {
                self.lemma_hit_below(k - 1, p);
            }
        }
    }

    /// Law: the element found at a point is the most recently raised window
    /// (the topmost in stacking order, where both mapping and raising put a
    /// window on top) among all whose geometry contains the point; when no
    /// mapped window contains the point, nothing is found.
    pub proof fn law_element_at(self, p: Point)
        requires
            self.wf(),
        ensures
            match self.spec_element_at(p) {
                Some(id) => exists|j: int|
                    0 <= j < self.stack@.len() && #[trigger] self.stack@[j] == id
                        && self.window_of(id).rect.spec_contains(p) && self.no_hit_in(
                        j + 1,
                        self.stack@.len() as int,
                        p,
                    ),
                None => self.no_hit_in(0, self.stack@.len() as int, p),
            },
    {
        self.lemma_hit_below(self.stack@.len() as int, p);
    }

    /// Hit test: the topmost window whose geometry contains `p`, scanning
    /// the stack from most recently raised to least; none if no window
    /// contains `p`.
    pub fn element_at(&self, p: Point) -> (r: Option<u64>)
        requires
            self.wf(),
        ensures
            r == self.spec_element_at(p),
    {
        let mut k: usize = self.stack.len();
        while k > 0
            invariant
                self.wf(),
                k <= self.stack@.len(),
                self.spec_element_at(p) == self.hit_below(k as int, p),
            decreases k,
        {
            k = k - 1;
            let id = self.stack[k];
            proof {
                assert(self.has_id(id));
            }
            let i = match self.find(id) {
                Some(i) => i,
                None => {
                    proof {
                        assert(false);
                    }
                    return None;
                },
            };
            proof {
                self.lemma_idx_of(i as int);
            }
            if self.windows[i].rect.contains(p) {
                return Some(id);
            }
        }
        None
    }

    /// A copy of `w` occupying tiling slot `i` out of `n` on an output of
    /// size `out`: x advances by one slot width per map-order position.
    pub open spec fn tiled_at(w: Window, i: int, n: int, out: Size) -> Window {
        Window {
            rect: Rect {
                pos: Point { x: (i * (out.w as int / n)) as i32, y: 0 },
                size: Size { w: (out.w as int / n) as i32, h: out.h },
            },
            tiled: true,
            ..w
        }
    }

    /// Auto-arrange for the tiling policy: each of the N mapped windows is
    /// assigned width `output_width / N` (integer division) and full output
    /// height, side by side in left-to-right map order. Positions chosen by
    /// the floating policy are remembered, not overwritten.
    pub fn arrange(&mut self)
        requires
            old(self).wf(),
            old(self).windows@.len() <= i32::MAX,
        ensures
            final(self).wf(),
            final(self).windows@.len() == old(self).windows@.len(),
            final(self).stack@ == old(self).stack@,
            final(self).output_size == old(self).output_size,
            final(self).tiling == old(self).tiling,
            forall|i: int|
                0 <= i < old(self).windows@.len() ==> final(self).windows@[i] == Self::tiled_at(
                    old(self).windows@[i],
                    i,
                    old(self).windows@.len() as int,
                    old(self).output_size,
                ),
    {
        let n = self.windows.len();
        if n == 0 {
            return;
        }
        let ghost out_w = self.output_size.w as int;
        let slot_w = ((self.output_size.w as u64) / (n as u64)) as i32;
        proof {
            lemma_fundamental_div_mod(out_w, n as int);
            lemma_mod_bound(out_w, n as int);
            assert(slot_w == out_w / n as int);
        }
        let mut i: usize = 0;
        while i < n
            invariant
                self.stack@ == old(self).stack@,
                self.output_size == old(self).output_size,
                self.tiling == old(self).tiling,
                old(self).wf(),
                n == self.windows@.len() == old(self).windows@.len(),
                0 < n,
                i <= n,
                slot_w == old(self).output_size.w as int / n as int,
                0 <= slot_w,
                (n as int) * (slot_w as int) <= old(self).output_size.w,
                forall|j: int|
                    0 <= j < i ==> self.windows@[j] == Self::tiled_at(
                        old(self).windows@[j],
                        j,
                        n as int,
                        old(self).output_size,
                    ),
                forall|j: int| i <= j < n ==> self.windows@[j] == old(self).windows@[j],
            decreases n - i,
        {
            proof {
                lemma_mul_inequality(i as int, n as int - 1, slot_w as int);
                assert((n as int - 1) * (slot_w as int) == (n as int) * (slot_w as int) - (
                slot_w as int)) by (nonlinear_arith);
            }
            let x = ((i as u64) * (slot_w as u64)) as i32;
            let w = self.windows[i];
            let tiled = Window {
                rect: Rect {
                    pos: Point { x, y: 0 },
                    size: Size { w: slot_w, h: self.output_size.h },
                },
                tiled: true,
                ..w
            };
            self.windows.set(i, tiled);
            i = i + 1;
        }
        proof {
            let ws = self.windows@;
            let olds = old(self).windows@;
            assert forall|m: int| 0 <= m < self.stack@.len() implies self.has_id(
                #[trigger] self.stack@[m],
            ) by {
                assert(old(self).has_id(old(self).stack@[m]));
                let j = choose|j: int|
                    0 <= j < olds.len() && olds[j].id == old(self).stack@[m];
                assert(ws[j].id == old(self).stack@[m]);
            }
            assert forall|m: int| 0 <= m < ws.len() implies self.stack@.contains(
                (#[trigger] ws[m]).id,
            ) by {
                assert(ws[m].id == olds[m].id);
                assert(self.stack@.contains(olds[m].id));
            }
        }
    }

    /// Switch the placement policy. Disabling tiling restores every window's
    /// last explicitly chosen floating position (idempotent, per design);
    /// enabling it only sets the flag — the caller invokes `arrange` next.
    pub fn set_tiling(&mut self, on: bool)
        requires
            old(self).wf(),
        ensures
            final(self).wf(),
            final(self).tiling == on,
            final(self).stack@ == old(self).stack@,
            final(self).output_size == old(self).output_size,
            final(self).windows@.len() == old(self).windows@.len(),
            on ==> final(self).windows@ == old(self).windows@,
            !on ==> forall|i: int|
                0 <= i < old(self).windows@.len() ==> final(self).windows@[i] == (Window {
                    rect: Rect {
                        pos: old(self).windows@[i].floating_pos,
                        ..old(self).windows@[i].rect
                    },
                    tiled: false,
                    ..old(self).windows@[i]
                }),
    {
        self.tiling = on;
        if on {
            return;
        }
        let n = self.windows.len();
        let mut i: usize = 0;
        while i < n
            invariant
                self.stack@ == old(self).stack@,
                self.output_size == old(self).output_size,
                self.tiling == old(self).tiling || !self.tiling,
                !self.tiling,
                old(self).wf(),
                n == self.windows@.len() == old(self).windows@.len(),
                i <= n,
                forall|j: int|
                    0 <= j < i ==> self.windows@[j] == (Window {
                        rect: Rect {
                            pos: old(self).windows@[j].floating_pos,
                            ..old(self).windows@[j].rect
                        },
                        tiled: false,
                        ..old(self).windows@[j]
                    }),
                forall|j: int| i <= j < n ==> self.windows@[j] == old(self).windows@[j],
            decreases n - i,
        {
            let w = self.windows[i];
            let restored = Window {
                rect: Rect { pos: w.floating_pos, ..w.rect },
                tiled: false,
                ..w
            };
            self.windows.set(i, restored);
            i = i + 1;
        }
        proof {
            let ws = self.windows@;
            let olds = old(self).windows@;
            assert forall|m: int| 0 <= m < self.stack@.len() implies self.has_id(
                #[trigger] self.stack@[m],
            ) by {
                assert(old(self).has_id(old(self).stack@[m]));
                let j = choose|j: int|
                    0 <= j < olds.len() && olds[j].id == old(self).stack@[m];
                assert(ws[j].id == old(self).stack@[m]);
            }
            assert forall|m: int| 0 <= m < ws.len() implies self.stack@.contains(
                (#[trigger] ws[m]).id,
            ) by {
                assert(ws[m].id == olds[m].id);
                assert(self.stack@.contains(olds[m].id));
            }
        }
    }

    /// The render elements of the current scene: each mapped window's
    /// surface and placement, bottom to top in stacking order — the draw
    /// order of the damage-tracked render pass.
    pub fn render_list(&self) -> (r: Vec<(u64, Rect)>)
        requires
            self.wf(),
        ensures
            r@.len() == self.stack@.len(),
            forall|k: int|
                0 <= k < r@.len() ==> #[trigger] r@[k] == (
                    self.window_of(self.stack@[k]).surface,
                    self.window_of(self.stack@[k]).rect,
                ),
    {
        let mut r: Vec<(u64, Rect)> = Vec::new();
        let mut k: usize = 0;
        while k < self.stack.len()
            invariant
                self.wf(),
                k <= self.stack@.len(),
                r@.len() == k,
                forall|m: int|
                    0 <= m < k ==> #[trigger] r@[m] == (
                        self.window_of(self.stack@[m]).surface,
                        self.window_of(self.stack@[m]).rect,
                    ),
            decreases self.stack@.len() - k,
        {
            let id = self.stack[k];
            proof {
                assert(self.has_id(id));
            }
            let i = match self.find(id) {
                Some(i) => i,
                None => {
                    proof {
                        assert(false);
                    }
                    return r;
                },
            };
            proof {
                self.lemma_idx_of(i as int);
            }
            let w = &self.windows[i];
            r.push((w.surface, w.rect));
            k = k + 1;
        }
        r
    }

    /// Law: role uniqueness. In a well-formed space no two windows reference
    /// the same surface — and every mutation of `Space` ensures
    /// well-formedness, so this holds after any operation sequence.
    pub proof fn law_role_uniqueness(self)
        requires
            self.wf(),
        ensures
            forall|i: int, j: int|
                0 <= i < self.windows@.len() && 0 <= j < self.windows@.len() && i != j ==> (
                #[trigger] self.windows@[i]).surface != (#[trigger] self.windows@[j]).surface,
    {
    }
}

} // verus!
