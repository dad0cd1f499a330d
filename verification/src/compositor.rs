//! The compositor core: one state object exposing the fixed capability
//! table that protocol and input events are routed through. Every handler
//! is a decision function: it updates the scene, the seat and the
//! bookkeeping, and returns the configure events the caller must put on
//! the wire.
//!
//! All state lives on the single dispatcher thread; handlers run to
//! completion between waits, so their total order is the dispatcher order.

use vstd::prelude::*;

use crate::bridge::{BridgeError, LegacyBridge};
use crate::config::{Config, PlacementPolicy};
use crate::entropy::random_position;
use crate::geometry::{Point, Rect, Size};
use crate::output::{OutputBinding, OutputSlot, Pipeline};
use crate::seat::{Edges, GrabState, Seat};
use crate::shell::{ConfigureEvent, Popup, Role, RoleError, SurfaceRegistry};
use crate::space::{MapError, Space, Window};

verus! {

/// Why a core request failed. Protocol violations terminate the offending
/// client; everything else is isolated to the request.
#[derive(Clone, Copy, Debug, PartialEq, Eq, Structural)]
pub enum CoreError {
    /// A role-state violation by the client.
    Role(RoleError),
    /// The scene rejected the mapping.
    Scene(MapError),
    /// A legacy-bridge bookkeeping error.
    Bridge(BridgeError),
    /// No surface with a matching role/window was found.
    UnknownSurface,
    /// Window identities or scene capacity are exhausted.
    CapacityExhausted,
    /// A computed placement left the coordinate range.
    PositionOutOfRange,
}

/// What a toplevel mapping produced: the new scene window and the
/// configure events to send (the activated configure first, then — while
/// tiling is active — one resize configure per arranged window).
pub struct MapReply {
    pub window: u64,
    pub configures: Vec<ConfigureEvent>,
}

/// What a legacy window's map produced: the scene window backing it (none
/// for an override-redirect window, which the scene never auto-places) and
/// the configure events to send, the configure-notify acknowledgement
/// first.
pub struct BridgeMapReply {
    pub scene_window: Option<u64>,
    pub configures: Vec<ConfigureEvent>,
}

/// The compositor core state.
pub struct Compositor {
    pub config: Config,
    /// Which role each surface holds.
    pub registry: SurfaceRegistry,
    /// The scene: mapped windows with stacking order.
    pub space: Space,
    /// Focus and the pointer grab state machine.
    pub seat: Seat,
    /// The popup chain, bottom to top; dismissed from the top.
    pub popups: Vec<Popup>,
    /// Layer surfaces, each bound to one output.
    pub layers: Vec<crate::shell::LayerSurface>,
    /// The hardware output path.
    pub pipeline: Pipeline,
    /// The legacy-window bridge.
    pub bridge: LegacyBridge,
    /// Last observed pointer location in logical coordinates.
    pub pointer_location: Point,
    /// Whether a move/resize modifier key is held.
    pub modifier_held: bool,
    /// Whether the command modifier (for keybindings) is held.
    pub command_held: bool,
    /// The next unused scene window identity.
    pub next_window_id: u64,
}

impl Compositor {
    /// The core invariant, threaded through every handler.
    pub open spec fn wf(self) -> bool {
        &&& self.config.valid()
        &&& self.registry.wf()
        &&& self.space.wf()
        &&& self.pipeline.wf()
        &&& self.bridge.wf()
        &&& self.space.windows@.len() <= i32::MAX
        &&& forall|i: int|
            0 <= i < self.space.windows@.len() ==> (#[trigger] self.space.windows@[i]).id
                < self.next_window_id
        &&& forall|i: int, j: int|
            0 <= i < j < self.popups@.len() ==> (#[trigger] self.popups@[i]).surface != (
            #[trigger] self.popups@[j]).surface
        &&& forall|i: int, j: int|
            0 <= i < j < self.layers@.len() ==> (#[trigger] self.layers@[i]).surface != (
            #[trigger] self.layers@[j]).surface
    }

    /// Whether some tracked popup uses `surface`.
    pub open spec fn spec_has_popup(self, surface: u64) -> bool {
        exists|i: int| 0 <= i < self.popups@.len() && (#[trigger] self.popups@[i]).surface == surface
    }

    /// Index of the popup using `surface`.
    pub open spec fn popup_idx(self, surface: u64) -> int {
        choose|i: int| 0 <= i < self.popups@.len() && (#[trigger] self.popups@[i]).surface == surface
    }

    /// Whether some layer surface uses `surface`.
    pub open spec fn spec_has_layer(self, surface: u64) -> bool {
        exists|i: int| 0 <= i < self.layers@.len() && (#[trigger] self.layers@[i]).surface == surface
    }

    /// The absolute position popup placement is resolved against: the
    /// parent window's position when the parent surface backs one, else
    /// the output origin (layer surfaces and unmapped parents sit there).
    pub open spec fn parent_base(self, parent: u64) -> Point {
        if self.space.has_surface(parent) {
            self.space.windows@[self.space.idx_of_surface(parent)].rect.pos
        } else {
            Point { x: 0, y: 0 }
        }
    }

    /// Look up the absolute position of a popup's parent.
    fn lookup_parent_base(&self, parent: u64) -> (r: Point)
        requires
            self.wf(),
        ensures
            r == self.parent_base(parent),
    {
        match self.space.find_by_surface(parent) {
            Some(i) => {
                proof {
                    self.space.lemma_idx_of_surface(i as int);
                }
                self.space.windows[i].rect.pos
            },
            None => Point { x: 0, y: 0 },
        }
    }

    /// The popups that survive the destruction of `surface`: everything but
    /// the popup the surface itself carries and the popups parented to it
    /// (a popup's lifetime is bounded by its parent's), in their old order.
    pub open spec fn surviving_popups(s: Seq<Popup>, surface: u64) -> Seq<Popup>
        decreases s.len(),
    {
        if s.len() == 0 {
            Seq::empty()
        } else if s.last().surface != surface && s.last().parent != surface {
            Self::surviving_popups(s.drop_last(), surface).push(s.last())
        } else {
            Self::surviving_popups(s.drop_last(), surface)
        }
    }

    /// How `surviving_popups` grows with one more popup.
    proof fn lemma_surviving_step(s: Seq<Popup>, i: int, surface: u64)
        requires
            0 <= i < s.len(),
        ensures
            Self::surviving_popups(s.take(i + 1), surface) == if s[i].surface != surface
                && s[i].parent != surface {
                Self::surviving_popups(s.take(i), surface).push(s[i])
            } else {
                Self::surviving_popups(s.take(i), surface)
            },
    {
        assert(s.take(i + 1).drop_last() =~= s.take(i));
        assert(s.take(i + 1).last() == s[i]);
    }

    /// Look up the index of the popup using `surface`.
    fn find_popup(&self, surface: u64) -> (r: Option<usize>)
        ensures
            match r {
                Some(i) => i < self.popups@.len() && self.popups@[i as int].surface == surface,
                None => !self.spec_has_popup(surface),
            },
    {
        let mut i: usize = 0;
        while i < self.popups.len()
            invariant
                i <= self.popups@.len(),
                forall|j: int| 0 <= j < i ==> (#[trigger] self.popups@[j]).surface != surface,
            decreases self.popups@.len() - i,
        {
            if self.popups[i].surface == surface {
                return Some(i);
            }
            i = i + 1;
        }
        None
    }

    /// Look up the index of the layer surface using `surface`.
    fn find_layer(&self, surface: u64) -> (r: Option<usize>)
        ensures
            match r {
                Some(i) => i < self.layers@.len() && self.layers@[i as int].surface == surface,
                None => !self.spec_has_layer(surface),
            },
    {
        let mut i: usize = 0;
        while i < self.layers.len()
            invariant
                i <= self.layers@.len(),
                forall|j: int| 0 <= j < i ==> (#[trigger] self.layers@[j]).surface != surface,
            decreases self.layers@.len() - i,
        {
            if self.layers[i].surface == surface {
                return Some(i);
            }
            i = i + 1;
        }
        None
    }

    /// Build the core around one output of the given size and the recorded
    /// hardware bindings (empty for a windowed development backend).
    pub fn new(config: Config, output_size: Size, bindings: &Vec<OutputBinding>) -> (c: Compositor)
        requires
            config.valid(),
            output_size.valid(),
            forall|i: int, j: int|
                0 <= i < j < bindings@.len() ==> (#[trigger] bindings@[i]).crtc != (
                #[trigger] bindings@[j]).crtc,
        ensures
            c.wf(),
            c.config == config,
            c.space.windows@.len() == 0,
            c.space.stack@.len() == 0,
            c.space.output_size == output_size,
            !c.space.tiling,
            c.seat.grab is Idle,
            c.seat.keyboard_focus is None,
            c.seat.pointer_focus is None,
            c.seat.pressed_buttons == 0,
            c.pipeline.slots@.len() == bindings@.len(),
            forall|i: int|
                0 <= i < bindings@.len() ==> (#[trigger] c.pipeline.slots@[i]) == (OutputSlot {
                    binding: bindings@[i],
                    damage_size: bindings@[i].mode.size,
                    in_flight: false,
                    configured: false,
                }),
            !c.pipeline.suspended,
            !c.bridge.wm_active,
            c.bridge.windows@.len() == 0,
            c.popups@.len() == 0,
            c.layers@.len() == 0,
            c.registry.entries@.len() == 0,
            c.pointer_location == (Point { x: 0, y: 0 }),
            !c.modifier_held,
            !c.command_held,
            c.next_window_id == 1,
    {
        Compositor {
            config,
            registry: SurfaceRegistry::new(),
            space: Space::new(output_size),
            seat: Seat::new(),
            popups: Vec::new(),
            layers: Vec::new(),
            pipeline: Pipeline::new(bindings),
            bridge: LegacyBridge::new(),
            pointer_location: Point { x: 0, y: 0 },
            modifier_held: false,
            command_held: false,
            next_window_id: 1,
        }
    }

    /// Where the cascade places the `n`-th window (one coordinate): the
    /// origin advanced by one step per already-mapped window, saturating at
    /// the coordinate maximum.
    pub open spec fn spec_cascade_coord(config: Config, n: int) -> int {
        let v = config.cascade_origin + config.cascade_step * n;
        if v > i32::MAX {
            i32::MAX as int
        } else {
            v
        }
    }

    /// Whether `pos` is a placement the configured policy allows for the
    /// `n`-th window: the exact cascade point, or any point inside the
    /// floating region for randomized placement.
    pub open spec fn placement_ok(config: Config, n: int, pos: Point) -> bool {
        match config.placement {
            PlacementPolicy::Cascade => pos.x == Self::spec_cascade_coord(config, n) && pos.y
                == Self::spec_cascade_coord(config, n),
            PlacementPolicy::Randomized => 0 <= pos.x < config.floating_region.w && 0 <= pos.y
                < config.floating_region.h,
        }
    }

    /// Choose the initial position for the next toplevel.
    fn initial_position(&self) -> (pos: Point)
        requires
            self.wf(),
        ensures
            Self::placement_ok(self.config, self.space.windows@.len() as int, pos),
    {
        match self.config.placement {
            PlacementPolicy::Cascade => {
                let n = self.space.windows.len() as i64;
                proof {
                    let step = self.config.cascade_step as int;
                    assert(0 <= step * n <= 0x7fff_ffff * 0x8000_0000int) by (nonlinear_arith)
                        requires
                            0 < step <= 0x7fff_ffff,
                            0 <= n <= 0x7fff_ffff,
                    ;
                }
                let v: i64 = self.config.cascade_origin as i64 + self.config.cascade_step as i64
                    * n;
                let coord: i32 = if v > i32::MAX as i64 {
                    i32::MAX
                } else {
                    v as i32
                };
                Point { x: coord, y: coord }
            },
            PlacementPolicy::Randomized => random_position(self.config.floating_region),
        }
    }

    /// One resize configure per mapped window, carrying its current size —
    /// what the tiling pass sends after rearranging.
    fn tile_configures(&self) -> (r: Vec<ConfigureEvent>)
        requires
            self.wf(),
        ensures
            r@.len() == self.space.windows@.len(),
            forall|k: int|
                0 <= k < r@.len() ==> #[trigger] r@[k] == (ConfigureEvent {
                    surface: self.space.windows@[k].surface,
                    size: Some(self.space.windows@[k].rect.size),
                    activated: false,
                    fullscreen: false,
                    maximized: false,
                    server_side_decorations: false,
                }),
    {
        let mut r: Vec<ConfigureEvent> = Vec::new();
        let mut i: usize = 0;
        while i < self.space.windows.len()
            invariant
                i <= self.space.windows@.len(),
                r@.len() == i,
                forall|k: int|
                    0 <= k < i ==> #[trigger] r@[k] == (ConfigureEvent {
                        surface: self.space.windows@[k].surface,
                        size: Some(self.space.windows@[k].rect.size),
                        activated: false,
                        fullscreen: false,
                        maximized: false,
                        server_side_decorations: false,
                    }),
            decreases self.space.windows@.len() - i,
        {
            let w = &self.space.windows[i];
            r.push(
                ConfigureEvent {
                    surface: w.surface,
                    size: Some(w.rect.size),
                    activated: false,
                    fullscreen: false,
                    maximized: false,
                    server_side_decorations: false,
                },
            );
            i = i + 1;
        }
        r
    }

    /// Whether a toplevel role request for `surface` can be honoured.
    pub open spec fn can_map_toplevel(self, surface: u64) -> bool {
        &&& !self.registry.spec_has_role(surface)
        &&& !self.space.has_surface(surface)
        &&& !self.space.output_size.spec_is_empty()
        &&& self.next_window_id < u64::MAX
        &&& self.space.windows@.len() < i32::MAX
    }

    /// A client requests the toplevel role for `surface`: create a window,
    /// insert it into the scene at the placement the policy picks, give it
    /// keyboard focus, and answer with an activated configure. While tiling
    /// is active the scene is rearranged and every window receives its
    /// resize configure after the activated one.
    pub fn new_toplevel(&mut self, surface: u64) -> (r: Result<MapReply, CoreError>)
        requires
            old(self).wf(),
        ensures
            final(self).wf(),
            r is Ok <==> old(self).can_map_toplevel(surface),
            r is Err ==> *final(self) == *old(self),
            old(self).registry.spec_has_role(surface) ==> r == Err::<MapReply, CoreError>(
                CoreError::Role(RoleError::RoleAlreadySet),
            ),
            !old(self).registry.spec_has_role(surface) && old(self).space.output_size.spec_is_empty()
                ==> r == Err::<MapReply, CoreError>(CoreError::Scene(MapError::EmptyOutput)),
            !old(self).registry.spec_has_role(surface) && !old(
                self,
            ).space.output_size.spec_is_empty() && (old(self).next_window_id == u64::MAX || old(
                self,
            ).space.windows@.len() >= i32::MAX) ==> r == Err::<MapReply, CoreError>(
                CoreError::CapacityExhausted,
            ),
            !old(self).registry.spec_has_role(surface) && !old(
                self,
            ).space.output_size.spec_is_empty() && old(self).next_window_id < u64::MAX && old(
                self,
            ).space.windows@.len() < i32::MAX && old(self).space.has_surface(surface) ==> r
                == Err::<MapReply, CoreError>(CoreError::Scene(MapError::SurfaceInUse)),
            final(self).space.output_size == old(self).space.output_size,
            final(self).space.tiling == old(self).space.tiling,
            match r {
                Ok(reply) => {
                    &&& reply.window == old(self).next_window_id
                    &&& final(self).next_window_id == old(self).next_window_id + 1
                    &&& final(self).space.windows@.len() == old(self).space.windows@.len() + 1
                    &&& final(self).space.windows@[old(self).space.windows@.len() as int].id
                        == reply.window
                    &&& final(self).space.windows@[old(self).space.windows@.len() as int].surface
                        == surface
                    &&& !final(self).space.windows@[old(self).space.windows@.len() as int].legacy
                    &&& Self::placement_ok(
                        old(self).config,
                        old(self).space.windows@.len() as int,
                        final(self).space.windows@[old(self).space.windows@.len() as int].floating_pos,
                    )
                    &&& final(self).space.stack@.last() == reply.window
                    &&& final(self).seat.keyboard_focus == Some(reply.window)
                    &&& final(self).registry.spec_has_role(surface)
                    &&& reply.configures@.len() > 0
                    &&& reply.configures@[0] == (ConfigureEvent {
                        surface,
                        size: None,
                        activated: true,
                        fullscreen: false,
                        maximized: false,
                        server_side_decorations: false,
                    })
                    &&& old(self).space.tiling ==> {
                        let n1 = old(self).space.windows@.len() + 1;
                        &&& reply.configures@.len() == 1 + n1
                        &&& forall|i: int|
                            0 <= i < n1 ==> final(self).space.windows@[i] == Space::tiled_at(
                                if i < old(self).space.windows@.len() {
                                    old(self).space.windows@[i]
                                } else {
                                    final(self).space.windows@[i]
                                },
                                i,
                                n1 as int,
                                old(self).space.output_size,
                            )
                        &&& forall|k: int|
                            0 <= k < n1 ==> #[trigger] reply.configures@[k + 1] == (ConfigureEvent {
                                surface: final(self).space.windows@[k].surface,
                                size: Some(final(self).space.windows@[k].rect.size),
                                activated: false,
                                fullscreen: false,
                                maximized: false,
                                server_side_decorations: false,
                            })
                    }
                    &&& !old(self).space.tiling ==> reply.configures@.len() == 1
                        && final(self).space.windows@[old(self).space.windows@.len() as int].rect.pos
                        == final(self).space.windows@[old(self).space.windows@.len() as int].floating_pos
                },
                Err(_) => true,
            },
    {
        if self.registry.has_role(surface) {
            return Err(CoreError::Role(RoleError::RoleAlreadySet));
        }
        if self.next_window_id == u64::MAX || self.space.windows.len() >= i32::MAX as usize {
            if self.space.output_size.is_empty() {
                return Err(CoreError::Scene(MapError::EmptyOutput));
            }
            return Err(CoreError::CapacityExhausted);
        }
        let id = self.next_window_id;
        let pos = self.initial_position();
        let w = Window::new(id, surface, false);
        proof {
            assert(!self.space.has_id(id));
        }
        match self.space.map(w, pos) {
            Ok(()) => {},
            Err(MapError::EmptyOutput) => {
                return Err(CoreError::Scene(MapError::EmptyOutput));
            },
            Err(MapError::SurfaceInUse) => {
                return Err(CoreError::Scene(MapError::SurfaceInUse));
            },
            Err(MapError::DuplicateWindow) => {
                proof {
                    assert(false);
                }
                return Err(CoreError::Scene(MapError::DuplicateWindow));
            },
        }
        let role_given = self.registry.give_role(surface, Role::Toplevel);
        proof {
            assert(role_given is Ok);
        }
        self.next_window_id = id + 1;
        self.seat.keyboard_focus = Some(id);
        let mut configures: Vec<ConfigureEvent> = Vec::new();
        configures.push(
            ConfigureEvent {
                surface,
                size: None,
                activated: true,
                fullscreen: false,
                maximized: false,
                server_side_decorations: false,
            },
        );
        if self.space.tiling {
            self.space.arrange();
            let mut tiles = self.tile_configures();
            configures.append(&mut tiles);
        }
        Ok(MapReply { window: id, configures })
    }

    /// A client requests fullscreen for its toplevel on the output: the
    /// window is resized to the output's geometry and marked fullscreen.
    /// This depends only on the output's geometry — never on what else
    /// (legacy-bridge windows included) the output hosts.
    pub fn fullscreen_request(&mut self, surface: u64) -> (r: Result<ConfigureEvent, CoreError>)
        requires
            old(self).wf(),
        ensures
            final(self).wf(),
            r is Ok <==> old(self).space.has_surface(surface),
            r is Err ==> *final(self) == *old(self) && r == Err::<ConfigureEvent, CoreError>(
                CoreError::UnknownSurface,
            ),
            final(self).space.stack@ == old(self).space.stack@,
            final(self).seat == old(self).seat,
            r is Ok ==> {
                &&& final(self).space.windows@ == old(self).space.windows@.update(
                    old(self).space.idx_of_surface(surface),
                    Window {
                        rect: Rect {
                            size: old(self).space.output_size,
                            ..old(self).space.windows@[old(self).space.idx_of_surface(surface)].rect
                        },
                        fullscreen: true,
                        ..old(self).space.windows@[old(self).space.idx_of_surface(surface)]
                    },
                )
                &&& r == Ok::<ConfigureEvent, CoreError>(ConfigureEvent {
                    surface,
                    size: Some(old(self).space.output_size),
                    activated: false,
                    fullscreen: true,
                    maximized: false,
                    server_side_decorations: false,
                })
            },
    {
        let i = match self.space.find_by_surface(surface) {
            Some(i) => i,
            None => {
                return Err(CoreError::UnknownSurface);
            },
        };
        proof {
            self.space.lemma_idx_of_surface(i as int);
        }
        let id = self.space.windows[i].id;
        let maximized = self.space.windows[i].maximized;
        let size = self.space.output_size;
        proof {
            self.space.lemma_idx_of(i as int);
        }
        let applied = self.space.apply_state(id, size, true, maximized);
        proof {
            assert(applied);
        }
        Ok(
            ConfigureEvent {
                surface,
                size: Some(size),
                activated: false,
                fullscreen: true,
                maximized: false,
                server_side_decorations: false,
            },
        )
    }

    /// A client requests maximize: the window takes the output's geometry
    /// and is marked maximized.
    pub fn maximize_request(&mut self, surface: u64) -> (r: Result<ConfigureEvent, CoreError>)
        requires
            old(self).wf(),
        ensures
            final(self).wf(),
            r is Ok <==> old(self).space.has_surface(surface),
            r is Err ==> *final(self) == *old(self) && r == Err::<ConfigureEvent, CoreError>(
                CoreError::UnknownSurface,
            ),
            final(self).space.stack@ == old(self).space.stack@,
            final(self).seat == old(self).seat,
            r is Ok ==> {
                &&& final(self).space.windows@ == old(self).space.windows@.update(
                    old(self).space.idx_of_surface(surface),
                    Window {
                        rect: Rect {
                            size: old(self).space.output_size,
                            ..old(self).space.windows@[old(self).space.idx_of_surface(surface)].rect
                        },
                        maximized: true,
                        ..old(self).space.windows@[old(self).space.idx_of_surface(surface)]
                    },
                )
                &&& r == Ok::<ConfigureEvent, CoreError>(ConfigureEvent {
                    surface,
                    size: Some(old(self).space.output_size),
                    activated: false,
                    fullscreen: false,
                    maximized: true,
                    server_side_decorations: false,
                })
            },
    {
        let i = match self.space.find_by_surface(surface) {
            Some(i) => i,
            None => {
                return Err(CoreError::UnknownSurface);
            },
        };
        proof {
            self.space.lemma_idx_of_surface(i as int);
            self.space.lemma_idx_of(i as int);
        }
        let id = self.space.windows[i].id;
        let fullscreen = self.space.windows[i].fullscreen;
        let size = self.space.output_size;
        let applied = self.space.apply_state(id, size, fullscreen, true);
        proof {
            assert(applied);
        }
        Ok(
            ConfigureEvent {
                surface,
                size: Some(size),
                activated: false,
                fullscreen: false,
                maximized: true,
                server_side_decorations: false,
            },
        )
    }

    /// Decoration negotiation (creation, mode request and mode unset
    /// alike): this compositor always answers server-side decorations.
    pub fn decoration_request(&self, surface: u64) -> (r: ConfigureEvent)
        ensures
            r == (ConfigureEvent {
                surface,
                size: None,
                activated: false,
                fullscreen: false,
                maximized: false,
                server_side_decorations: true,
            }),
    {
        ConfigureEvent {
            surface,
            size: None,
            activated: false,
            fullscreen: false,
            maximized: false,
            server_side_decorations: true,
        }
    }

    /// A client requests the popup role for `surface`, positioned against
    /// `parent` by `positioner`. The popup joins the top of the popup chain.
    pub fn new_popup(&mut self, surface: u64, parent: u64, positioner: crate::shell::Positioner) -> (r: Result<ConfigureEvent, CoreError>)
        requires
            old(self).wf(),
            positioner.anchor.valid(),
            positioner.size.valid(),
        ensures
            final(self).wf(),
            r is Ok <==> !old(self).registry.spec_has_role(surface) && !old(self).spec_has_popup(
                surface,
            ) && crate::shell::spec_popup_geometry_fits(
                positioner,
                old(self).parent_base(parent),
                old(self).space.output_size,
            ),
            r is Err ==> *final(self) == *old(self),
            old(self).registry.spec_has_role(surface) ==> r == Err::<ConfigureEvent, CoreError>(
                CoreError::Role(RoleError::RoleAlreadySet),
            ),
            r is Ok ==> {
                &&& final(self).popups@ == old(self).popups@.push(Popup {
                    surface,
                    parent,
                    geometry: crate::shell::spec_popup_geometry(
                        positioner,
                        old(self).parent_base(parent),
                        old(self).space.output_size,
                    ),
                })
                &&& final(self).registry.spec_has_role(surface)
                &&& r == Ok::<ConfigureEvent, CoreError>(ConfigureEvent {
                    surface,
                    size: Some(positioner.size),
                    activated: false,
                    fullscreen: false,
                    maximized: false,
                    server_side_decorations: false,
                })
            },
    {
        if self.registry.has_role(surface) {
            return Err(CoreError::Role(RoleError::RoleAlreadySet));
        }
        if self.find_popup(surface).is_some() {
            return Err(CoreError::Role(RoleError::RoleAlreadySet));
        }
        let base = self.lookup_parent_base(parent);
        let geometry = match crate::shell::popup_geometry(positioner, base, self.space.output_size) {
            Some(g) => g,
            None => {
                return Err(CoreError::PositionOutOfRange);
            },
        };
        let role_given = self.registry.give_role(surface, Role::Popup);
        proof {
            assert(role_given is Ok);
        }
        self.popups.push(Popup { surface, parent, geometry });
        proof {
            assert forall|i: int, j: int|
                0 <= i < j < self.popups@.len() implies (#[trigger] self.popups@[i]).surface != (
            #[trigger] self.popups@[j]).surface by {
                if j == self.popups@.len() - 1 {
                    assert(!old(self).spec_has_popup(self.popups@[j].surface));
                }
            }
        }
        Ok(
            ConfigureEvent {
                surface,
                size: Some(positioner.size),
                activated: false,
                fullscreen: false,
                maximized: false,
                server_side_decorations: false,
            },
        )
    }

    /// A client repositions its popup with a new positioner; the popup is
    /// reconfigured in place.
    pub fn reposition_popup(&mut self, surface: u64, positioner: crate::shell::Positioner) -> (r:
        Result<ConfigureEvent, CoreError>)
        requires
            old(self).wf(),
            positioner.anchor.valid(),
            positioner.size.valid(),
        ensures
            final(self).wf(),
            r is Ok <==> old(self).spec_has_popup(surface) && crate::shell::spec_popup_geometry_fits(
                positioner,
                old(self).parent_base(old(self).popups@[old(self).popup_idx(surface)].parent),
                old(self).space.output_size,
            ),
            r is Err ==> *final(self) == *old(self),
            !old(self).spec_has_popup(surface) ==> r == Err::<ConfigureEvent, CoreError>(
                CoreError::UnknownSurface,
            ),
            r is Ok ==> {
                &&& final(self).popups@ == old(self).popups@.update(
                    old(self).popup_idx(surface),
                    Popup {
                        geometry: crate::shell::spec_popup_geometry(
                            positioner,
                            old(self).parent_base(
                                old(self).popups@[old(self).popup_idx(surface)].parent,
                            ),
                            old(self).space.output_size,
                        ),
                        ..old(self).popups@[old(self).popup_idx(surface)]
                    },
                )
                &&& r == Ok::<ConfigureEvent, CoreError>(ConfigureEvent {
                    surface,
                    size: Some(positioner.size),
                    activated: false,
                    fullscreen: false,
                    maximized: false,
                    server_side_decorations: false,
                })
            },
    {
        let i = match self.find_popup(surface) {
            Some(i) => i,
            None => {
                return Err(CoreError::UnknownSurface);
            },
        };
        proof {
            let j = self.popup_idx(surface);
            assert(0 <= j < self.popups@.len() && self.popups@[j].surface == surface);
            if j < i as int {
                assert(self.popups@[j].surface != self.popups@[i as int].surface);
            } else if (i as int) < j {
                assert(self.popups@[i as int].surface != self.popups@[j].surface);
            }
        }
        let base = self.lookup_parent_base(self.popups[i].parent);
        let geometry = match crate::shell::popup_geometry(positioner, base, self.space.output_size) {
            Some(g) => g,
            None => {
                return Err(CoreError::PositionOutOfRange);
            },
        };
        let p = self.popups[i];
        self.popups.set(i, Popup { geometry, ..p });
        proof {
            assert forall|a: int, b: int|
                0 <= a < b < self.popups@.len() implies (#[trigger] self.popups@[a]).surface != (
            #[trigger] self.popups@[b]).surface by {
                assert(self.popups@[a].surface == old(self).popups@[a].surface);
                assert(self.popups@[b].surface == old(self).popups@[b].surface);
            }
        }
        Ok(
            ConfigureEvent {
                surface,
                size: Some(positioner.size),
                activated: false,
                fullscreen: false,
                maximized: false,
                server_side_decorations: false,
            },
        )
    }

    /// Dismiss the topmost popup of the chain (how an active popup grab is
    /// unwound: in order, from the top). Returns the dismissed surface.
    pub fn dismiss_topmost_popup(&mut self) -> (r: Option<u64>)
        requires
            old(self).wf(),
        ensures
            final(self).wf(),
            old(self).popups@.len() == 0 <==> r is None,
            r is None ==> *final(self) == *old(self),
            r is Some ==> {
                &&& r == Some(old(self).popups@.last().surface)
                &&& final(self).popups@ == old(self).popups@.drop_last()
                &&& !final(self).registry.spec_has_role(old(self).popups@.last().surface)
            },
    {
        if self.popups.len() == 0 {
            return None;
        }
        let p = match self.popups.pop() {
            Some(p) => p,
            None => {
                proof {
                    assert(false);
                }
                return None;
            },
        };
        self.registry.remove(p.surface);
        Some(p.surface)
    }

    /// A client requests the layer-surface role for `surface`, anchored to
    /// `output` with the given exclusive zone (panels and the like).
    pub fn new_layer_surface(&mut self, surface: u64, output: u64, exclusive_zone: i32) -> (r:
        Result<ConfigureEvent, CoreError>)
        requires
            old(self).wf(),
        ensures
            final(self).wf(),
            r is Ok <==> !old(self).registry.spec_has_role(surface) && !old(self).spec_has_layer(
                surface,
            ),
            r is Err ==> *final(self) == *old(self),
            old(self).registry.spec_has_role(surface) ==> r == Err::<ConfigureEvent, CoreError>(
                CoreError::Role(RoleError::RoleAlreadySet),
            ),
            r is Ok ==> {
                &&& final(self).layers@ == old(self).layers@.push(crate::shell::LayerSurface {
                    surface,
                    output,
                    exclusive_zone,
                })
                &&& final(self).registry.spec_has_role(surface)
                &&& r == Ok::<ConfigureEvent, CoreError>(ConfigureEvent {
                    surface,
                    size: None,
                    activated: false,
                    fullscreen: false,
                    maximized: false,
                    server_side_decorations: false,
                })
            },
    {
        if self.registry.has_role(surface) {
            return Err(CoreError::Role(RoleError::RoleAlreadySet));
        }
        if self.find_layer(surface).is_some() {
            return Err(CoreError::Role(RoleError::RoleAlreadySet));
        }
        let role_given = self.registry.give_role(surface, Role::Layer);
        proof {
            assert(role_given is Ok);
        }
        self.layers.push(crate::shell::LayerSurface { surface, output, exclusive_zone });
        proof {
            assert forall|i: int, j: int|
                0 <= i < j < self.layers@.len() implies (#[trigger] self.layers@[i]).surface != (
            #[trigger] self.layers@[j]).surface by {
                if j == self.layers@.len() - 1 {
                    assert(!old(self).spec_has_layer(self.layers@[j].surface));
                }
            }
        }
        Ok(
            ConfigureEvent {
                surface,
                size: None,
                activated: false,
                fullscreen: false,
                maximized: false,
                server_side_decorations: false,
            },
        )
    }

    /// The output whose layer map holds `surface`, if any — consulted on a
    /// layer surface's commit to direct its frame callback.
    pub fn layer_output(&self, surface: u64) -> (r: Option<u64>)
        ensures
            match r {
                Some(out) => exists|i: int|
                    0 <= i < self.layers@.len() && (#[trigger] self.layers@[i]).surface == surface
                        && self.layers@[i].output == out,
                None => !self.spec_has_layer(surface),
            },
    {
        match self.find_layer(surface) {
            Some(i) => {
                let out = self.layers[i].output;
                proof {
                    assert(self.layers@[i as int].surface == surface && self.layers@[
                    i as int].output == out);
                }
                Some(out)
            },
            None => None,
        }
    }

    /// Everything the render pass draws for this output, in draw (bottom to
    /// top) order: first the layer surfaces (panels and the like), then the
    /// windows in stacking order. A window carries its placement; a layer
    /// surface's placement is derived from its anchors at draw time.
    pub fn render_elements(&self) -> (r: Vec<RenderElement>)
        requires
            self.wf(),
        ensures
            r@.len() == self.layers@.len() + self.space.stack@.len(),
            forall|k: int|
                0 <= k < self.layers@.len() ==> #[trigger] r@[k] == (RenderElement {
                    surface: self.layers@[k].surface,
                    placement: None,
                }),
            forall|k: int|
                0 <= k < self.space.stack@.len() ==> #[trigger] r@[self.layers@.len() + k] == (
                RenderElement {
                    surface: self.space.window_of(self.space.stack@[k]).surface,
                    placement: Some(self.space.window_of(self.space.stack@[k]).rect),
                }),
    {
        let mut r: Vec<RenderElement> = Vec::new();
        let mut k: usize = 0;
        while k < self.layers.len()
            invariant
                k <= self.layers@.len(),
                r@.len() == k,
                forall|m: int|
                    0 <= m < k ==> #[trigger] r@[m] == (RenderElement {
                        surface: self.layers@[m].surface,
                        placement: None,
                    }),
            decreases self.layers@.len() - k,
        {
            r.push(RenderElement { surface: self.layers[k].surface, placement: None });
            k = k + 1;
        }
        let windows = self.space.render_list();
        let mut m: usize = 0;
        while m < windows.len()
            invariant
                m <= windows@.len(),
                self.wf(),
                windows@.len() == self.space.stack@.len(),
                forall|j: int|
                    0 <= j < windows@.len() ==> #[trigger] windows@[j] == (
                        self.space.window_of(self.space.stack@[j]).surface,
                        self.space.window_of(self.space.stack@[j]).rect,
                    ),
                r@.len() == self.layers@.len() + m,
                forall|j: int|
                    0 <= j < self.layers@.len() ==> #[trigger] r@[j] == (RenderElement {
                        surface: self.layers@[j].surface,
                        placement: None,
                    }),
                forall|j: int|
                    0 <= j < m ==> #[trigger] r@[self.layers@.len() + j] == (RenderElement {
                        surface: self.space.window_of(self.space.stack@[j]).surface,
                        placement: Some(self.space.window_of(self.space.stack@[j]).rect),
                    }),
            decreases windows@.len() - m,
        {
            let (surface, rect) = windows[m];
            r.push(RenderElement { surface, placement: Some(rect) });
            m = m + 1;
        }
        r
    }

    /// On a surface commit that still awaits its first configure: which
    /// plain configure to send. A surface backing a window or a popup gets
    /// one; anything else gets nothing.
    pub fn initial_configure(&self, surface: u64) -> (r: Option<ConfigureEvent>)
        requires
            self.wf(),
        ensures
            r is Some <==> (self.space.has_surface(surface) || self.spec_has_popup(surface)),
            r is Some ==> r == Some(ConfigureEvent {
                surface,
                size: None,
                activated: false,
                fullscreen: false,
                maximized: false,
                server_side_decorations: false,
            }),
    {
        if self.space.find_by_surface(surface).is_some() {
            return Some(ConfigureEvent::plain(surface));
        }
        if self.find_popup(surface).is_some() {
            return Some(ConfigureEvent::plain(surface));
        }
        None
    }

    /// Route a pointer motion event. While a grab is active the motion is
    /// consumed by it — moved or resized window, nothing forwarded;
    /// otherwise the window under the pointer becomes the pointer focus and
    /// the event is forwarded there.
    pub fn pointer_motion(&mut self, pos: Point) -> (r: MotionReply)
        requires
            old(self).wf(),
        ensures
            final(self).wf(),
            final(self).pointer_location == pos,
            final(self).seat.grab == old(self).seat.grab,
            final(self).seat.keyboard_focus == old(self).seat.keyboard_focus,
            final(self).space.stack@ == old(self).space.stack@,
            final(self).space.tiling == old(self).space.tiling,
            final(self).space.output_size == old(self).space.output_size,
            match old(self).seat.grab {
                GrabState::Idle => {
                    &&& r == (MotionReply::Forward { target: old(self).space.spec_element_at(pos) })
                    &&& final(self).seat.pointer_focus == old(self).space.spec_element_at(pos)
                    &&& final(self).space.windows@ == old(self).space.windows@
                },
                GrabState::Moving { window, start_pointer, start_window_pos } => {
                    let (tx, ty) = crate::seat::move_target(start_window_pos, start_pointer, pos);
                    &&& final(self).seat.pointer_focus == old(self).seat.pointer_focus
                    &&& if i32::MIN <= tx <= i32::MAX && i32::MIN <= ty <= i32::MAX && old(
                        self,
                    ).space.has_id(window) {
                        &&& r == (MotionReply::Moved { window })
                        &&& final(self).space.windows@ == old(self).space.windows@.update(
                            old(self).space.idx_of(window),
                            Space::placed(
                                old(self).space.window_of(window),
                                Point { x: tx as i32, y: ty as i32 },
                            ),
                        )
                    } else {
                        &&& r == MotionReply::Consumed
                        &&& final(self).space.windows@ == old(self).space.windows@
                    }
                },
                GrabState::Resizing { window, edges, start_pointer, start_rect } => {
                    &&& final(self).seat.pointer_focus == old(self).seat.pointer_focus
                    &&& if old(self).space.has_id(window) {
                        let w = old(self).space.window_of(window);
                        let ((tx, ty), (tw, th)) = crate::seat::resize_target(
                            start_rect,
                            edges,
                            start_pointer,
                            pos,
                            w.min_size,
                            w.max_size,
                        );
                        if i32::MIN <= tx <= i32::MAX && i32::MIN <= ty <= i32::MAX {
                            &&& r == (MotionReply::Resized {
                                window,
                                configure: ConfigureEvent {
                                    surface: w.surface,
                                    size: Some(Size { w: tw as i32, h: th as i32 }),
                                    activated: false,
                                    fullscreen: false,
                                    maximized: false,
                                    server_side_decorations: false,
                                },
                            })
                            &&& final(self).space.windows@ == old(self).space.windows@.update(
                                old(self).space.idx_of(window),
                                Window {
                                    rect: Rect {
                                        pos: Point { x: tx as i32, y: ty as i32 },
                                        size: Size { w: tw as i32, h: th as i32 },
                                    },
                                    floating_pos: Point { x: tx as i32, y: ty as i32 },
                                    ..w
                                },
                            )
                        } else {
                            &&& r == MotionReply::Consumed
                            &&& final(self).space.windows@ == old(self).space.windows@
                        }
                    } else {
                        &&& r == MotionReply::Consumed
                        &&& final(self).space.windows@ == old(self).space.windows@
                    }
                },
            },
    {
        self.pointer_location = pos;
        match self.seat.grab {
            GrabState::Idle => {
                let target = self.space.element_at(pos);
                self.seat.pointer_focus = target;
                MotionReply::Forward { target }
            },
            GrabState::Moving { window, start_pointer, start_window_pos } => {
                match crate::seat::move_position(start_window_pos, start_pointer, pos) {
                    Some(p) => {
                        if self.space.move_to(window, p) {
                            MotionReply::Moved { window }
                        } else {
                            MotionReply::Consumed
                        }
                    },
                    None => MotionReply::Consumed,
                }
            },
            GrabState::Resizing { window, edges, start_pointer, start_rect } => {
                let i = match self.space.find(window) {
                    Some(i) => i,
                    None => {
                        return MotionReply::Consumed;
                    },
                };
                proof {
                    self.space.lemma_idx_of(i as int);
                }
                let w = self.space.windows[i];
                match crate::seat::resize_adjust(
                    start_rect,
                    edges,
                    start_pointer,
                    pos,
                    w.min_size,
                    w.max_size,
                ) {
                    Some(rect) => {
                        let moved = self.space.set_geometry(window, rect);
                        proof {
                            assert(moved);
                        }
                        MotionReply::Resized {
                            window,
                            configure: ConfigureEvent {
                                surface: w.surface,
                                size: Some(rect.size),
                                activated: false,
                                fullscreen: false,
                                maximized: false,
                                server_side_decorations: false,
                            },
                        }
                    },
                    None => MotionReply::Consumed,
                }
            },
        }
    }

    /// Route a pointer button event. A press over a window raises it and
    /// transfers keyboard focus to it; the press is forwarded to the client
    /// unless it initiates a modifier-drag move grab. A release is counted
    /// by the seat, and when no buttons remain pressed an active grab ends.
    pub fn pointer_button(&mut self, pressed: bool, button: u32) -> (r: ButtonReply)
        requires
            old(self).wf(),
        ensures
            final(self).wf(),
            final(self).space.windows@ == old(self).space.windows@,
            !pressed ==> {
                &&& r is Forward
                &&& final(self).space.stack@ == old(self).space.stack@
                &&& final(self).seat.keyboard_focus == old(self).seat.keyboard_focus
                &&& final(self).seat.pressed_buttons == if old(self).seat.pressed_buttons == 0 {
                    0int
                } else {
                    old(self).seat.pressed_buttons - 1
                }
                &&& final(self).seat.grab == if final(self).seat.pressed_buttons == 0 {
                    GrabState::Idle
                } else {
                    old(self).seat.grab
                }
            },
            pressed ==> {
                &&& match old(self).space.spec_element_at(old(self).pointer_location) {
                    Some(id) => {
                        &&& final(self).seat.keyboard_focus == Some(id)
                        &&& final(self).space.stack@ == old(self).space.stack@.remove(
                            old(self).space.stack@.index_of(id),
                        ).push(id)
                        &&& final(self).space.stack@.last() == id
                        &&& {
                            let grab_starts = button == old(self).config.drag_button && old(
                                self,
                            ).modifier_held && old(self).seat.grab is Idle;
                            if grab_starts {
                                &&& r == (ButtonReply::GrabStarted { window: id })
                                &&& final(self).seat.grab == (GrabState::Moving {
                                    window: id,
                                    start_pointer: old(self).pointer_location,
                                    start_window_pos: old(self).space.window_of(id).rect.pos,
                                })
                            } else {
                                &&& r is Forward
                                &&& final(self).seat.grab == old(self).seat.grab
                            }
                        }
                    },
                    None => {
                        &&& r is Forward
                        &&& final(self).space.stack@ == old(self).space.stack@
                        &&& final(self).seat.keyboard_focus == old(self).seat.keyboard_focus
                        &&& final(self).seat.grab == old(self).seat.grab
                    },
                }
                &&& final(self).seat.pressed_buttons == if old(self).seat.pressed_buttons
                    == u32::MAX {
                    u32::MAX as int
                } else {
                    old(self).seat.pressed_buttons + 1
                }
            },
    {
        if !pressed {
            self.seat.note_button_release();
            return ButtonReply::Forward;
        }
        self.seat.note_button_press();
        let hit = self.space.element_at(self.pointer_location);
        let id = match hit {
            Some(id) => id,
            None => {
                return ButtonReply::Forward;
            },
        };
        proof {
            self.space.law_element_at(self.pointer_location);
            assert(self.space.has_id(id));
        }
        let raised = self.space.raise(id);
        proof {
            assert(raised);
        }
        self.seat.keyboard_focus = Some(id);
        if button == self.config.drag_button && self.modifier_held {
            let i = match self.space.find(id) {
                Some(i) => i,
                None => {
                    proof {
                        assert(false);
                    }
                    return ButtonReply::Forward;
                },
            };
            proof {
                self.space.lemma_idx_of(i as int);
            }
            let wpos = self.space.windows[i].rect.pos;
            if self.seat.begin_move(id, self.pointer_location, wpos) {
                return ButtonReply::GrabStarted { window: id };
            }
        }
        ButtonReply::Forward
    }

    /// Flip the placement policy between floating and tiling. Enabling
    /// tiling arranges the scene and returns one resize configure per
    /// window; disabling restores every window's last floating position and
    /// needs no configures (sizes are kept).
    pub fn toggle_tiling(&mut self) -> (cfgs: Vec<ConfigureEvent>)
        requires
            old(self).wf(),
        ensures
            final(self).wf(),
            final(self).config == old(self).config,
            final(self).seat == old(self).seat,
            final(self).registry == old(self).registry,
            final(self).modifier_held == old(self).modifier_held,
            final(self).command_held == old(self).command_held,
            final(self).pointer_location == old(self).pointer_location,
            final(self).next_window_id == old(self).next_window_id,
            final(self).space.tiling == !old(self).space.tiling,
            final(self).space.stack@ == old(self).space.stack@,
            final(self).space.windows@.len() == old(self).space.windows@.len(),
            !old(self).space.tiling ==> {
                &&& forall|i: int|
                    0 <= i < old(self).space.windows@.len() ==> final(self).space.windows@[i]
                        == Space::tiled_at(
                        old(self).space.windows@[i],
                        i,
                        old(self).space.windows@.len() as int,
                        old(self).space.output_size,
                    )
                &&& cfgs@.len() == old(self).space.windows@.len()
                &&& forall|k: int|
                    0 <= k < cfgs@.len() ==> (#[trigger] cfgs@[k]).surface == final(self).space.windows@[k].surface && cfgs@[k].size == Some(
                        final(self).space.windows@[k].rect.size,
                    )
            },
            old(self).space.tiling ==> {
                &&& forall|i: int|
                    0 <= i < old(self).space.windows@.len() ==> final(self).space.windows@[i] == (
                    Window {
                        rect: Rect {
                            pos: old(self).space.windows@[i].floating_pos,
                            ..old(self).space.windows@[i].rect
                        },
                        tiled: false,
                        ..old(self).space.windows@[i]
                    })
                &&& cfgs@.len() == 0
            },
    {
        let on = !self.space.tiling;
        self.space.set_tiling(on);
        if on {
            self.space.arrange();
            self.tile_configures()
        } else {
            Vec::new()
        }
    }

    /// Route a key press. Modifier keys update the held flags; with the
    /// command modifier held, the exit key asks the caller to shut down and
    /// the tiling key toggles the placement policy. Everything else is
    /// forwarded to the focused client.
    pub fn handle_key_press(&mut self, key: u32) -> (r: KeyAction)
        requires
            old(self).wf(),
        ensures
            final(self).wf(),
            final(self).modifier_held == (old(self).modifier_held || key == old(
                self,
            ).config.modifier_key_a || key == old(self).config.modifier_key_b),
            final(self).command_held == (old(self).command_held || key == old(
                self,
            ).config.command_key),
            ({
                let command = old(self).command_held || key == old(self).config.command_key;
                if command && key == old(self).config.exit_key {
                    r is Quit && final(self).space.windows@ == old(self).space.windows@
                        && final(self).space.tiling == old(self).space.tiling
                } else if command && key == old(self).config.tiling_toggle_key {
                    r is TilingToggled && final(self).space.tiling == !old(self).space.tiling
                } else {
                    r is Forward && final(self).space.windows@ == old(self).space.windows@
                        && final(self).space.tiling == old(self).space.tiling
                }
            }),
    {
        if key == self.config.modifier_key_a || key == self.config.modifier_key_b {
            self.modifier_held = true;
        }
        if key == self.config.command_key {
            self.command_held = true;
        }
        if self.command_held && key == self.config.exit_key {
            return KeyAction::Quit;
        }
        if self.command_held && key == self.config.tiling_toggle_key {
            let configures = self.toggle_tiling();
            return KeyAction::TilingToggled { configures };
        }
        KeyAction::Forward
    }

    /// Route a key release: held-modifier flags are cleared; the release is
    /// forwarded to the focused client.
    pub fn handle_key_release(&mut self, key: u32)
        requires
            old(self).wf(),
        ensures
            final(self).wf(),
            final(self).modifier_held == (old(self).modifier_held && !(key == old(
                self,
            ).config.modifier_key_a || key == old(self).config.modifier_key_b)),
            final(self).command_held == (old(self).command_held && key != old(
                self,
            ).config.command_key),
            final(self).space.windows@ == old(self).space.windows@,
            final(self).seat.grab == old(self).seat.grab,
    {
        if key == self.config.modifier_key_a || key == self.config.modifier_key_b {
            self.modifier_held = false;
        }
        if key == self.config.command_key {
            self.command_held = false;
        }
    }

    /// A client's interactive move request for its toplevel: starts a move
    /// grab capturing the pointer location and the window's position.
    /// Honoured only while a button is held and no grab is active.
    pub fn move_request(&mut self, surface: u64) -> (r: bool)
        requires
            old(self).wf(),
        ensures
            final(self).wf(),
            r == (old(self).space.has_surface(surface) && old(self).seat.grab is Idle && old(
                self,
            ).seat.pressed_buttons > 0),
            !r ==> *final(self) == *old(self),
            final(self).space == old(self).space,
            r ==> final(self).seat.grab == (GrabState::Moving {
                window: old(self).space.windows@[old(self).space.idx_of_surface(surface)].id,
                start_pointer: old(self).pointer_location,
                start_window_pos: old(self).space.windows@[old(self).space.idx_of_surface(
                    surface,
                )].rect.pos,
            }),
    {
        let i = match self.space.find_by_surface(surface) {
            Some(i) => i,
            None => {
                return false;
            },
        };
        proof {
            self.space.lemma_idx_of_surface(i as int);
        }
        let id = self.space.windows[i].id;
        let wpos = self.space.windows[i].rect.pos;
        self.seat.begin_move(id, self.pointer_location, wpos)
    }

    /// A client's interactive resize request: starts a resize grab
    /// capturing the dragged edges and the window's starting geometry.
    /// Honoured only while a button is held and no grab is active.
    pub fn resize_request(&mut self, surface: u64, edges: Edges) -> (r: bool)
        requires
            old(self).wf(),
        ensures
            final(self).wf(),
            r == (old(self).space.has_surface(surface) && old(self).seat.grab is Idle && old(
                self,
            ).seat.pressed_buttons > 0),
            !r ==> *final(self) == *old(self),
            final(self).space == old(self).space,
            r ==> final(self).seat.grab == (GrabState::Resizing {
                window: old(self).space.windows@[old(self).space.idx_of_surface(surface)].id,
                edges,
                start_pointer: old(self).pointer_location,
                start_rect: old(self).space.windows@[old(self).space.idx_of_surface(
                    surface,
                )].rect,
            }),
    {
        let i = match self.space.find_by_surface(surface) {
            Some(i) => i,
            None => {
                return false;
            },
        };
        proof {
            self.space.lemma_idx_of_surface(i as int);
        }
        let id = self.space.windows[i].id;
        let wrect = self.space.windows[i].rect;
        self.seat.begin_resize(id, edges, self.pointer_location, wrect)
    }

    /// An explicit window activation: raise the window backed by `surface`
    /// to the top of its stack and transfer keyboard focus to it. Keyboard
    /// focus changes only on such explicit activation — never implicitly by
    /// pointer position. Returns whether the window exists.
    pub fn activate(&mut self, surface: u64) -> (r: bool)
        requires
            old(self).wf(),
        ensures
            final(self).wf(),
            r == old(self).space.has_surface(surface),
            !r ==> *final(self) == *old(self),
            final(self).space.windows@ == old(self).space.windows@,
            r ==> {
                let id = old(self).space.windows@[old(self).space.idx_of_surface(surface)].id;
                &&& final(self).space.stack@ == old(self).space.stack@.remove(
                    old(self).space.stack@.index_of(id),
                ).push(id)
                &&& final(self).space.stack@.last() == id
                &&& final(self).seat.keyboard_focus == Some(id)
            },
    {
        let i = match self.space.find_by_surface(surface) {
            Some(i) => i,
            None => {
                return false;
            },
        };
        proof {
            self.space.lemma_idx_of_surface(i as int);
            self.space.lemma_idx_of(i as int);
        }
        let id = self.space.windows[i].id;
        let raised = self.space.raise(id);
        proof {
            assert(raised);
        }
        self.seat.keyboard_focus = Some(id);
        true
    }

    /// The surface under a point: the topmost window's surface, provided
    /// the point lies on the output at all. Pointer events outside the
    /// output's geometry hit nothing.
    pub fn surface_under(&self, pos: Point) -> (r: Option<u64>)
        requires
            self.wf(),
        ensures
            r == ({
                let bounds = Rect {
                    pos: Point { x: 0, y: 0 },
                    size: self.space.output_size,
                };
                if !bounds.spec_contains(pos) {
                    None
                } else {
                    match self.space.spec_element_at(pos) {
                        Some(id) => Some(self.space.window_of(id).surface),
                        None => None::<u64>,
                    }
                }
            }),
    {
        let bounds = Rect { pos: Point { x: 0, y: 0 }, size: self.space.output_size };
        if !bounds.contains(pos) {
            return None;
        }
        let id = match self.space.element_at(pos) {
            Some(id) => id,
            None => {
                return None;
            },
        };
        proof {
            self.space.law_element_at(pos);
            assert(self.space.has_id(id));
        }
        let i = match self.space.find(id) {
            Some(i) => i,
            None => {
                proof {
                    assert(false);
                }
                return None;
            },
        };
        proof {
            self.space.lemma_idx_of(i as int);
        }
        Some(self.space.windows[i].surface)
    }

    /// Record the minimum and maximum size the surface advertises (read at
    /// commit time); resize grabs clamp against these. Returns whether a
    /// window is backed by the surface.
    pub fn set_size_bounds(&mut self, surface: u64, min_size: Size, max_size: Size) -> (r: bool)
        requires
            old(self).wf(),
            min_size.valid(),
            max_size.valid(),
        ensures
            final(self).wf(),
            r == old(self).space.has_surface(surface),
            !r ==> *final(self) == *old(self),
            r ==> final(self).space.windows@ == old(self).space.windows@.update(
                old(self).space.idx_of_surface(surface),
                Window {
                    min_size,
                    max_size,
                    ..old(self).space.windows@[old(self).space.idx_of_surface(surface)]
                },
            ),
            final(self).space.stack@ == old(self).space.stack@,
            final(self).seat == old(self).seat,
    {
        let i = match self.space.find_by_surface(surface) {
            Some(i) => i,
            None => {
                return false;
            },
        };
        proof {
            self.space.lemma_idx_of_surface(i as int);
            self.space.lemma_idx_of(i as int);
        }
        let id = self.space.windows[i].id;
        self.space.set_size_bounds(id, min_size, max_size)
    }

    /// A surface is gone (client destroy or disconnect): its role is
    /// dropped, its window leaves the scene, focus it held is explicitly
    /// cleared (nothing is focused until the caller decides), a grab on it
    /// is cancelled, its popup or layer entry is removed, popups parented
    /// to it are dismissed with it (their lifetime is bounded by the
    /// parent's), and any legacy-bridge entry carried by it is unmapped.
    /// While tiling is active the scene is rearranged and the returned
    /// configures are sent.
    #[verifier::rlimit(100)]
    pub fn destroy_surface(&mut self, surface: u64) -> (cfgs: Vec<ConfigureEvent>)
        requires
            old(self).wf(),
        ensures
            final(self).wf(),
            final(self).pipeline == old(self).pipeline,
            final(self).config == old(self).config,
            final(self).next_window_id == old(self).next_window_id,
            final(self).pointer_location == old(self).pointer_location,
            final(self).seat.pressed_buttons == old(self).seat.pressed_buttons,
            !final(self).registry.spec_has_role(surface),
            !final(self).space.has_surface(surface),
            !final(self).spec_has_popup(surface),
            !final(self).spec_has_layer(surface),
            final(self).popups@ == Self::surviving_popups(old(self).popups@, surface),
            forall|i: int|
                0 <= i < old(self).popups@.len() && (#[trigger] old(self).popups@[i]).parent
                    == surface ==> !final(self).registry.spec_has_role(
                    old(self).popups@[i].surface,
                ),
            final(self).bridge.wm_active == old(self).bridge.wm_active,
            final(self).bridge.windows@.len() == old(self).bridge.windows@.len(),
            forall|i: int|
                0 <= i < old(self).bridge.windows@.len() ==> (
                #[trigger] final(self).bridge.windows@[i]) == if old(
                    self,
                ).bridge.windows@[i].surface == surface {
                    crate::bridge::LegacyWindow {
                        mapped: false,
                        scene_window: None,
                        ..old(self).bridge.windows@[i]
                    }
                } else {
                    old(self).bridge.windows@[i]
                },
            old(self).space.has_surface(surface) ==> {
                let id = old(self).space.windows@[old(self).space.idx_of_surface(surface)].id;
                &&& final(self).space.windows@.len() == old(self).space.windows@.len() - 1
                &&& final(self).space.stack@ == old(self).space.stack@.remove(
                    old(self).space.stack@.index_of(id),
                )
                &&& (old(self).seat.keyboard_focus == Some(id) ==> final(self).seat.keyboard_focus is None)
                &&& (old(self).seat.keyboard_focus != Some(id) ==> final(self).seat.keyboard_focus
                    == old(self).seat.keyboard_focus)
                &&& (crate::seat::spec_grab_window(old(self).seat.grab) == Some(id) ==> final(self).seat.grab is Idle)
                &&& (crate::seat::spec_grab_window(old(self).seat.grab) != Some(id) ==> final(self).seat.grab
                    == old(self).seat.grab)
                &&& (!old(self).space.tiling ==> final(self).space.windows@ == old(
                    self,
                ).space.windows@.remove(old(self).space.idx_of_surface(surface)))
            },
            !old(self).space.has_surface(surface) ==> {
                &&& final(self).space.windows@ == old(self).space.windows@
                &&& final(self).space.stack@ == old(self).space.stack@
                &&& final(self).seat == old(self).seat
            },
            old(self).space.tiling && old(self).space.has_surface(surface) ==> {
                &&& cfgs@.len() == final(self).space.windows@.len()
                &&& forall|k: int|
                    0 <= k < cfgs@.len() ==> #[trigger] cfgs@[k] == (ConfigureEvent {
                        surface: final(self).space.windows@[k].surface,
                        size: Some(final(self).space.windows@[k].rect.size),
                        activated: false,
                        fullscreen: false,
                        maximized: false,
                        server_side_decorations: false,
                    })
            },
            !(old(self).space.tiling && old(self).space.has_surface(surface)) ==> cfgs@.len()
                == 0,
    {
        self.registry.remove(surface);
        // Drop the surface's own popup and every popup parented to it,
        // releasing the children's roles with them.
        let ghost pops0 = self.popups@;
        let mut retained: Vec<Popup> = Vec::new();
        let mut k: usize = 0;
        proof {
            assert(pops0.take(0) =~= Seq::<Popup>::empty());
        }
        while k < self.popups.len()
            invariant
                old(self).wf(),
                self.popups@ == old(self).popups@,
                pops0 == old(self).popups@,
                k <= pops0.len(),
                retained@ == Self::surviving_popups(pops0.take(k as int), surface),
                forall|a: int|
                    0 <= a < retained@.len() ==> (#[trigger] retained@[a]).surface != surface
                        && retained@[a].parent != surface,
                forall|a: int|
                    #![trigger retained@[a]]
                    0 <= a < retained@.len() ==> exists|j: int|
                        0 <= j < k && #[trigger] pops0[j] == retained@[a],
                forall|a: int, b: int|
                    0 <= a < b < retained@.len() ==> (#[trigger] retained@[a]).surface != (
                    #[trigger] retained@[b]).surface,
                self.registry.wf(),
                !self.registry.spec_has_role(surface),
                forall|j: int|
                    0 <= j < k && (#[trigger] pops0[j]).parent == surface
                        ==> !self.registry.spec_has_role(pops0[j].surface),
                self.space == old(self).space,
                self.seat == old(self).seat,
                self.layers@ == old(self).layers@,
                self.bridge == old(self).bridge,
                self.pipeline == old(self).pipeline,
                self.config == old(self).config,
                self.pointer_location == old(self).pointer_location,
                self.next_window_id == old(self).next_window_id,
            decreases pops0.len() - k,
        {
            proof {
                Self::lemma_surviving_step(pops0, k as int, surface);
            }
            let p = self.popups[k];
            if p.surface != surface && p.parent != surface {
                retained.push(p);
                proof {
                    assert forall|a: int|
                        0 <= a < retained@.len() - 1 implies (#[trigger] retained@[a]).surface
                        != p.surface by {
                        let j = choose|j: int| 0 <= j < k && #[trigger] pops0[j] == retained@[a];
                        if j < k as int {
                            assert(pops0[j].surface != pops0[k as int].surface);
                        }
                    }
                }
            } else {
                if p.parent == surface {
                    self.registry.remove(p.surface);
                    proof {
                        assert forall|j: int|
                            0 <= j < k && (#[trigger] pops0[j]).parent == surface
                                implies !self.registry.spec_has_role(pops0[j].surface) by {
                            assert(pops0[j].surface != pops0[k as int].surface);
                        }
                    }
                }
            }
            k = k + 1;
        }
        proof {
            assert(pops0.take(pops0.len() as int) =~= pops0);
        }
        self.popups = retained;
        proof {
            assert(!self.spec_has_popup(surface)) by {
                if self.spec_has_popup(surface) {
                    let j = choose|j: int|
                        0 <= j < self.popups@.len() && (#[trigger] self.popups@[j]).surface
                            == surface;
                    assert(self.popups@[j].surface != surface);
                }
            }
        }
        if let Some(i) = self.find_layer(surface) {
            self.layers.remove(i);
            proof {
                let ls = self.layers@;
                let olds = old(self).layers@;
                assert forall|a: int, b: int|
                    0 <= a < b < ls.len() implies (#[trigger] ls[a]).surface != (
                #[trigger] ls[b]).surface by {
                    let a0: int = if a < i { a } else { a + 1 };
                    let b0: int = if b < i { b } else { b + 1 };
                    assert(ls[a].surface == olds[a0].surface && ls[b].surface == olds[b0].surface);
                }
                assert(!self.spec_has_layer(surface)) by {
                    if self.spec_has_layer(surface) {
                        let j = choose|j: int|
                            0 <= j < ls.len() && (#[trigger] ls[j]).surface == surface;
                        let j0: int = if j < i { j } else { j + 1 };
                        assert(olds[j0].surface == surface && olds[i as int].surface == surface);
                    }
                }
            }
        }
        // Any legacy-bridge entry carried by this surface is no longer
        // mapped and no longer linked to a scene window.
        self.bridge.clear_surface(surface);
        let i = match self.space.find_by_surface(surface) {
            Some(i) => i,
            None => {
                return Vec::new();
            },
        };
        proof {
            self.space.lemma_idx_of_surface(i as int);
            self.space.lemma_idx_of(i as int);
        }
        let id = self.space.windows[i].id;
        let removed = self.space.unmap(id);
        proof {
            assert(removed);
        }
        match self.seat.keyboard_focus {
            Some(f) => {
                if f == id {
                    self.seat.keyboard_focus = None;
                }
            },
            None => {},
        }
        match self.seat.pointer_focus {
            Some(f) => {
                if f == id {
                    self.seat.pointer_focus = None;
                }
            },
            None => {},
        }
        match self.seat.grab_window() {
            Some(g) => {
                if g == id {
                    self.seat.cancel_grab();
                }
            },
            None => {},
        }
        if self.space.tiling {
            self.space.arrange();
            self.tile_configures()
        } else {
            Vec::new()
        }
    }

    /// Start the legacy window-manager component; exactly one instance may
    /// be active at a time.
    pub fn bridge_start_wm(&mut self) -> (r: Result<(), CoreError>)
        requires
            old(self).wf(),
        ensures
            final(self).wf(),
            r is Ok <==> !old(self).bridge.wm_active,
            r is Err ==> *final(self) == *old(self) && r == Err::<(), CoreError>(
                CoreError::Bridge(BridgeError::WmAlreadyActive),
            ),
            final(self).bridge.wm_active,
            final(self).space == old(self).space,
    {
        match self.bridge.start_wm() {
            Ok(()) => Ok(()),
            Err(e) => Err(CoreError::Bridge(e)),
        }
    }

    /// A legacy window was created: track it, not yet mapped. Until its
    /// map completes, the scene is untouched — hit testing at its intended
    /// location still finds nothing. Re-entrant creation for the same
    /// external id is rejected.
    pub fn bridge_new_window(&mut self, xid: u64, surface: u64, override_redirect: bool, geometry: Rect) -> (r: Result<(), CoreError>)
        requires
            old(self).wf(),
            geometry.valid(),
        ensures
            final(self).wf(),
            r is Ok <==> !old(self).bridge.spec_has_window(xid),
            r is Err ==> *final(self) == *old(self) && r == Err::<(), CoreError>(
                CoreError::Bridge(BridgeError::DuplicateWindow),
            ),
            final(self).space == old(self).space,
            final(self).seat == old(self).seat,
            r is Ok ==> final(self).bridge.windows@ == old(self).bridge.windows@.push(
                crate::bridge::LegacyWindow {
                    xid,
                    surface,
                    mapped: false,
                    override_redirect,
                    geometry,
                    scene_window: None,
                },
            ),
    {
        match self.bridge.new_window(xid, surface, override_redirect, geometry) {
            Ok(()) => Ok(()),
            Err(e) => Err(CoreError::Bridge(e)),
        }
    }

    /// Complete a legacy window's map. An override-redirect window is only
    /// marked mapped — the scene does not place it. Any other window is
    /// wrapped in a scene window at its requested geometry, its proxy
    /// surface takes the legacy-proxy role, and — only from this moment —
    /// hit testing at its location can find it. The reply carries the
    /// configure-notify acknowledgement first.
    pub fn bridge_map_window(&mut self, xid: u64) -> (r: Result<BridgeMapReply, CoreError>)
        requires
            old(self).wf(),
        ensures
            final(self).wf(),
            r is Err ==> *final(self) == *old(self),
            !old(self).bridge.spec_has_window(xid) ==> r == Err::<BridgeMapReply, CoreError>(
                CoreError::Bridge(BridgeError::UnknownWindow),
            ),
            old(self).bridge.spec_has_window(xid) && old(self).bridge.window_of(xid).mapped ==> r
                == Err::<BridgeMapReply, CoreError>(CoreError::Bridge(BridgeError::AlreadyMapped)),
            ({
                let entry = old(self).bridge.window_of(xid);
                old(self).bridge.spec_has_window(xid) && !entry.mapped && !entry.override_redirect
                    && old(self).registry.spec_has_role(entry.surface)
            }) ==> r == Err::<BridgeMapReply, CoreError>(
                CoreError::Role(RoleError::RoleAlreadySet),
            ),
            ({
                let entry = old(self).bridge.window_of(xid);
                old(self).bridge.spec_has_window(xid) && !entry.mapped && !entry.override_redirect
                    && !old(self).registry.spec_has_role(entry.surface) && (old(
                    self,
                ).next_window_id == u64::MAX || old(self).space.windows@.len() >= i32::MAX)
            }) ==> r == Err::<BridgeMapReply, CoreError>(CoreError::CapacityExhausted),
            r is Ok <==> ({
                let entry = old(self).bridge.window_of(xid);
                old(self).bridge.spec_has_window(xid) && !entry.mapped && (entry.override_redirect
                    || (!old(self).registry.spec_has_role(entry.surface) && old(
                    self,
                ).next_window_id < u64::MAX && old(self).space.windows@.len() < i32::MAX && !old(
                    self,
                ).space.output_size.spec_is_empty() && !old(self).space.has_surface(
                    entry.surface,
                )))
            }),
            final(self).space.output_size == old(self).space.output_size,
            final(self).space.tiling == old(self).space.tiling,
            match r {
                Ok(reply) => {
                    let entry = old(self).bridge.window_of(xid);
                    &&& final(self).bridge.window_of(xid).mapped
                    &&& reply.configures@.len() > 0
                    &&& reply.configures@[0] == (ConfigureEvent {
                        surface: entry.surface,
                        size: Some(entry.geometry.size),
                        activated: false,
                        fullscreen: false,
                        maximized: false,
                        server_side_decorations: false,
                    })
                    &&& entry.override_redirect ==> {
                        &&& reply.scene_window is None
                        &&& final(self).space == old(self).space
                    }
                    &&& !entry.override_redirect ==> {
                        let n = old(self).space.windows@.len() as int;
                        &&& reply.scene_window == Some(old(self).next_window_id)
                        &&& final(self).space.windows@.len() == n + 1
                        &&& final(self).space.windows@[n].surface == entry.surface
                        &&& final(self).space.windows@[n].legacy
                        &&& final(self).space.stack@ == old(self).space.stack@.push(
                            old(self).next_window_id,
                        )
                        &&& final(self).bridge.window_of(xid).scene_window == Some(
                            old(self).next_window_id,
                        )
                        &&& !old(self).space.tiling ==> final(self).space.windows@[n].rect
                            == entry.geometry
                        &&& old(self).space.tiling ==> {
                            &&& reply.configures@.len() == 1 + (n + 1)
                            &&& forall|i: int|
                                0 <= i < n + 1 ==> final(self).space.windows@[i]
                                    == Space::tiled_at(
                                    if i < n {
                                        old(self).space.windows@[i]
                                    } else {
                                        final(self).space.windows@[i]
                                    },
                                    i,
                                    n + 1,
                                    old(self).space.output_size,
                                )
                            &&& forall|k: int|
                                0 <= k < n + 1 ==> #[trigger] reply.configures@[k + 1] == (
                                ConfigureEvent {
                                    surface: final(self).space.windows@[k].surface,
                                    size: Some(final(self).space.windows@[k].rect.size),
                                    activated: false,
                                    fullscreen: false,
                                    maximized: false,
                                    server_side_decorations: false,
                                })
                        }
                        &&& !old(self).space.tiling ==> reply.configures@.len() == 1
                    }
                },
                Err(_) => true,
            },
    {
        let i = match self.bridge.find(xid) {
            Some(i) => i,
            None => {
                return Err(CoreError::Bridge(BridgeError::UnknownWindow));
            },
        };
        proof {
            self.bridge.lemma_idx_of(i as int);
        }
        let entry = self.bridge.windows[i];
        if entry.mapped {
            return Err(CoreError::Bridge(BridgeError::AlreadyMapped));
        }
        let ack = ConfigureEvent {
            surface: entry.surface,
            size: Some(entry.geometry.size),
            activated: false,
            fullscreen: false,
            maximized: false,
            server_side_decorations: false,
        };
        if entry.override_redirect {
            let marked = self.bridge.mark_mapped(xid, None);
            proof {
                assert(marked is Ok);
                self.bridge.lemma_idx_of(i as int);
            }
            let mut configures: Vec<ConfigureEvent> = Vec::new();
            configures.push(ack);
            return Ok(BridgeMapReply { scene_window: None, configures });
        }
        if self.registry.has_role(entry.surface) {
            return Err(CoreError::Role(RoleError::RoleAlreadySet));
        }
        if self.next_window_id == u64::MAX || self.space.windows.len() >= i32::MAX as usize {
            return Err(CoreError::CapacityExhausted);
        }
        let id = self.next_window_id;
        let w = Window {
            rect: entry.geometry,
            ..Window::new(id, entry.surface, true)
        };
        proof {
            assert(!self.space.has_id(id));
        }
        match self.space.map(w, entry.geometry.pos) {
            Ok(()) => {},
            Err(MapError::EmptyOutput) => {
                return Err(CoreError::Scene(MapError::EmptyOutput));
            },
            Err(MapError::SurfaceInUse) => {
                return Err(CoreError::Scene(MapError::SurfaceInUse));
            },
            Err(MapError::DuplicateWindow) => {
                proof {
                    assert(false);
                }
                return Err(CoreError::Scene(MapError::DuplicateWindow));
            },
        }
        let role_given = self.registry.give_role(entry.surface, Role::LegacyProxy);
        proof {
            assert(role_given is Ok);
        }
        self.next_window_id = id + 1;
        let marked = self.bridge.mark_mapped(xid, Some(id));
        proof {
            assert(marked is Ok);
            self.bridge.lemma_idx_of(i as int);
        }
        let mut configures: Vec<ConfigureEvent> = Vec::new();
        configures.push(ack);
        if self.space.tiling {
            self.space.arrange();
            let mut tiles = self.tile_configures();
            configures.append(&mut tiles);
        }
        Ok(BridgeMapReply { scene_window: Some(id), configures })
    }

    /// A legacy window was unmapped: it leaves the scene — with the same
    /// focus and grab consequences as any surface destruction, and the
    /// tiling rearrangement's configures when tiling is active — but stays
    /// tracked by the bridge, no longer mapped nor linked to a scene
    /// window.
    pub fn bridge_unmapped(&mut self, xid: u64) -> (cfgs: Vec<ConfigureEvent>)
        requires
            old(self).wf(),
        ensures
            final(self).wf(),
            !old(self).bridge.spec_has_window(xid) ==> *final(self) == *old(self) && cfgs@.len()
                == 0,
            old(self).bridge.spec_has_window(xid) ==> ({
                let s = old(self).bridge.window_of(xid).surface;
                &&& final(self).bridge.wm_active == old(self).bridge.wm_active
                &&& final(self).bridge.spec_has_window(xid)
                &&& !final(self).bridge.window_of(xid).mapped
                &&& final(self).bridge.window_of(xid).scene_window is None
                &&& !final(self).space.has_surface(s)
                &&& !final(self).registry.spec_has_role(s)
                &&& old(self).space.has_surface(s) ==> {
                    let id = old(self).space.windows@[old(self).space.idx_of_surface(s)].id;
                    &&& final(self).space.windows@.len() == old(self).space.windows@.len() - 1
                    &&& final(self).space.stack@ == old(self).space.stack@.remove(
                        old(self).space.stack@.index_of(id),
                    )
                    &&& (old(self).seat.keyboard_focus == Some(id) ==> final(self).seat.keyboard_focus is None)
                    &&& (crate::seat::spec_grab_window(old(self).seat.grab) == Some(id)
                        ==> final(self).seat.grab is Idle)
                    &&& (!old(self).space.tiling ==> final(self).space.windows@ == old(
                        self,
                    ).space.windows@.remove(old(self).space.idx_of_surface(s)))
                }
                &&& !old(self).space.has_surface(s) ==> final(self).space.windows@ == old(
                    self,
                ).space.windows@ && final(self).seat == old(self).seat
                &&& old(self).space.tiling && old(self).space.has_surface(s) ==> {
                    &&& cfgs@.len() == final(self).space.windows@.len()
                    &&& forall|k: int|
                        0 <= k < cfgs@.len() ==> #[trigger] cfgs@[k] == (ConfigureEvent {
                            surface: final(self).space.windows@[k].surface,
                            size: Some(final(self).space.windows@[k].rect.size),
                            activated: false,
                            fullscreen: false,
                            maximized: false,
                            server_side_decorations: false,
                        })
                }
                &&& !(old(self).space.tiling && old(self).space.has_surface(s)) ==> cfgs@.len()
                    == 0
            }),
    {
        let i = match self.bridge.find(xid) {
            Some(i) => i,
            None => {
                return Vec::new();
            },
        };
        proof {
            self.bridge.lemma_idx_of(i as int);
        }
        let entry = self.bridge.windows[i];
        let cleared = self.bridge.mark_unmapped(xid);
        proof {
            assert(cleared);
        }
        let cfgs = self.destroy_surface(entry.surface);
        proof {
            assert(self.bridge.windows@[i as int].xid == xid);
            self.bridge.lemma_idx_of(i as int);
        }
        cfgs
    }

    /// A legacy window was destroyed: it leaves the scene — with the same
    /// focus, grab and tiling consequences as any surface destruction —
    /// and the bridge's bookkeeping alike.
    pub fn bridge_destroyed(&mut self, xid: u64) -> (cfgs: Vec<ConfigureEvent>)
        requires
            old(self).wf(),
        ensures
            final(self).wf(),
            !final(self).bridge.spec_has_window(xid),
            !old(self).bridge.spec_has_window(xid) ==> *final(self) == *old(self) && cfgs@.len()
                == 0,
            old(self).bridge.spec_has_window(xid) ==> ({
                let s = old(self).bridge.window_of(xid).surface;
                &&& final(self).bridge.wm_active == old(self).bridge.wm_active
                &&& !final(self).space.has_surface(s)
                &&& !final(self).registry.spec_has_role(s)
                &&& old(self).space.has_surface(s) ==> {
                    let id = old(self).space.windows@[old(self).space.idx_of_surface(s)].id;
                    &&& final(self).space.windows@.len() == old(self).space.windows@.len() - 1
                    &&& final(self).space.stack@ == old(self).space.stack@.remove(
                        old(self).space.stack@.index_of(id),
                    )
                    &&& (old(self).seat.keyboard_focus == Some(id) ==> final(self).seat.keyboard_focus is None)
                    &&& (crate::seat::spec_grab_window(old(self).seat.grab) == Some(id)
                        ==> final(self).seat.grab is Idle)
                    &&& (!old(self).space.tiling ==> final(self).space.windows@ == old(
                        self,
                    ).space.windows@.remove(old(self).space.idx_of_surface(s)))
                }
                &&& !old(self).space.has_surface(s) ==> final(self).space.windows@ == old(
                    self,
                ).space.windows@ && final(self).seat == old(self).seat
                &&& old(self).space.tiling && old(self).space.has_surface(s) ==> {
                    &&& cfgs@.len() == final(self).space.windows@.len()
                    &&& forall|k: int|
                        0 <= k < cfgs@.len() ==> #[trigger] cfgs@[k] == (ConfigureEvent {
                            surface: final(self).space.windows@[k].surface,
                            size: Some(final(self).space.windows@[k].rect.size),
                            activated: false,
                            fullscreen: false,
                            maximized: false,
                            server_side_decorations: false,
                        })
                }
                &&& !(old(self).space.tiling && old(self).space.has_surface(s)) ==> cfgs@.len()
                    == 0
            }),
    {
        let i = match self.bridge.find(xid) {
            Some(i) => i,
            None => {
                return Vec::new();
            },
        };
        proof {
            self.bridge.lemma_idx_of(i as int);
        }
        let entry = self.bridge.windows[i];
        let removed = self.bridge.remove(xid);
        proof {
            assert(removed);
        }
        let ghost bpre = self.bridge;
        let cfgs = self.destroy_surface(entry.surface);
        proof {
            assert(!self.bridge.spec_has_window(xid)) by {
                if self.bridge.spec_has_window(xid) {
                    let j = choose|j: int|
                        0 <= j < self.bridge.windows@.len() && (
                        #[trigger] self.bridge.windows@[j]).xid == xid;
                    assert(bpre.windows@[j].xid == xid);
                }
            }
        }
        cfgs
    }

    /// A legacy configure request: record the requested geometry; if the
    /// window is already in the scene, apply it there too. The caller
    /// acknowledges with the legacy protocol's configure-notify, built from
    /// the returned event.
    pub fn bridge_configure_request(&mut self, xid: u64, geometry: Rect) -> (r: Result<
        ConfigureEvent,
        CoreError,
    >)
        requires
            old(self).wf(),
            geometry.valid(),
        ensures
            final(self).wf(),
            r is Ok <==> old(self).bridge.spec_has_window(xid),
            r is Err ==> *final(self) == *old(self) && r == Err::<ConfigureEvent, CoreError>(
                CoreError::Bridge(BridgeError::UnknownWindow),
            ),
            r is Ok ==> {
                &&& final(self).bridge.window_of(xid).geometry == geometry
                &&& r == Ok::<ConfigureEvent, CoreError>(ConfigureEvent {
                    surface: old(self).bridge.window_of(xid).surface,
                    size: Some(geometry.size),
                    activated: false,
                    fullscreen: false,
                    maximized: false,
                    server_side_decorations: false,
                })
            },
    {
        let i = match self.bridge.find(xid) {
            Some(i) => i,
            None => {
                return Err(CoreError::Bridge(BridgeError::UnknownWindow));
            },
        };
        proof {
            self.bridge.lemma_idx_of(i as int);
        }
        let entry = self.bridge.windows[i];
        let recorded = self.bridge.set_geometry(xid, geometry);
        proof {
            assert(recorded);
            assert(self.bridge.windows@[i as int].geometry == geometry);
            self.bridge.lemma_idx_of(i as int);
        }
        match entry.scene_window {
            Some(id) => {
                self.space.set_geometry(id, geometry);
            },
            None => {},
        }
        Ok(
            ConfigureEvent {
                surface: entry.surface,
                size: Some(geometry.size),
                activated: false,
                fullscreen: false,
                maximized: false,
                server_side_decorations: false,
            },
        )
    }
}

/// One element the render pass draws, bottom to top: a layer surface (no
/// recorded placement — the layer map anchors it) or a window at its rect.
#[derive(Clone, Copy, Debug, PartialEq, Eq)]
pub struct RenderElement {
    pub surface: u64,
    pub placement: Option<Rect>,
}

/// How a routed pointer motion was handled.
pub enum MotionReply {
    /// No grab: forward to the window under the pointer, if any.
    Forward { target: Option<u64> },
    /// Consumed by a move grab: the window was moved.
    Moved { window: u64 },
    /// Consumed by a resize grab: send the resize configure.
    Resized { window: u64, configure: ConfigureEvent },
    /// Consumed with nothing to apply.
    Consumed,
}

/// How a routed pointer button was handled.
pub enum ButtonReply {
    /// Forward the button event to the client.
    Forward,
    /// Swallowed: a modifier-drag move grab was initiated.
    GrabStarted { window: u64 },
}

/// What a routed key press asks the caller to do.
pub enum KeyAction {
    /// Forward the key to the focused client.
    Forward,
    /// Shut the compositor down cleanly.
    Quit,
    /// The tiling policy was toggled; send these configures.
    TilingToggled { configures: Vec<ConfigureEvent> },
}

} // verus!
