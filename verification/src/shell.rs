//! Shell-role lifecycle: which role a surface holds, the popup chain, and
//! the layer surfaces anchored to outputs.
//!
//! A surface has at most one role at a time; granting a second role is a
//! protocol violation that the caller answers by terminating the offending
//! client. Popups are tracked in an explicit chain so grabs can be dismissed
//! in order; a layer surface is associated with exactly one output.

use vstd::prelude::*;

use crate::geometry::{Point, Rect, Size};

verus! {

/// The role a surface may hold.
#[derive(Clone, Copy, Debug, PartialEq, Eq, Structural)]
pub enum Role {
    Toplevel,
    Popup,
    Layer,
    /// A proxy for a window of the legacy protocol bridge.
    LegacyProxy,
}

/// A client misused role state; its connection is to be terminated.
#[derive(Clone, Copy, Debug, PartialEq, Eq, Structural)]
pub enum RoleError {
    /// The surface already holds a role.
    RoleAlreadySet,
}

/// One surface's role record.
#[derive(Clone, Copy, Debug, PartialEq, Eq, Structural)]
pub struct SurfaceRole {
    pub surface: u64,
    pub role: Role,
}

/// The role bookkeeping for all live surfaces. Only surfaces holding a role
/// are recorded.
pub struct SurfaceRegistry {
    pub entries: Vec<SurfaceRole>,
}

impl SurfaceRegistry {
    /// Each surface appears at most once: at most one role at a time.
    pub open spec fn wf(self) -> bool {
        forall|i: int, j: int|
            0 <= i < j < self.entries@.len() ==> (#[trigger] self.entries@[i]).surface != (
            #[trigger] self.entries@[j]).surface
    }

    /// Whether `surface` currently holds a role.
    pub open spec fn spec_has_role(self, surface: u64) -> bool {
        exists|i: int|
            0 <= i < self.entries@.len() && (#[trigger] self.entries@[i]).surface == surface
    }

    pub fn new() -> (r: SurfaceRegistry)
        ensures
            r.wf(),
            r.entries@.len() == 0,
    {
        SurfaceRegistry { entries: Vec::new() }
    }

    /// Whether `surface` currently holds a role.
    pub fn has_role(&self, surface: u64) -> (r: bool)
        ensures
            r == self.spec_has_role(surface),
    {
        let mut i: usize = 0;
        while i < self.entries.len()
            invariant
                i <= self.entries@.len(),
                forall|j: int| 0 <= j < i ==> (#[trigger] self.entries@[j]).surface != surface,
            decreases self.entries@.len() - i,
        {
            if self.entries[i].surface == surface {
                return true;
            }
            i = i + 1;
        }
        false
    }

    /// Grant `role` to `surface`. A surface that already holds a role — any
    /// role — is refused: that is the double-role protocol violation.
    pub fn give_role(&mut self, surface: u64, role: Role) -> (r: Result<(), RoleError>)
        requires
            old(self).wf(),
        ensures
            final(self).wf(),
            r is Ok <==> !old(self).spec_has_role(surface),
            r is Ok ==> final(self).entries@ == old(self).entries@.push(
                SurfaceRole { surface, role },
            ),
            r is Err ==> *final(self) == *old(self) && r == Err::<(), RoleError>(
                RoleError::RoleAlreadySet,
            ),
            final(self).spec_has_role(surface),
    {
        if self.has_role(surface) {
            proof {
                let i = choose|i: int|
                    0 <= i < self.entries@.len() && (#[trigger] self.entries@[i]).surface
                        == surface;
                assert(self.entries@[i].surface == surface);
            }
            return Err(RoleError::RoleAlreadySet);
        }
        self.entries.push(SurfaceRole { surface, role });
        proof {
            assert(self.entries@[self.entries@.len() - 1].surface == surface);
        }
        Ok(())
    }

    /// Drop the role of `surface` (surface destroyed or role unset).
    /// Returns whether a role was held.
    pub fn remove(&mut self, surface: u64) -> (r: bool)
        requires
            old(self).wf(),
        ensures
            final(self).wf(),
            r == old(self).spec_has_role(surface),
            !final(self).spec_has_role(surface),
            !r ==> *final(self) == *old(self),
            forall|s: u64|
                s != surface ==> final(self).spec_has_role(s) == old(self).spec_has_role(s),
    {
        let mut i: usize = 0;
        while i < self.entries.len()
            invariant
                old(self).wf(),
                *self == *old(self),
                i <= self.entries@.len(),
                forall|j: int| 0 <= j < i ==> (#[trigger] self.entries@[j]).surface != surface,
            decreases self.entries@.len() - i,
        {
            if self.entries[i].surface == surface {
                self.entries.remove(i);
                proof {
                    let es = self.entries@;
                    let olds = old(self).entries@;
                    assert forall|s: u64| s != surface implies self.spec_has_role(s) == old(
                        self,
                    ).spec_has_role(s) by {
                        if old(self).spec_has_role(s) {
                            let j = choose|j: int|
                                0 <= j < olds.len() && (#[trigger] olds[j]).surface == s;
                            let j1: int = if j < i { j } else { j - 1 };
                            assert(es[j1].surface == s);
                        }
                        if self.spec_has_role(s) {
                            let j = choose|j: int|
                                0 <= j < es.len() && (#[trigger] es[j]).surface == s;
                            let j0: int = if j < i { j } else { j + 1 };
                            assert(olds[j0].surface == s);
                        }
                    }
                    assert(!self.spec_has_role(surface)) by {
                        if self.spec_has_role(surface) {
                            let j = choose|j: int|
                                0 <= j < es.len() && (#[trigger] es[j]).surface == surface;
                            let j0: int = if j < i { j } else { j + 1 };
                            assert(olds[j0].surface == surface && olds[i as int].surface
                                == surface);
                        }
                    }
                }
                return true;
            }
            i = i + 1;
        }
        false
    }
}

/// Which horizontal point of the anchor rectangle a popup attaches to.
#[derive(Clone, Copy, Debug, PartialEq, Eq, Structural)]
pub enum AnchorX {
    Left,
    Center,
    Right,
}

/// Which vertical point of the anchor rectangle a popup attaches to.
#[derive(Clone, Copy, Debug, PartialEq, Eq, Structural)]
pub enum AnchorY {
    Top,
    Center,
    Bottom,
}

/// A positioner: how a popup is placed relative to its parent — an anchor
/// rectangle in parent-local coordinates with the anchor edges to attach
/// to, an offset, the requested size, and the constraint rules (whether
/// the popup may slide along each axis to stay on the output).
#[derive(Clone, Copy, Debug, PartialEq, Eq, Structural)]
pub struct Positioner {
    pub anchor: Rect,
    pub anchor_x: AnchorX,
    pub anchor_y: AnchorY,
    pub offset: Point,
    pub size: Size,
    pub slide_x: bool,
    pub slide_y: bool,
}

/// The horizontal anchor point the positioner selects on its anchor rect.
pub open spec fn spec_anchor_point_x(p: Positioner) -> int {
    match p.anchor_x {
        AnchorX::Left => p.anchor.pos.x as int,
        AnchorX::Center => p.anchor.pos.x + p.anchor.size.w / 2,
        AnchorX::Right => p.anchor.pos.x + p.anchor.size.w,
    }
}

/// The vertical anchor point the positioner selects on its anchor rect.
pub open spec fn spec_anchor_point_y(p: Positioner) -> int {
    match p.anchor_y {
        AnchorY::Top => p.anchor.pos.y as int,
        AnchorY::Center => p.anchor.pos.y + p.anchor.size.h / 2,
        AnchorY::Bottom => p.anchor.pos.y + p.anchor.size.h,
    }
}

/// Slide one axis so a popup of length `len` placed at `pos` stays within
/// `[0, bound)`: pulled back from the far edge first, then floored at 0
/// (the near edge wins when the popup does not fit at all).
pub open spec fn spec_slide(pos: int, len: int, bound: int) -> int {
    let upper = bound - len;
    let pulled = if pos > upper {
        upper
    } else {
        pos
    };
    if pulled < 0 {
        0
    } else {
        pulled
    }
}

/// The parent-relative geometry a positioner resolves to for a parent
/// placed at `parent_pos` on an output of size `out`: the selected anchor
/// point displaced by the offset, then — where the constraint rules ask
/// for it — slid so the popup stays on the output.
pub open spec fn spec_popup_geometry(p: Positioner, parent_pos: Point, out: Size) -> Rect {
    let abs_x = parent_pos.x + spec_anchor_point_x(p) + p.offset.x;
    let abs_y = parent_pos.y + spec_anchor_point_y(p) + p.offset.y;
    let cx = if p.slide_x {
        spec_slide(abs_x, p.size.w as int, out.w as int)
    } else {
        abs_x
    };
    let cy = if p.slide_y {
        spec_slide(abs_y, p.size.h as int, out.h as int)
    } else {
        abs_y
    };
    Rect {
        pos: Point { x: (cx - parent_pos.x) as i32, y: (cy - parent_pos.y) as i32 },
        size: p.size,
    }
}

/// Whether the resolved parent-relative position fits the coordinate type.
pub open spec fn spec_popup_geometry_fits(p: Positioner, parent_pos: Point, out: Size) -> bool {
    let abs_x = parent_pos.x + spec_anchor_point_x(p) + p.offset.x;
    let abs_y = parent_pos.y + spec_anchor_point_y(p) + p.offset.y;
    let cx = if p.slide_x {
        spec_slide(abs_x, p.size.w as int, out.w as int)
    } else {
        abs_x
    };
    let cy = if p.slide_y {
        spec_slide(abs_y, p.size.h as int, out.h as int)
    } else {
        abs_y
    };
    &&& i32::MIN <= cx - parent_pos.x <= i32::MAX
    &&& i32::MIN <= cy - parent_pos.y <= i32::MAX
}

/// Resolve a positioner against its parent's position and the output
/// bounds. None only when the resolved position leaves the coordinate
/// range.
pub fn popup_geometry(p: Positioner, parent_pos: Point, out: Size) -> (r: Option<Rect>)
    requires
        p.anchor.valid(),
        p.size.valid(),
        out.valid(),
    ensures
        r is Some <==> spec_popup_geometry_fits(p, parent_pos, out),
        r is Some ==> r == Some(spec_popup_geometry(p, parent_pos, out)),
{
    let ax: i64 = match p.anchor_x {
        AnchorX::Left => p.anchor.pos.x as i64,
        AnchorX::Center => p.anchor.pos.x as i64 + (p.anchor.size.w / 2) as i64,
        AnchorX::Right => p.anchor.pos.x as i64 + p.anchor.size.w as i64,
    };
    let ay: i64 = match p.anchor_y {
        AnchorY::Top => p.anchor.pos.y as i64,
        AnchorY::Center => p.anchor.pos.y as i64 + (p.anchor.size.h / 2) as i64,
        AnchorY::Bottom => p.anchor.pos.y as i64 + p.anchor.size.h as i64,
    };
    let abs_x: i64 = parent_pos.x as i64 + ax + p.offset.x as i64;
    let abs_y: i64 = parent_pos.y as i64 + ay + p.offset.y as i64;
    let cx: i64 = if p.slide_x {
        slide_axis(abs_x, p.size.w, out.w)
    } else {
        abs_x
    };
    let cy: i64 = if p.slide_y {
        slide_axis(abs_y, p.size.h, out.h)
    } else {
        abs_y
    };
    let rel_x: i64 = cx - parent_pos.x as i64;
    let rel_y: i64 = cy - parent_pos.y as i64;
    if rel_x < i32::MIN as i64 || rel_x > i32::MAX as i64 || rel_y < i32::MIN as i64 || rel_y
        > i32::MAX as i64 {
        return None;
    }
    Some(Rect { pos: Point { x: rel_x as i32, y: rel_y as i32 }, size: p.size })
}

/// Exec counterpart of `spec_slide` on one axis.
fn slide_axis(pos: i64, len: i32, bound: i32) -> (r: i64)
    requires
        i32::MIN * 4 <= pos <= i32::MAX * 4,
    ensures
        r == spec_slide(pos as int, len as int, bound as int),
{
    let upper: i64 = bound as i64 - len as i64;
    let pulled: i64 = if pos > upper {
        upper
    } else {
        pos
    };
    if pulled < 0 {
        0
    } else {
        pulled
    }
}

/// One tracked popup: its surface, its parent surface, and its resolved
/// geometry relative to the parent.
#[derive(Clone, Copy, Debug, PartialEq, Eq, Structural)]
pub struct Popup {
    pub surface: u64,
    pub parent: u64,
    pub geometry: Rect,
}

/// A surface anchored to an output's edges, with an exclusive zone.
#[derive(Clone, Copy, Debug, PartialEq, Eq, Structural)]
pub struct LayerSurface {
    pub surface: u64,
    /// The one output this layer surface is associated with.
    pub output: u64,
    pub exclusive_zone: i32,
}

/// A configure event for a client, produced by a shell decision and carried
/// to the wire by the caller.
#[derive(Clone, Copy, Debug, PartialEq, Eq, Structural)]
pub struct ConfigureEvent {
    pub surface: u64,
    /// The size the client is asked to take, when the decision fixes one.
    pub size: Option<Size>,
    pub activated: bool,
    pub fullscreen: bool,
    pub maximized: bool,
    /// Decoration negotiation: this compositor always answers server-side.
    pub server_side_decorations: bool,
}

impl ConfigureEvent {
    /// A plain configure for `surface` with no states set.
    pub fn plain(surface: u64) -> (r: ConfigureEvent)
        ensures
            r == (ConfigureEvent {
                surface,
                size: None,
                activated: false,
                fullscreen: false,
                maximized: false,
                server_side_decorations: false,
            }),
    {
        ConfigureEvent {
            surface,
            size: None,
            activated: false,
            fullscreen: false,
            maximized: false,
            server_side_decorations: false,
        }
    }
}

} // verus!
