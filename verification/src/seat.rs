//! The seat router: keyboard/pointer focus bookkeeping and the pointer grab
//! state machine for interactive move and resize.
//!
//! A grab is an explicit tagged state (`Idle`, `Moving`, `Resizing`) on the
//! seat, so every transition is enumerable. While a grab is active, pointer
//! motion is consumed by the grab: it produces a placement or a resize
//! configure instead of being forwarded to a client.

use vstd::prelude::*;

use crate::geometry::{Point, Rect, Size};

verus! {

/// Which edges of a window a resize grab drags. Any combination is allowed;
/// dragging the top or left edge also shifts the position so the opposite
/// edge stays fixed.
#[derive(Clone, Copy, Debug, PartialEq, Eq, Structural)]
pub struct Edges {
    pub top: bool,
    pub bottom: bool,
    pub left: bool,
    pub right: bool,
}

/// The pointer grab state machine of a seat.
#[derive(Clone, Copy, Debug, PartialEq, Eq, Structural)]
pub enum GrabState {
    /// No grab: pointer events are routed to the surface under the pointer.
    Idle,
    /// An interactive move, with the data captured when it started.
    Moving { window: u64, start_pointer: Point, start_window_pos: Point },
    /// An interactive resize, with the captured edges and start geometry.
    Resizing { window: u64, edges: Edges, start_pointer: Point, start_rect: Rect },
}

/// Input capability state scoped to one logical seat: focus plus at most one
/// active pointer grab.
pub struct Seat {
    /// The window holding keyboard focus, if any. Changes only on explicit
    /// raise/activation — never implicitly by pointer position.
    pub keyboard_focus: Option<u64>,
    /// The window under the pointer that receives forwarded pointer events.
    pub pointer_focus: Option<u64>,
    /// The grab state machine; at most one grab is active.
    pub grab: GrabState,
    /// How many pointer buttons are currently held down.
    pub pressed_buttons: u32,
}

impl Seat {
    /// A fresh seat: nothing focused, no grab, no buttons held.
    pub fn new() -> (s: Seat)
        ensures
            s.keyboard_focus is None,
            s.pointer_focus is None,
            s.grab is Idle,
            s.pressed_buttons == 0,
    {
        Seat { keyboard_focus: None, pointer_focus: None, grab: GrabState::Idle, pressed_buttons: 0 }
    }

    /// Record a button going down.
    pub fn note_button_press(&mut self)
        ensures
            final(self).pressed_buttons == if old(self).pressed_buttons == u32::MAX {
                u32::MAX as int
            } else {
                old(self).pressed_buttons + 1
            },
            final(self).grab == old(self).grab,
            final(self).keyboard_focus == old(self).keyboard_focus,
            final(self).pointer_focus == old(self).pointer_focus,
    {
        if self.pressed_buttons < u32::MAX {
            self.pressed_buttons = self.pressed_buttons + 1;
        }
    }

    /// Record a button going up. When no buttons remain pressed, an active
    /// grab — moving or resizing alike — terminates and the machine returns
    /// to `Idle`.
    pub fn note_button_release(&mut self)
        ensures
            final(self).pressed_buttons == if old(self).pressed_buttons == 0 {
                0int
            } else {
                old(self).pressed_buttons - 1
            },
            final(self).grab == if final(self).pressed_buttons == 0 {
                GrabState::Idle
            } else {
                old(self).grab
            },
            final(self).keyboard_focus == old(self).keyboard_focus,
            final(self).pointer_focus == old(self).pointer_focus,
    {
        if self.pressed_buttons > 0 {
            self.pressed_buttons = self.pressed_buttons - 1;
        }
        if self.pressed_buttons == 0 {
            self.grab = GrabState::Idle;
        }
    }

    /// A client's move request: starts a move grab, capturing the current
    /// pointer location and window position. Honoured only while a button is
    /// held and no other grab is active; returns whether the grab started.
    pub fn begin_move(&mut self, window: u64, pointer: Point, window_pos: Point) -> (r: bool)
        ensures
            r == (old(self).grab is Idle && old(self).pressed_buttons > 0),
            r ==> final(self).grab == (GrabState::Moving {
                window,
                start_pointer: pointer,
                start_window_pos: window_pos,
            }),
            !r ==> final(self).grab == old(self).grab,
            final(self).pressed_buttons == old(self).pressed_buttons,
            final(self).keyboard_focus == old(self).keyboard_focus,
            final(self).pointer_focus == old(self).pointer_focus,
    {
        match self.grab {
            GrabState::Idle => {
                if self.pressed_buttons > 0 {
                    self.grab = GrabState::Moving {
                        window,
                        start_pointer: pointer,
                        start_window_pos: window_pos,
                    };
                    true
                } else {
                    false
                }
            },
            _ => false,
        }
    }

    /// A client's resize request: starts a resize grab, capturing the edges
    /// being dragged and the window's starting geometry. Honoured only while
    /// a button is held and no other grab is active.
    pub fn begin_resize(&mut self, window: u64, edges: Edges, pointer: Point, rect: Rect) -> (r:
        bool)
        ensures
            r == (old(self).grab is Idle && old(self).pressed_buttons > 0),
            r ==> final(self).grab == (GrabState::Resizing {
                window,
                edges,
                start_pointer: pointer,
                start_rect: rect,
            }),
            !r ==> final(self).grab == old(self).grab,
            final(self).pressed_buttons == old(self).pressed_buttons,
            final(self).keyboard_focus == old(self).keyboard_focus,
            final(self).pointer_focus == old(self).pointer_focus,
    {
        match self.grab {
            GrabState::Idle => {
                if self.pressed_buttons > 0 {
                    self.grab = GrabState::Resizing {
                        window,
                        edges,
                        start_pointer: pointer,
                        start_rect: rect,
                    };
                    true
                } else {
                    false
                }
            },
            _ => false,
        }
    }
}

/// The window a grab is manipulating, if one is active.
pub open spec fn spec_grab_window(g: GrabState) -> Option<u64> {
    match g {
        GrabState::Idle => None,
        GrabState::Moving { window, .. } => Some(window),
        GrabState::Resizing { window, .. } => Some(window),
    }
}

impl Seat {
    /// The window the active grab is manipulating, if any.
    pub fn grab_window(&self) -> (r: Option<u64>)
        ensures
            r == spec_grab_window(self.grab),
    {
        match self.grab {
            GrabState::Idle => None,
            GrabState::Moving { window, .. } => Some(window),
            GrabState::Resizing { window, .. } => Some(window),
        }
    }

    /// Drop the active grab (its window left the scene).
    pub fn cancel_grab(&mut self)
        ensures
            final(self).grab is Idle,
            final(self).keyboard_focus == old(self).keyboard_focus,
            final(self).pointer_focus == old(self).pointer_focus,
            final(self).pressed_buttons == old(self).pressed_buttons,
    {
        self.grab = GrabState::Idle;
    }
}

/// Where a move grab puts the window: its start position translated by the
/// pointer's travel since the grab began.
pub open spec fn move_target(start_window_pos: Point, start_pointer: Point, pointer: Point) -> (
    int,
    int,
) {
    (
        start_window_pos.x + pointer.x - start_pointer.x,
        start_window_pos.y + pointer.y - start_pointer.y,
    )
}

/// Compute the new window position for a motion event during a move grab.
/// None only when the translated position leaves the coordinate range.
pub fn move_position(start_window_pos: Point, start_pointer: Point, pointer: Point) -> (r: Option<
    Point,
>)
    ensures
        ({
            let (tx, ty) = move_target(start_window_pos, start_pointer, pointer);
            match r {
                Some(p) => p.x == tx && p.y == ty,
                None => !(i32::MIN <= tx <= i32::MAX && i32::MIN <= ty <= i32::MAX),
            }
        }),
{
    let tx = start_window_pos.x as i64 + pointer.x as i64 - start_pointer.x as i64;
    let ty = start_window_pos.y as i64 + pointer.y as i64 - start_pointer.y as i64;
    if tx < i32::MIN as i64 || tx > i32::MAX as i64 || ty < i32::MIN as i64 || ty > i32::MAX as i64 {
        return None;
    }
    Some(Point { x: tx as i32, y: ty as i32 })
}

/// Law: for a move grab started with window position `p0` and pointer at
/// `start`, a motion event to `q` yields window position
/// `p0 + (q - start)`, component-wise.
pub proof fn law_move_grab(p0: Point, start: Point, q: Point)
    ensures
        move_target(p0, start, q).0 == p0.x + (q.x - start.x),
        move_target(p0, start, q).1 == p0.y + (q.y - start.y),
{
}

/// The size a resize grab asks for along one axis before clamping: the start
/// size grown or shrunk by the pointer delta along the dragged edges.
pub open spec fn resize_candidate(start: int, drag_low_edge: bool, drag_high_edge: bool, delta: int) -> int {
    let shrunk = if drag_low_edge {
        start - delta
    } else {
        start
    };
    if drag_high_edge {
        shrunk + delta
    } else {
        shrunk
    }
}

/// Clamp one dimension of a resize to the surface's advertised bounds. A
/// zero bound means unconstrained (capped only by the coordinate range). A
/// candidate that would drop to zero or below is floored to 1.
pub open spec fn clamp_dim(candidate: int, min: int, max: int) -> int {
    let upper = if max > 0 {
        max
    } else {
        i32::MAX as int
    };
    let raised = if candidate < min {
        min
    } else {
        candidate
    };
    let capped = if raised > upper {
        upper
    } else {
        raised
    };
    if capped <= 0 {
        1
    } else {
        capped
    }
}

/// Exec counterpart of `clamp_dim`.
pub fn clamp_dim_values(candidate: i64, min: i32, max: i32) -> (r: i32)
    requires
        0 <= min,
        0 <= max,
        i32::MIN * 4 <= candidate <= i32::MAX * 4,
    ensures
        r == clamp_dim(candidate as int, min as int, max as int),
{
    let upper: i64 = if max > 0 {
        max as i64
    } else {
        i32::MAX as i64
    };
    let mut c = candidate;
    if c < min as i64 {
        c = min as i64;
    }
    if c > upper {
        c = upper;
    }
    if c <= 0 {
        1
    } else {
        c as i32
    }
}

/// What a motion event during a resize grab does: the new size after
/// clamping, and the new position (dragging the top or left edge shifts the
/// position so the opposite edge stays fixed).
pub open spec fn resize_target(start: Rect, edges: Edges, start_pointer: Point, pointer: Point, min: Size, max: Size) -> (
    (int, int),
    (int, int),
) {
    let dx = pointer.x - start_pointer.x;
    let dy = pointer.y - start_pointer.y;
    let w = clamp_dim(
        resize_candidate(start.size.w as int, edges.left, edges.right, dx),
        min.w as int,
        max.w as int,
    );
    let h = clamp_dim(
        resize_candidate(start.size.h as int, edges.top, edges.bottom, dy),
        min.h as int,
        max.h as int,
    );
    let x = if edges.left {
        start.pos.x + start.size.w - w
    } else {
        start.pos.x as int
    };
    let y = if edges.top {
        start.pos.y + start.size.h - h
    } else {
        start.pos.y as int
    };
    ((x, y), (w, h))
}

/// Compute the placement and the configure size for a motion event during a
/// resize grab. None only when the shifted position leaves the coordinate
/// range; the size always fits.
pub fn resize_adjust(start: Rect, edges: Edges, start_pointer: Point, pointer: Point, min: Size, max: Size) -> (r: Option<Rect>)
    requires
        min.valid(),
        max.valid(),
    ensures
        ({
            let ((tx, ty), (tw, th)) = resize_target(start, edges, start_pointer, pointer, min, max);
            match r {
                Some(rect) => rect.pos.x == tx && rect.pos.y == ty && rect.size.w == tw
                    && rect.size.h == th,
                None => !(i32::MIN <= tx <= i32::MAX && i32::MIN <= ty <= i32::MAX),
            }
        }),
{
    let dx = pointer.x as i64 - start_pointer.x as i64;
    let dy = pointer.y as i64 - start_pointer.y as i64;
    let mut cw: i64 = start.size.w as i64;
    if edges.left {
        cw = cw - dx;
    }
    if edges.right {
        cw = cw + dx;
    }
    let mut ch: i64 = start.size.h as i64;
    if edges.top {
        ch = ch - dy;
    }
    if edges.bottom {
        ch = ch + dy;
    }
    let w = clamp_dim_values(cw, min.w, max.w);
    let h = clamp_dim_values(ch, min.h, max.h);
    let tx: i64 = if edges.left {
        start.pos.x as i64 + start.size.w as i64 - w as i64
    } else {
        start.pos.x as i64
    };
    let ty: i64 = if edges.top {
        start.pos.y as i64 + start.size.h as i64 - h as i64
    } else {
        start.pos.y as i64
    };
    if tx < i32::MIN as i64 || tx > i32::MAX as i64 || ty < i32::MIN as i64 || ty > i32::MAX as i64 {
        return None;
    }
    Some(Rect { pos: Point { x: tx as i32, y: ty as i32 }, size: Size { w, h } })
}

/// Law: a resize grab never yields a dimension below the advertised minimum
/// or above the advertised maximum (where those constraints exist, i.e. are
/// non-zero and consistent), for any pointer delta; and a candidate driven
/// to zero or below is floored to 1, so the result is always positive.
pub proof fn law_resize_bounds(start: int, drag_low: bool, drag_high: bool, delta: int, min: int, max: int)
    requires
        0 <= min <= i32::MAX,
        0 <= max <= i32::MAX,
        max > 0 ==> min <= max,
    ensures
        ({
            let r = clamp_dim(resize_candidate(start, drag_low, drag_high, delta), min, max);
            &&& r >= 1
            &&& min >= 1 ==> r >= min
            &&& max >= 1 ==> r <= max
        }),
{
}

} // verus!
