//! Explicit configuration handed in at construction: theme colors, the
//! keybindings, and the placement policy for newly mapped toplevels.

use vstd::prelude::*;

use crate::geometry::Size;

verus! {

/// An RGBA color with 8-bit channels.
#[derive(Clone, Copy, Debug, PartialEq, Eq, Structural)]
pub struct Color {
    pub r: u8,
    pub g: u8,
    pub b: u8,
    pub a: u8,
}

/// Where a newly mapped toplevel is placed while floating.
#[derive(Clone, Copy, Debug, PartialEq, Eq, Structural)]
pub enum PlacementPolicy {
    /// Diagonal cascade from a fixed origin, one step per mapped window.
    Cascade,
    /// A position drawn at random within the configured floating region.
    Randomized,
}

/// The compositor's configuration value.
#[derive(Clone, Copy, Debug, PartialEq, Eq, Structural)]
pub struct Config {
    /// Clear color of the render pass.
    pub background: Color,
    /// Accent color (window borders).
    pub accent: Color,
    /// Keycode that toggles the tiling policy (with the modifier held).
    pub tiling_toggle_key: u32,
    /// Keycode that quits the compositor (with the modifier held).
    pub exit_key: u32,
    /// Keycode of the command modifier that keybindings require.
    pub command_key: u32,
    /// Keycodes treated as the move/resize modifier.
    pub modifier_key_a: u32,
    pub modifier_key_b: u32,
    /// Pointer button that starts a modifier-drag move.
    pub drag_button: u32,
    /// Top-left corner of the cascade.
    pub cascade_origin: i32,
    /// Diagonal step between successive cascaded windows.
    pub cascade_step: i32,
    /// Region in which randomized placement draws positions.
    pub floating_region: Size,
    pub placement: PlacementPolicy,
}

impl Config {
    /// Configuration validity: a usable cascade and a non-empty region for
    /// randomized placement.
    pub open spec fn valid(self) -> bool {
        &&& 0 <= self.cascade_origin
        &&& 0 < self.cascade_step
        &&& 0 < self.floating_region.w
        &&& 0 < self.floating_region.h
    }
}

impl Default for Config {
    /// The stock configuration: dark background, blue accent, cascade
    /// placement, and the historical keybindings (left alt as modifier,
    /// left button drags, enter toggles tiling, q quits).
    fn default() -> (c: Config)
        ensures
            c.valid(),
            c.background == (Color { r: 26, g: 26, b: 26, a: 255 }),
            c.accent == (Color { r: 51, g: 102, b: 204, a: 255 }),
            c.placement == PlacementPolicy::Cascade,
            c.cascade_origin == 20 && c.cascade_step == 20,
            c.floating_region == (Size { w: 800, h: 600 }),
            c.tiling_toggle_key == 28 && c.exit_key == 16 && c.command_key == 29,
            c.modifier_key_a == 64 && c.modifier_key_b == 108,
            c.drag_button == 272,
    {
        Config {
            background: Color { r: 26, g: 26, b: 26, a: 255 },
            accent: Color { r: 51, g: 102, b: 204, a: 255 },
            tiling_toggle_key: 28,
            exit_key: 16,
            command_key: 29,
            modifier_key_a: 64,
            modifier_key_b: 108,
            drag_button: 272,
            cascade_origin: 20,
            cascade_step: 20,
            floating_region: Size { w: 800, h: 600 },
            placement: PlacementPolicy::Cascade,
        }
    }
}

} // verus!
