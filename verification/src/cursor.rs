//! Cursor position and menu edge clamping.
//!
//! Querying the live cursor position and the screen geometry happens
//! outside the library; the clamping arithmetic that keeps the menu fully
//! on screen is verified here.

use vstd::prelude::*;

verus! {

/// Menu diameter in pixels (used for edge clamping)
pub const MENU_DIAMETER: i32 = 280;

/// Minimum margin from screen edges in pixels
pub const EDGE_MARGIN: i32 = 20;

/// Menu radius (half of the menu diameter)
pub const MENU_RADIUS: i32 = 140;

/// Screen dimensions for edge clamping
#[derive(Debug, Clone, Copy)]
pub struct ScreenBounds {
    pub width: i32,
    pub height: i32,
}

impl Default for ScreenBounds {
    /// A common default resolution; the live geometry is queried at runtime.
    fn default() -> (r: Self)
        ensures
            r.width == 1920,
            r.height == 1080,
    {
        ScreenBounds { width: 1920, height: 1080 }
    }
}

/// Cursor position with coordinates
#[derive(Debug, Clone, Copy)]
pub struct CursorPosition {
    pub x: i32,
    pub y: i32,
}

impl Default for CursorPosition {
    fn default() -> (r: Self)
        ensures
            r.x == 0,
            r.y == 0,
    {
        CursorPosition { x: 0, y: 0 }
    }
}

/// A value clamped into an interval.
pub open spec fn spec_clamp(v: int, lo: int, hi: int) -> int {
    if v < lo {
        lo
    } else if v > hi {
        hi
    } else {
        v
    }
}

impl CursorPosition {
    /// Create a new cursor position.
    pub fn new(x: i32, y: i32) -> (r: Self)
        ensures
            r.x == x,
            r.y == y,
    {
        CursorPosition { x, y }
    }

    /// Apply edge clamping so the full menu, with its margin, fits on
    /// screen: each coordinate lands between margin-plus-radius and the
    /// screen size minus the same. The screen must be large enough to hold
    /// the menu at all.
    pub fn clamp_to_screen(&self, bounds: &ScreenBounds) -> (r: Self)
        requires
            bounds.width >= 2 * (EDGE_MARGIN + MENU_RADIUS),
            bounds.height >= 2 * (EDGE_MARGIN + MENU_RADIUS),
        ensures
            r.x == spec_clamp(
                self.x as int,
                (EDGE_MARGIN + MENU_RADIUS) as int,
                bounds.width - EDGE_MARGIN - MENU_RADIUS,
            ),
            r.y == spec_clamp(
                self.y as int,
                (EDGE_MARGIN + MENU_RADIUS) as int,
                bounds.height - EDGE_MARGIN - MENU_RADIUS,
            ),
    {
        let min_x = EDGE_MARGIN + MENU_RADIUS;
        let max_x = bounds.width - EDGE_MARGIN - MENU_RADIUS;
        let min_y = EDGE_MARGIN + MENU_RADIUS;
        let max_y = bounds.height - EDGE_MARGIN - MENU_RADIUS;
        CursorPosition { x: clamp_i32(self.x, min_x, max_x), y: clamp_i32(self.y, min_y, max_y) }
    }
}

/// Clamp a coordinate into an interval.
fn clamp_i32(v: i32, lo: i32, hi: i32) -> (r: i32)
    requires
        lo <= hi,
    ensures
        r == spec_clamp(v as int, lo as int, hi as int),
{
    if v < lo {
        lo
    } else if v > hi {
        hi
    } else {
        v
    }
}

} // verus!
