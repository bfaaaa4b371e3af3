//! Plain geometric values shared by the placement engine: monitors, panel
//! rectangles, window sizes and resulting screen points.
//!
//! Every coordinate is a whole number of logical units in virtual-desktop
//! space. Monitor origins and panel positions are signed 32-bit values, sizes
//! are unsigned 32-bit values, and computed points are 64-bit so that a
//! position plus a size never overflows.
use vstd::prelude::*;

verus! {

/// A rectangle given by its top-left corner and its size.
#[derive(Clone, Copy, Debug, PartialEq, Eq, Structural)]
pub struct Rect {
    pub x: i32,
    pub y: i32,
    pub width: u32,
    pub height: u32,
}

/// The fixed size of a window role (main panel or settings panel).
#[derive(Clone, Copy, Debug, PartialEq, Eq, Structural)]
pub struct WindowGeometry {
    pub width: u32,
    pub height: u32,
}

/// A target location for a window's top-left corner, in absolute
/// virtual-desktop coordinates.
#[derive(Clone, Copy, Debug, PartialEq, Eq, Structural)]
pub struct PlacementResult {
    pub x: i64,
    pub y: i64,
}

/// One display as enumerated by the host.
#[derive(Clone, Copy, Debug, PartialEq, Eq, Structural)]
pub struct MonitorInfo {
    pub index: usize,
    pub x: i32,
    pub y: i32,
    pub width: u32,
    pub height: u32,
    pub is_primary: bool,
}

/// `min(max(v, lo), hi)`: first raised to `lo`, then lowered to `hi`. When
/// `hi < lo` the result is `hi`.
pub open spec fn clamp(v: int, lo: int, hi: int) -> int {
    let raised = if v < lo { lo } else { v };
    if raised > hi { hi } else { raised }
}

/// Executable form of `clamp`.
pub fn clamp_i64(v: i64, lo: i64, hi: i64) -> (r: i64)
    ensures
        r == clamp(v as int, lo as int, hi as int),
{
    let raised = if v < lo { lo } else { v };
    if raised > hi { hi } else { raised }
}

/// Top-left corner that centres a window of size `s` on monitor `a`,
/// rounded down.
pub open spec fn centered_on(a: MonitorInfo, s: WindowGeometry) -> (int, int) {
    (a.x + (a.width - s.width) / 2, a.y + (a.height - s.height) / 2)
}

impl WindowGeometry {
    /// Whether the window, with its top-left corner at `p`, lies entirely on
    /// monitor `m`.
    pub open spec fn footprint_within(self, p: PlacementResult, m: MonitorInfo) -> bool {
        &&& m.x <= p.x
        &&& p.x + self.width <= m.x + m.width
        &&& m.y <= p.y
        &&& p.y + self.height <= m.y + m.height
    }
}

impl Rect {
    /// Twice the horizontal coordinate of the rectangle's center.
    pub open spec fn center_x2(self) -> int {
        2 * self.x + self.width
    }

    /// Twice the vertical coordinate of the rectangle's center.
    pub open spec fn center_y2(self) -> int {
        2 * self.y + self.height
    }

    /// Whether a window of size `size` with its top-left corner at `p` shares
    /// no interior point with this rectangle.
    pub open spec fn disjoint_from(self, p: PlacementResult, size: WindowGeometry) -> bool {
        ||| p.x + size.width <= self.x
        ||| self.x + self.width <= p.x
        ||| p.y + size.height <= self.y
        ||| self.y + self.height <= p.y
    }
}

impl MonitorInfo {
    /// Whether the point with doubled coordinates `(x2 / 2, y2 / 2)` lies in
    /// the monitor, left and top edges included, right and bottom excluded.
    pub open spec fn contains_doubled(self, x2: int, y2: int) -> bool {
        &&& 2 * self.x <= x2
        &&& x2 < 2 * (self.x + self.width)
        &&& 2 * self.y <= y2
        &&& y2 < 2 * (self.y + self.height)
    }

    /// Whether the monitor's origin is `(x, y)`.
    pub open spec fn has_origin(self, x: int, y: int) -> bool {
        self.x == x && self.y == y
    }
}

} // verus!
