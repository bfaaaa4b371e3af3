//! Grid placement: a fixed lattice of slots spread over a monitor's usable
//! area.
use vstd::prelude::*;
use vstd::arithmetic::div_mod::{lemma_mod_multiples_vanish, lemma_div_is_ordered, lemma_small_mod};
use crate::geometry::{MonitorInfo, PlacementResult, WindowGeometry};

verus! {

/// Distance kept between a grid slot and each monitor edge.
pub const GRID_MARGIN: i64 = 50;

/// Whether `width / height` is strictly greater than `num / den`, compared
/// exactly (`den > 0`).
pub open spec fn aspect_exceeds(width: int, height: int, num: int, den: int) -> bool {
    width * den > height * num
}

/// The `(cols, rows)` lattice chosen from a monitor's aspect ratio: above
/// 2.0 it is 6 by 3, above 1.8 it is 5 by 3, above 1.5 it is 4 by 3, and
/// otherwise 3 by 4. Every threshold is strict.
pub open spec fn auto_grid_spec(width: int, height: int) -> (u32, u32) {
    if aspect_exceeds(width, height, 2, 1) {
        (6, 3)
    } else if aspect_exceeds(width, height, 9, 5) {
        (5, 3)
    } else if aspect_exceeds(width, height, 3, 2) {
        (4, 3)
    } else {
        (3, 4)
    }
}

/// Picks the grid lattice for a monitor of the given size from its aspect
/// ratio.
pub fn auto_grid(width: u32, height: u32) -> (r: (u32, u32))
    ensures
        r == auto_grid_spec(width as int, height as int),
{
    let w = width as u64;
    let h = height as u64;
    if w > 2 * h {
        (6, 3)
    } else if 5 * w > 9 * h {
        (5, 3)
    } else if 2 * w > 3 * h {
        (4, 3)
    } else {
        (3, 4)
    }
}

/// The lattice in use: derived from the monitor when `auto_detect` holds,
/// the caller's `(cols, rows)` otherwise.
pub open spec fn grid_dims_spec(auto_detect: bool, cols: u32, rows: u32, m: MonitorInfo) -> (u32, u32) {
    if auto_detect {
        auto_grid_spec(m.width as int, m.height as int)
    } else {
        (cols, rows)
    }
}

/// Whether a lattice has at least one slot.
pub open spec fn dims_valid(dims: (u32, u32)) -> bool {
    dims.0 >= 1 && dims.1 >= 1
}

/// Returns the lattice in use for a monitor.
pub fn grid_dimensions(auto_detect: bool, cols: u32, rows: u32, monitor: &MonitorInfo) -> (r: (u32, u32))
    ensures
        r == grid_dims_spec(auto_detect, cols, rows, *monitor),
{
    if auto_detect {
        auto_grid(monitor.width, monitor.height)
    } else {
        (cols, rows)
    }
}

/// Offset of slot `index` along an axis with `count` slots, relative to the
/// monitor's edge, when `available` units remain once the window and both
/// margins are taken away. A single slot is centred; otherwise slot 0 sits
/// on the margin and the last slot at `margin + available`, the others
/// evenly between, rounded down.
pub open spec fn axis_offset_spec(index: int, count: int, available: int) -> int {
    if count == 1 {
        GRID_MARGIN + available / 2
    } else {
        GRID_MARGIN + (index * available) / (count - 1)
    }
}

/// Units left on an axis of length `size` for a window of length `win`,
/// once both margins are taken away.
pub open spec fn available_spec(size: int, win: int) -> int {
    size - win - 2 * GRID_MARGIN
}

/// The slot that `position` stands for: the position reduced modulo the
/// number of slots, never negative.
pub open spec fn safe_position(position: int, dims: (u32, u32)) -> int {
    position % (dims.0 * dims.1)
}

/// The slot's `(col, row)`, counted row by row.
pub open spec fn slot_of(position: int, dims: (u32, u32)) -> (int, int) {
    let s = safe_position(position, dims);
    (s % (dims.0 as int), s / (dims.0 as int))
}

/// Grid slot `position` of lattice `dims` on monitor `m`, relative to the
/// monitor's origin.
pub open spec fn grid_offset(position: int, dims: (u32, u32), m: MonitorInfo, w: WindowGeometry) -> (int, int) {
    let (col, row) = slot_of(position, dims);
    (
        axis_offset_spec(col, dims.0 as int, available_spec(m.width as int, w.width as int)),
        axis_offset_spec(row, dims.1 as int, available_spec(m.height as int, w.height as int)),
    )
}

/// Grid slot `position` of lattice `dims` on monitor `m`, in absolute
/// coordinates.
pub open spec fn grid_point(position: int, dims: (u32, u32), m: MonitorInfo, w: WindowGeometry) -> PlacementResult {
    let off = grid_offset(position, dims, m, w);
    PlacementResult { x: (m.x + off.0) as i64, y: (m.y + off.1) as i64 }
}

/// Bounds of an axis offset: between the margin and the margin plus the
/// available room, in either order.
proof fn lemma_axis_offset_bounds(index: int, count: int, available: int)
    requires
        0 <= index < count,
        count <= u32::MAX,
    ensures
        count == 1 ==> axis_offset_spec(index, count, available) == GRID_MARGIN + available / 2,
        count > 1 && available >= 0 ==> GRID_MARGIN <= axis_offset_spec(index, count, available)
            <= GRID_MARGIN + available,
        count > 1 && available < 0 ==> GRID_MARGIN + available <= axis_offset_spec(index, count, available)
            <= GRID_MARGIN,
{
    if count > 1 {
        let d = count - 1;
        if available >= 0 {
            assert(0 <= index * available <= d * available) by (nonlinear_arith)
                requires 0 <= index <= d, available >= 0;
            lemma_div_is_ordered(0, index * available, d);
            lemma_div_is_ordered(index * available, d * available, d);
            assert((d * available) / d == available) by (nonlinear_arith)
                requires d > 0;
            assert(0int / d == 0) by (nonlinear_arith)
                requires d > 0;
        } else {
            assert(d * available <= index * available <= 0) by (nonlinear_arith)
                requires 0 <= index <= d, available < 0;
            lemma_div_is_ordered(index * available, 0, d);
            lemma_div_is_ordered(d * available, index * available, d);
            assert((d * available) / d == available) by (nonlinear_arith)
                requires d > 0;
            assert(0int / d == 0) by (nonlinear_arith)
                requires d > 0;
        }
    }
}

/// Executable axis offset.
fn axis_offset(index: u64, count: u64, available: i64) -> (r: i64)
    requires
        index < count,
        count <= u32::MAX,
        -(u32::MAX as int) - 2 * GRID_MARGIN <= available <= u32::MAX,
    ensures
        r == axis_offset_spec(index as int, count as int, available as int),
{
    proof {
        lemma_axis_offset_bounds(index as int, count as int, available as int);
    }
    if count == 1 {
        let half = available.checked_div_euclid(2).unwrap();
        GRID_MARGIN + half
    } else {
        proof {
            let a = available as int;
            let b: int = if a >= 0 { a } else { -a };
            assert(0 <= (index as int) * b <= 0x1_0000_0000 * 0x2_0000_0000) by (nonlinear_arith)
                requires
                    0 <= index <= 0x1_0000_0000,
                    0 <= b <= 0x2_0000_0000;
            assert((index as int) * a == if a >= 0 { (index as int) * b } else { -((index as int) * b) })
                by (nonlinear_arith)
                requires b == if a >= 0 { a } else { -a };
        }
        let product = (index as i128) * (available as i128);
        let step = product.checked_div_euclid((count - 1) as i128).unwrap();
        proof {
            assert(GRID_MARGIN + step == axis_offset_spec(index as int, count as int, available as int));
        }
        (GRID_MARGIN as i128 + step) as i64
    }
}

/// The slot's column and row lie inside the lattice.
proof fn lemma_slot_in_range(position: int, dims: (u32, u32))
    requires
        dims_valid(dims),
    ensures
        0 <= safe_position(position, dims) < dims.0 * dims.1,
        0 <= slot_of(position, dims).0 < dims.0,
        0 <= slot_of(position, dims).1 < dims.1,
{
    let c = dims.0 as int;
    let r = dims.1 as int;
    assert(c * r > 0) by (nonlinear_arith)
        requires c >= 1, r >= 1;
    let s = safe_position(position, dims);
    assert(0 <= s < c * r);
    assert(s / c < r) by (nonlinear_arith)
        requires 0 <= s < c * r, c >= 1;
    assert(s / c >= 0) by (nonlinear_arith)
        requires 0 <= s, c >= 1;
}

/// Offset of slot `slot` (counted row by row) from the monitor's origin.
fn slot_offset(slot: u64, dims: (u32, u32), monitor: &MonitorInfo, window: WindowGeometry) -> (r: (i64, i64))
    requires
        dims_valid(dims),
        slot < dims.0 * dims.1,
    ensures
        r.0 == grid_offset(slot as int, dims, *monitor, window).0,
        r.1 == grid_offset(slot as int, dims, *monitor, window).1,
        -0x2_0000_0000 <= r.0 <= 0x2_0000_0000,
        -0x2_0000_0000 <= r.1 <= 0x2_0000_0000,
{
    let (cols, rows) = dims;
    proof {
        lemma_slot_in_range(slot as int, dims);
        lemma_small_mod(slot as nat, ((cols as int) * (rows as int)) as nat);
    }
    let col = slot % (cols as u64);
    let row = slot / (cols as u64);
    let avail_w: i64 = monitor.width as i64 - window.width as i64 - 2 * GRID_MARGIN;
    let avail_h: i64 = monitor.height as i64 - window.height as i64 - 2 * GRID_MARGIN;
    proof {
        lemma_axis_offset_bounds(col as int, cols as int, avail_w as int);
        lemma_axis_offset_bounds(row as int, rows as int, avail_h as int);
    }
    (axis_offset(col, cols as u64, avail_w), axis_offset(row, rows as u64, avail_h))
}

/// Placement of grid slot `position` of lattice `dims` on `monitor`, in
/// absolute coordinates. Positions outside the lattice wrap around; negative
/// ones count back from the last slot.
pub fn grid_position(position: i32, dims: (u32, u32), monitor: &MonitorInfo, window: WindowGeometry) -> (r: PlacementResult)
    requires
        dims_valid(dims),
    ensures
        r == grid_point(position as int, dims, *monitor, window),
{
    let (cols, rows) = dims;
    proof {
        lemma_slot_in_range(position as int, dims);
        assert((cols as int) * (rows as int) <= 0xffff_ffff * 0xffff_ffff) by (nonlinear_arith)
            requires cols <= 0xffff_ffff, rows <= 0xffff_ffff;
    }
    let total: u64 = (cols as u64) * (rows as u64);
    let safe = (position as i128).checked_rem_euclid(total as i128).unwrap();
    let safe = safe as u64;
    proof {
        lemma_small_mod(safe as nat, ((cols as int) * (rows as int)) as nat);
    }
    let (dx, dy) = slot_offset(safe, dims, monitor, window);
    PlacementResult { x: monitor.x as i64 + dx, y: monitor.y as i64 + dy }
}

/// One slot of a grid layout: its number and its offset from the monitor's
/// origin.
#[derive(Clone, Copy, Debug, PartialEq, Eq, Structural)]
pub struct GridSlot {
    pub index: u64,
    pub x: i64,
    pub y: i64,
}

/// Every slot of lattice `dims` on monitor `monitor`, in order, with offsets
/// relative to the monitor's origin.
pub fn grid_layout(dims: (u32, u32), monitor: &MonitorInfo, window: WindowGeometry) -> (r: Vec<GridSlot>)
    requires
        dims_valid(dims),
    ensures
        r@.len() == dims.0 * dims.1,
        forall|k: int| 0 <= k < r@.len() ==> r@[k].index == k
            && r@[k].x == grid_offset(k, dims, *monitor, window).0
            && r@[k].y == grid_offset(k, dims, *monitor, window).1,
{
    let (cols, rows) = dims;
    proof {
        assert((cols as int) * (rows as int) <= 0xffff_ffff * 0xffff_ffff) by (nonlinear_arith)
            requires cols <= 0xffff_ffff, rows <= 0xffff_ffff;
    }
    let total: u64 = (cols as u64) * (rows as u64);
    let mut out: Vec<GridSlot> = Vec::new();
    let mut k: u64 = 0;
    while k < total
        invariant
            dims == (cols, rows),
            dims_valid(dims),
            total == dims.0 * dims.1,
            0 <= k <= total,
            out@.len() == k,
            forall|j: int| 0 <= j < k ==> out@[j].index == j
                && out@[j].x == grid_offset(j, dims, *monitor, window).0
                && out@[j].y == grid_offset(j, dims, *monitor, window).1,
        decreases total - k,
    {
        let (dx, dy) = slot_offset(k, dims, monitor, window);
        out.push(GridSlot { index: k, x: dx, y: dy });
        k += 1;
    }
    out
}

/// Whether an axis of length `size` leaves every slot of a `count`-slot
/// axis inside the monitor for a window of length `win`: a single slot needs
/// the window to fit, several need it to fit with one margin to spare.
pub open spec fn axis_fits(count: int, size: int, win: int) -> bool {
    if count == 1 {
        size >= win
    } else {
        size >= win + GRID_MARGIN
    }
}

/// Adding whole turns of the lattice to a grid position does not move the
/// slot: position `p + k * cols * rows` lands where `p` does.
pub proof fn grid_point_periodic(position: int, k: int, dims: (u32, u32), m: MonitorInfo, w: WindowGeometry)
    requires
        dims_valid(dims),
    ensures
        grid_point(position + k * dims.0 * dims.1, dims, m, w) == grid_point(position, dims, m, w),
{
    let n = dims.0 * dims.1;
    assert(n > 0) by (nonlinear_arith)
        requires n == dims.0 * dims.1, dims.0 >= 1, dims.1 >= 1;
    assert(position + k * dims.0 * dims.1 == n * k + position) by (nonlinear_arith)
        requires n == dims.0 * dims.1;
    lemma_mod_multiples_vanish(k, position, n);
    assert(safe_position(position + k * dims.0 * dims.1, dims) == safe_position(position, dims));
}

/// Every grid slot keeps the whole window on its monitor, whenever each axis
/// has room for the window as `axis_fits` states.
pub proof fn grid_point_on_monitor(position: int, dims: (u32, u32), m: MonitorInfo, w: WindowGeometry)
    requires
        dims_valid(dims),
        axis_fits(dims.0 as int, m.width as int, w.width as int),
        axis_fits(dims.1 as int, m.height as int, w.height as int),
    ensures
        w.footprint_within(grid_point(position, dims, m, w), m),
{
    lemma_slot_in_range(position, dims);
    let (col, row) = slot_of(position, dims);
    let aw = available_spec(m.width as int, w.width as int);
    let ah = available_spec(m.height as int, w.height as int);
    lemma_axis_offset_bounds(col, dims.0 as int, aw);
    lemma_axis_offset_bounds(row, dims.1 as int, ah);
}

} // verus!
