//! The placement strategy for the main panel: grid, random or manual, on
//! the monitor the user prefers.
use vstd::prelude::*;
use crate::geometry::{MonitorInfo, PlacementResult, WindowGeometry};
use crate::grid::{dims_valid, grid_dimensions, grid_dims_spec, grid_point, grid_point_on_monitor, grid_point_periodic, grid_position, axis_fits};
use crate::monitors::{fallback_monitor, parse_preference, preference_spec, resolve_monitor, resolve_spec};
use crate::random::{random_admissible, random_point, random_position, within_random_bounds, RANDOM_MARGIN};

verus! {

/// How the main panel is placed for one request.
#[derive(Clone, Copy, Debug, PartialEq, Eq, Structural)]
pub enum PlacementMode {
    /// Slot `position` of a lattice: derived from the monitor's aspect ratio
    /// when `auto_detect` holds, `cols` by `rows` otherwise.
    Grid { position: i32, cols: u32, rows: u32, auto_detect: bool },
    /// A slot drawn from the clock.
    Random,
    /// An absolute screen position, passed through unchanged.
    Manual { x: i64, y: i64 },
}

/// The mode a placement request asks for: a manual position wins over a
/// random one, which wins over the grid.
pub open spec fn mode_from_flags_spec(
    grid_position: i32,
    random: bool,
    manual: bool,
    manual_x: i64,
    manual_y: i64,
    auto_detect: bool,
    cols: u32,
    rows: u32,
) -> PlacementMode {
    if manual {
        PlacementMode::Manual { x: manual_x, y: manual_y }
    } else if random {
        PlacementMode::Random
    } else {
        PlacementMode::Grid { position: grid_position, cols, rows, auto_detect }
    }
}

/// Builds the placement mode from the flags of a placement request.
pub fn mode_from_flags(
    grid_position: i32,
    random: bool,
    manual: bool,
    manual_x: i64,
    manual_y: i64,
    auto_detect: bool,
    cols: u32,
    rows: u32,
) -> (r: PlacementMode)
    ensures
        r == mode_from_flags_spec(grid_position, random, manual, manual_x, manual_y, auto_detect, cols, rows),
{
    if manual {
        PlacementMode::Manual { x: manual_x, y: manual_y }
    } else if random {
        PlacementMode::Random
    } else {
        PlacementMode::Grid { position: grid_position, cols, rows, auto_detect }
    }
}

/// Whether a mode can be computed on monitor `m` for window `w`: a caller's
/// grid needs at least one column and one row, and random placement needs
/// room for the window beyond the margin on each axis.
pub open spec fn mode_admissible(mode: PlacementMode, m: MonitorInfo, w: WindowGeometry) -> bool {
    match mode {
        PlacementMode::Grid { cols, rows, auto_detect, .. } => auto_detect || (cols >= 1 && rows >= 1),
        PlacementMode::Random => random_admissible(m, w),
        PlacementMode::Manual { .. } => true,
    }
}

/// Whether `r` is a placement that `mode` can give on monitor `m` for
/// window `w`. Grid and manual modes admit exactly one; random placement
/// admits the point of any hash value.
pub open spec fn is_placement(mode: PlacementMode, m: MonitorInfo, w: WindowGeometry, r: PlacementResult) -> bool {
    match mode {
        PlacementMode::Grid { position, cols, rows, auto_detect } => r == grid_point(
            position as int,
            grid_dims_spec(auto_detect, cols, rows, m),
            m,
            w,
        ),
        PlacementMode::Random => exists|hash: u64| r == random_point(hash, m, w),
        PlacementMode::Manual { x, y } => r == PlacementResult { x, y },
    }
}

/// The lattice a grid request uses is never empty once admitted.
proof fn lemma_grid_dims_valid(auto_detect: bool, cols: u32, rows: u32, m: MonitorInfo)
    requires
        auto_detect || (cols >= 1 && rows >= 1),
    ensures
        dims_valid(grid_dims_spec(auto_detect, cols, rows, m)),
{
}

/// Computes where the main panel goes on `monitor` in the given mode.
pub fn compute_position(mode: PlacementMode, monitor: &MonitorInfo, window: WindowGeometry) -> (r: PlacementResult)
    requires
        mode_admissible(mode, *monitor, window),
    ensures
        is_placement(mode, *monitor, window, r),
        mode is Random ==> within_random_bounds(r, *monitor, window),
{
    match mode {
        PlacementMode::Grid { position, cols, rows, auto_detect } => {
            let dims = grid_dimensions(auto_detect, cols, rows, monitor);
            proof {
                lemma_grid_dims_valid(auto_detect, cols, rows, *monitor);
            }
            grid_position(position, dims, monitor, window)
        },
        PlacementMode::Random => random_position(monitor, window),
        PlacementMode::Manual { x, y } => PlacementResult { x, y },
    }
}

/// Computes the main panel's placement for a request: resolves the monitor
/// from the preference text, then places on it. Returns `None`, placing
/// nothing, when the mode is not admissible on that monitor (an empty
/// caller grid, or a monitor too small for random placement).
pub fn place_main_window(
    mode: PlacementMode,
    preference: &str,
    monitors: &Vec<MonitorInfo>,
    current_origin: Option<(i32, i32)>,
    window: WindowGeometry,
) -> (r: Option<PlacementResult>)
    ensures
        ({
            let m = resolve_spec(preference_spec(preference@), monitors@, current_origin);
            &&& r is None <==> !mode_admissible(mode, m, window)
            &&& r matches Some(p) ==> is_placement(mode, m, window, p)
        }),
{
    let pref = parse_preference(preference);
    let monitor = resolve_monitor(pref, monitors, current_origin);
    let admissible = match mode {
        PlacementMode::Grid { cols, rows, auto_detect, .. } => auto_detect || (cols >= 1 && rows >= 1),
        PlacementMode::Random => monitor.width as i64 - window.width as i64 - RANDOM_MARGIN >= 1
            && monitor.height as i64 - window.height as i64 - RANDOM_MARGIN >= 1,
        PlacementMode::Manual { .. } => true,
    };
    if admissible {
        Some(compute_position(mode, &monitor, window))
    } else {
        None
    }
}

/// What the host shows as the current screen's grid: its size and the
/// lattice in use.
#[derive(Clone, Copy, Debug, PartialEq, Eq, Structural)]
pub struct ScreenGrid {
    pub width: u32,
    pub height: u32,
    pub cols: u32,
    pub rows: u32,
}

/// The screen grid reported for the monitor the panel is on; when the host
/// does not know that monitor, the default: 1920 by 1080 with a 4 by 3
/// lattice, whatever the requested grid.
pub fn screen_grid(current: Option<MonitorInfo>, auto_detect: bool, cols: u32, rows: u32) -> (r: ScreenGrid)
    ensures
        current matches Some(m) ==> ({
            let dims = grid_dims_spec(auto_detect, cols, rows, m);
            r == ScreenGrid { width: m.width, height: m.height, cols: dims.0, rows: dims.1 }
        }),
        current is None ==> (r == ScreenGrid { width: 1920, height: 1080, cols: 4, rows: 3 }),
{
    match current {
        Some(m) => {
            let (c, r) = grid_dimensions(auto_detect, cols, rows, &m);
            ScreenGrid { width: m.width, height: m.height, cols: c, rows: r }
        },
        None => ScreenGrid { width: 1920, height: 1080, cols: 4, rows: 3 },
    }
}

/// The screen grid a slot layout is drawn on: that of the monitor the panel
/// is on, or that of the fallback monitor when the host does not know it,
/// where a requested grid is kept.
pub fn layout_screen_grid(current: Option<MonitorInfo>, auto_detect: bool, cols: u32, rows: u32) -> (r: ScreenGrid)
    ensures
        ({
            let m = match current {
                Some(c) => c,
                None => crate::monitors::fallback_monitor_spec(),
            };
            let dims = grid_dims_spec(auto_detect, cols, rows, m);
            r == ScreenGrid { width: m.width, height: m.height, cols: dims.0, rows: dims.1 }
        }),
{
    let m = match current {
        Some(c) => c,
        None => fallback_monitor(),
    };
    let (c, r) = grid_dimensions(auto_detect, cols, rows, &m);
    ScreenGrid { width: m.width, height: m.height, cols: c, rows: r }
}

/// A grid placement does not change when the position moves by whole turns
/// of the lattice.
pub proof fn grid_placement_periodic(
    position: int,
    k: int,
    cols: u32,
    rows: u32,
    auto_detect: bool,
    m: MonitorInfo,
    w: WindowGeometry,
)
    requires
        auto_detect || (cols >= 1 && rows >= 1),
        k >= 0,
    ensures
        ({
            let dims = grid_dims_spec(auto_detect, cols, rows, m);
            grid_point(position + k * dims.0 * dims.1, dims, m, w) == grid_point(position, dims, m, w)
        }),
{
    grid_point_periodic(position, k, grid_dims_spec(auto_detect, cols, rows, m), m, w);
}

/// Every grid placement leaves the whole window on its monitor, whenever
/// each axis has room as `axis_fits` states for the lattice in use.
pub proof fn grid_placement_on_monitor(
    position: int,
    cols: u32,
    rows: u32,
    auto_detect: bool,
    m: MonitorInfo,
    w: WindowGeometry,
)
    requires
        auto_detect || (cols >= 1 && rows >= 1),
        axis_fits(grid_dims_spec(auto_detect, cols, rows, m).0 as int, m.width as int, w.width as int),
        axis_fits(grid_dims_spec(auto_detect, cols, rows, m).1 as int, m.height as int, w.height as int),
    ensures
        w.footprint_within(grid_point(position, grid_dims_spec(auto_detect, cols, rows, m), m, w), m),
{
    grid_point_on_monitor(position, grid_dims_spec(auto_detect, cols, rows, m), m, w);
}

} // verus!
