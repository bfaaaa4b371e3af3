use widget_placement::geometry::{MonitorInfo, PlacementResult, WindowGeometry};
use widget_placement::grid::{auto_grid, grid_dimensions, grid_layout, grid_position};
use widget_placement::placement::{compute_position, PlacementMode};

fn monitor(x: i32, y: i32, width: u32, height: u32) -> MonitorInfo {
    MonitorInfo { index: 0, x, y, width, height, is_primary: true }
}

const PANEL: WindowGeometry = WindowGeometry { width: 400, height: 300 };

#[test]
fn aspect_ratio_selects_grid_by_strict_thresholds() {
    assert_eq!(auto_grid(250, 100), (6, 3));
    assert_eq!(auto_grid(190, 100), (5, 3));
    assert_eq!(auto_grid(160, 100), (4, 3));
    assert_eq!(auto_grid(133, 100), (3, 4));
    assert_eq!(auto_grid(200, 100), (5, 3));
}

#[test]
fn aspect_ratio_boundaries_fall_to_the_lower_step() {
    assert_eq!(auto_grid(180, 100), (4, 3));
    assert_eq!(auto_grid(150, 100), (3, 4));
    assert_eq!(auto_grid(201, 100), (6, 3));
    assert_eq!(auto_grid(1920, 1080), (4, 3));
    assert_eq!(auto_grid(3440, 1440), (6, 3));
    assert_eq!(auto_grid(2560, 1080), (6, 3));
    assert_eq!(auto_grid(1024, 768), (3, 4));
}

#[test]
fn degenerate_monitor_sizes_pick_a_grid() {
    assert_eq!(auto_grid(100, 0), (6, 3));
    assert_eq!(auto_grid(0, 0), (3, 4));
}

#[test]
fn manual_grid_is_used_verbatim() {
    let m = monitor(0, 0, 1920, 1080);
    assert_eq!(grid_dimensions(false, 7, 2, &m), (7, 2));
    assert_eq!(grid_dimensions(true, 7, 2, &m), (4, 3));
}

#[test]
fn grid_slot_values_on_full_hd() {
    let m = monitor(0, 0, 1920, 1080);
    // available: 1920 - 400 - 100 = 1420 wide, 1080 - 300 - 100 = 680 high
    assert_eq!(grid_position(0, (4, 3), &m, PANEL), PlacementResult { x: 50, y: 50 });
    assert_eq!(grid_position(3, (4, 3), &m, PANEL), PlacementResult { x: 1470, y: 50 });
    assert_eq!(grid_position(5, (4, 3), &m, PANEL), PlacementResult { x: 523, y: 390 });
    assert_eq!(grid_position(11, (4, 3), &m, PANEL), PlacementResult { x: 1470, y: 730 });
}

#[test]
fn grid_adds_monitor_offset() {
    let m = monitor(1920, -200, 1920, 1080);
    assert_eq!(grid_position(0, (4, 3), &m, PANEL), PlacementResult { x: 1970, y: -150 });
    assert_eq!(grid_position(11, (4, 3), &m, PANEL), PlacementResult { x: 3390, y: 530 });
}

#[test]
fn single_column_or_row_is_centred() {
    let m = monitor(0, 0, 1920, 1080);
    assert_eq!(grid_position(0, (1, 1), &m, PANEL), PlacementResult { x: 760, y: 390 });
    assert_eq!(grid_position(2, (1, 3), &m, PANEL), PlacementResult { x: 760, y: 730 });
}

#[test]
fn grid_position_wraps_by_whole_turns() {
    let m = monitor(0, 0, 1920, 1080);
    for p in 0..12 {
        let base = grid_position(p, (4, 3), &m, PANEL);
        for k in 1..5 {
            assert_eq!(grid_position(p + k * 12, (4, 3), &m, PANEL), base);
        }
    }
    assert_eq!(grid_position(-1, (4, 3), &m, PANEL), grid_position(11, (4, 3), &m, PANEL));
}

#[test]
fn grid_placements_stay_on_monitor() {
    let monitors = [monitor(0, 0, 1920, 1080), monitor(-1280, 100, 1280, 1024), monitor(0, 0, 3440, 1440)];
    for m in monitors.iter() {
        for dims in [(4u32, 3u32), (6, 3), (3, 4), (1, 1), (2, 5)] {
            for p in 0..(dims.0 * dims.1) as i32 {
                let r = grid_position(p, dims, m, PANEL);
                assert!(r.x >= m.x as i64 && r.x + 400 <= m.x as i64 + m.width as i64);
                assert!(r.y >= m.y as i64 && r.y + 300 <= m.y as i64 + m.height as i64);
            }
        }
    }
}

#[test]
fn oversized_window_interpolates_below_the_margin() {
    let m = monitor(0, 0, 480, 360);
    // available: 480 - 400 - 100 = -20 wide; slots run from 50 down to 30
    assert_eq!(grid_position(0, (3, 1), &m, PANEL).x, 50);
    assert_eq!(grid_position(1, (3, 1), &m, PANEL).x, 40);
    assert_eq!(grid_position(2, (3, 1), &m, PANEL).x, 30);
    // available height: 360 - 300 - 100 = -40, centred: 50 - 20
    assert_eq!(grid_position(0, (3, 1), &m, PANEL).y, 30);
}

#[test]
fn fractional_offsets_round_down() {
    let m = monitor(0, 0, 1001, 1080);
    // available: 1001 - 400 - 100 = 501; slot 1 of 3 sits at 50 + 250.5
    assert_eq!(grid_position(1, (3, 3), &m, PANEL).x, 300);
    let n = monitor(0, 0, 499, 1080);
    // available: -1, one column: 50 + (-0.5) rounds down to 49
    assert_eq!(grid_position(0, (1, 3), &n, PANEL).x, 49);
}

#[test]
fn grid_layout_lists_every_slot() {
    let m = monitor(500, 500, 1920, 1080);
    let slots = grid_layout((4, 3), &m, PANEL);
    assert_eq!(slots.len(), 12);
    assert_eq!((slots[0].index, slots[0].x, slots[0].y), (0, 50, 50));
    assert_eq!((slots[5].index, slots[5].x, slots[5].y), (5, 523, 390));
    assert_eq!((slots[11].index, slots[11].x, slots[11].y), (11, 1470, 730));
}

#[test]
fn compute_position_grid_with_auto_detect() {
    let m = monitor(0, 0, 2560, 1080);
    let r = compute_position(PlacementMode::Grid { position: 17, cols: 0, rows: 0, auto_detect: true }, &m, PANEL);
    // 6 by 3 lattice; slot 17 is the last one
    assert_eq!(r, PlacementResult { x: 2560 - 400 - 50, y: 1080 - 300 - 50 });
}
