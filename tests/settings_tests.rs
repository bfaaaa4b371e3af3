use widget_placement::geometry::{MonitorInfo, PlacementResult, Rect, WindowGeometry};
use widget_placement::settings::place_settings;

const SETTINGS: WindowGeometry = WindowGeometry { width: 400, height: 600 };

fn monitor(index: usize, x: i32, y: i32, width: u32, height: u32) -> MonitorInfo {
    MonitorInfo { index, x, y, width, height, is_primary: index == 0 }
}

fn overlaps(p: &Rect, s: &PlacementResult, size: WindowGeometry) -> bool {
    let (px, py, pw, ph) = (p.x as i64, p.y as i64, p.width as i64, p.height as i64);
    let (sw, sh) = (size.width as i64, size.height as i64);
    s.x < px + pw && px < s.x + sw && s.y < py + ph && py < s.y + sh
}

fn within_some_monitor(s: &PlacementResult, size: WindowGeometry, ms: &[MonitorInfo]) -> bool {
    ms.iter().any(|m| {
        s.x >= m.x as i64
            && s.x + size.width as i64 <= m.x as i64 + m.width as i64
            && s.y >= m.y as i64
            && s.y + size.height as i64 <= m.y as i64 + m.height as i64
    })
}

#[test]
fn example_places_right_of_primary() {
    let ms = vec![monitor(0, 0, 0, 1920, 1080)];
    let primary = Rect { x: 100, y: 100, width: 450, height: 220 };
    assert_eq!(place_settings(primary, SETTINGS, &ms), Some(PlacementResult { x: 570, y: 100 }));
}

#[test]
fn right_side_clamps_vertically() {
    let ms = vec![monitor(0, 0, 0, 1920, 1080)];
    let primary = Rect { x: 100, y: 800, width: 450, height: 220 };
    assert_eq!(place_settings(primary, SETTINGS, &ms), Some(PlacementResult { x: 570, y: 480 }));
}

#[test]
fn falls_back_to_left_side() {
    let ms = vec![monitor(0, 0, 0, 1920, 1080)];
    let primary = Rect { x: 1400, y: 300, width: 450, height: 220 };
    // right: 1400 + 450 + 400 + 70 = 2320 > 1920; left: 1400 - 420 = 980 >= 50
    assert_eq!(place_settings(primary, SETTINGS, &ms), Some(PlacementResult { x: 980, y: 300 }));
}

#[test]
fn falls_back_to_below() {
    let ms = vec![monitor(0, 0, 0, 1000, 2000)];
    let primary = Rect { x: 200, y: 100, width: 600, height: 200 };
    // right: 200 + 600 + 470 > 1000; left: 200 - 420 < 50; below: 100 + 200 + 620 <= 1950
    assert_eq!(place_settings(primary, SETTINGS, &ms), Some(PlacementResult { x: 200, y: 320 }));
}

#[test]
fn falls_back_to_above() {
    let ms = vec![monitor(0, 0, 0, 1000, 2000)];
    let primary = Rect { x: 200, y: 1500, width: 600, height: 200 };
    // below: 1500 + 200 + 620 > 1950; above: 1500 - 620 = 880 >= 50
    assert_eq!(place_settings(primary, SETTINGS, &ms), Some(PlacementResult { x: 200, y: 880 }));
}

#[test]
fn crowded_monitor_centres_on_alternate() {
    let ms = vec![monitor(0, 0, 0, 1000, 900), monitor(1, 1000, 0, 1920, 1080)];
    let primary = Rect { x: 100, y: 100, width: 800, height: 700 };
    // no side fits on the host; centred on the second monitor: 1000 + 760, 240
    assert_eq!(place_settings(primary, SETTINGS, &ms), Some(PlacementResult { x: 1760, y: 240 }));
}

#[test]
fn alternate_placement_stays_on_the_alternate_monitor() {
    let ms = vec![monitor(0, 0, 0, 1280, 800), monitor(1, 1280, 0, 1920, 1080)];
    let primary = Rect { x: 440, y: 300, width: 450, height: 220 };
    let s = place_settings(primary, SETTINGS, &ms).unwrap();
    assert_eq!(s, PlacementResult { x: 2040, y: 240 });
    assert!(!overlaps(&primary, &s, SETTINGS));
    let ms = vec![monitor(0, 0, 0, 600, 800), monitor(1, 600, 0, 1920, 1080)];
    let primary = Rect { x: 100, y: 100, width: 450, height: 220 };
    let s = place_settings(primary, SETTINGS, &ms).unwrap();
    assert_eq!(s, PlacementResult { x: 1360, y: 240 });
    assert!(!overlaps(&primary, &s, SETTINGS));
}

#[test]
fn alternate_must_exceed_the_slack() {
    // the second monitor is exactly 100 larger than the panel: not an alternate
    let ms = vec![monitor(0, 0, 0, 1000, 900), monitor(1, 1000, 0, 500, 700)];
    let primary = Rect { x: 100, y: 100, width: 800, height: 700 };
    assert_eq!(place_settings(primary, SETTINGS, &ms), Some(PlacementResult { x: 50, y: 50 }));
}

#[test]
fn single_crowded_monitor_uses_corner() {
    let ms = vec![monitor(0, 100, 200, 1000, 900)];
    let primary = Rect { x: 200, y: 300, width: 800, height: 700 };
    assert_eq!(place_settings(primary, SETTINGS, &ms), Some(PlacementResult { x: 150, y: 250 }));
}

#[test]
fn primary_center_off_every_monitor_uses_monitor_zero() {
    let ms = vec![monitor(0, 0, 0, 1920, 1080), monitor(1, 1920, 0, 1920, 1080)];
    let primary = Rect { x: 5000, y: 100, width: 450, height: 220 };
    // host is monitor 0; left: 5000 - 420 >= 50, then clamped to 1920 - 400
    assert_eq!(place_settings(primary, SETTINGS, &ms), Some(PlacementResult { x: 1520, y: 100 }));
}

#[test]
fn host_is_the_monitor_containing_the_center() {
    let ms = vec![monitor(0, 0, 0, 1920, 1080), monitor(1, 1920, 0, 1920, 1080)];
    let primary = Rect { x: 1800, y: 100, width: 450, height: 220 };
    // centre x = 2025 lies on monitor 1
    assert_eq!(place_settings(primary, SETTINGS, &ms), Some(PlacementResult { x: 2270, y: 100 }));
}

#[test]
fn no_monitor_gives_none() {
    let primary = Rect { x: 100, y: 100, width: 450, height: 220 };
    assert_eq!(place_settings(primary, SETTINGS, &Vec::new()), None);
}

fn compass_positions(m: &MonitorInfo, w: u32, h: u32) -> Vec<Rect> {
    let (x0, y0) = (m.x, m.y);
    let x_left = x0;
    let x_mid = x0 + (m.width as i32 - w as i32) / 2;
    let x_right = x0 + m.width as i32 - w as i32;
    let y_top = y0;
    let y_mid = y0 + (m.height as i32 - h as i32) / 2;
    let y_bottom = y0 + m.height as i32 - h as i32;
    let mut out = Vec::new();
    for (x, y) in [
        (x_mid, y_top),
        (x_right, y_top),
        (x_right, y_mid),
        (x_right, y_bottom),
        (x_mid, y_bottom),
        (x_left, y_bottom),
        (x_left, y_mid),
        (x_left, y_top),
    ] {
        out.push(Rect { x, y, width: w, height: h });
    }
    out
}

fn check_layout(ms: &[MonitorInfo]) {
    let list = ms.to_vec();
    for m in ms {
        for primary in compass_positions(m, 450, 220) {
            let s = place_settings(primary, SETTINGS, &list).unwrap();
            assert!(!overlaps(&primary, &s, SETTINGS), "{:?} covers {:?}", s, primary);
            assert!(within_some_monitor(&s, SETTINGS, ms), "{:?} off every monitor", s);
        }
    }
}

#[test]
fn compass_positions_on_two_monitors() {
    check_layout(&[monitor(0, 0, 0, 1920, 1080), monitor(1, 1920, 0, 2560, 1440)]);
}

#[test]
fn compass_positions_on_three_monitors() {
    check_layout(&[
        monitor(0, 0, 0, 1920, 1080),
        monitor(1, -1280, 200, 1280, 1024),
        monitor(2, 0, -1080, 1920, 1080),
    ]);
}
