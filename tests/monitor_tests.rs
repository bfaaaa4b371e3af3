use widget_placement::geometry::{MonitorInfo, Rect};
use widget_placement::monitors::{fallback_monitor, monitor_catalog, parse_preference, resolve_monitor, MonitorPreference};

fn rect(x: i32, y: i32, width: u32, height: u32) -> Rect {
    Rect { x, y, width, height }
}

fn three_monitors() -> Vec<MonitorInfo> {
    monitor_catalog(&vec![rect(0, 0, 1920, 1080), rect(1920, 0, 2560, 1440), rect(-1280, 0, 1280, 1024)])
}

#[test]
fn empty_enumeration_gives_the_fallback_monitor() {
    let cat = monitor_catalog(&Vec::new());
    assert_eq!(cat, vec![MonitorInfo { index: 0, x: 0, y: 0, width: 1920, height: 1080, is_primary: true }]);
    assert_eq!(fallback_monitor(), cat[0]);
}

#[test]
fn catalog_numbers_monitors_and_marks_the_first_primary() {
    let cat = three_monitors();
    assert_eq!(cat.len(), 3);
    assert_eq!(cat[1], MonitorInfo { index: 1, x: 1920, y: 0, width: 2560, height: 1440, is_primary: false });
    assert_eq!(cat[2], MonitorInfo { index: 2, x: -1280, y: 0, width: 1280, height: 1024, is_primary: false });
    assert!(cat[0].is_primary);
}

#[test]
fn preference_words() {
    assert_eq!(parse_preference("primary"), MonitorPreference::Primary);
    assert_eq!(parse_preference("current"), MonitorPreference::Current);
    assert_eq!(parse_preference("auto"), MonitorPreference::Current);
    assert_eq!(parse_preference(""), MonitorPreference::Current);
    assert_eq!(parse_preference("Primary"), MonitorPreference::Current);
}

#[test]
fn preference_indices() {
    assert_eq!(parse_preference("0"), MonitorPreference::Index(0));
    assert_eq!(parse_preference("2"), MonitorPreference::Index(2));
    assert_eq!(parse_preference("+3"), MonitorPreference::Index(3));
    assert_eq!(parse_preference("0042"), MonitorPreference::Index(42));
    assert_eq!(parse_preference("-1"), MonitorPreference::Current);
    assert_eq!(parse_preference("+"), MonitorPreference::Current);
    assert_eq!(parse_preference("1a"), MonitorPreference::Current);
    assert_eq!(parse_preference(" 1"), MonitorPreference::Current);
    assert_eq!(parse_preference("99999999999999999999999999"), MonitorPreference::Index(usize::MAX));
}

#[test]
fn resolve_primary_and_index() {
    let ms = three_monitors();
    assert_eq!(resolve_monitor(MonitorPreference::Primary, &ms, Some((1920, 0))), ms[0]);
    assert_eq!(resolve_monitor(MonitorPreference::Index(2), &ms, None), ms[2]);
    assert_eq!(resolve_monitor(MonitorPreference::Index(3), &ms, Some((1920, 0))), ms[0]);
    assert_eq!(resolve_monitor(MonitorPreference::Index(usize::MAX), &ms, None), ms[0]);
}

#[test]
fn resolve_current_matches_origin() {
    let ms = three_monitors();
    assert_eq!(resolve_monitor(MonitorPreference::Current, &ms, Some((1920, 0))), ms[1]);
    assert_eq!(resolve_monitor(MonitorPreference::Current, &ms, Some((-1280, 0))), ms[2]);
    assert_eq!(resolve_monitor(MonitorPreference::Current, &ms, Some((5, 5))), ms[0]);
    assert_eq!(resolve_monitor(MonitorPreference::Current, &ms, None), ms[0]);
}

#[test]
fn resolve_on_empty_list_gives_fallback() {
    let empty: Vec<MonitorInfo> = Vec::new();
    assert_eq!(resolve_monitor(MonitorPreference::Primary, &empty, None), fallback_monitor());
    assert_eq!(resolve_monitor(MonitorPreference::Current, &empty, Some((0, 0))), fallback_monitor());
    assert_eq!(resolve_monitor(MonitorPreference::Index(0), &empty, None), fallback_monitor());
}
