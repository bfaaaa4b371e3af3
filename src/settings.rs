//! Placement of the settings panel beside the main panel without covering
//! it.
use vstd::prelude::*;
use crate::geometry::{centered_on, clamp, clamp_i64, MonitorInfo, PlacementResult, Rect, WindowGeometry};

verus! {

/// Space left between the main panel and the settings panel.
pub const SETTINGS_GAP: i64 = 20;

/// Extra room a side must keep beyond the settings panel to be chosen.
pub const SETTINGS_BUFFER: i64 = 50;

/// Room an alternate monitor must have beyond the settings panel's size,
/// on each axis, to be chosen.
pub const ALTERNATE_SLACK: i64 = 100;

/// Offset from the host monitor's origin used when no other rule applies.
pub const CORNER_OFFSET: i64 = 50;

/// Whether `ms[i]` is the first monitor containing the center of `p`.
pub open spec fn is_first_host(ms: Seq<MonitorInfo>, p: Rect, i: int) -> bool {
    &&& 0 <= i < ms.len()
    &&& ms[i].contains_doubled(p.center_x2(), p.center_y2())
    &&& forall|j: int| 0 <= j < i ==> !ms[j].contains_doubled(p.center_x2(), p.center_y2())
}

/// Index of the monitor that hosts the main panel: the first one containing
/// its center, or monitor 0 when none does.
pub open spec fn host_index(ms: Seq<MonitorInfo>, p: Rect) -> int {
    if exists|i: int| is_first_host(ms, p, i) {
        choose|i: int| is_first_host(ms, p, i)
    } else {
        0
    }
}

/// Rule 1: room to the right of the main panel on the host monitor.
pub open spec fn fits_right(p: Rect, s: WindowGeometry, m: MonitorInfo) -> bool {
    p.x + p.width + s.width + SETTINGS_GAP + SETTINGS_BUFFER <= m.x + m.width
}

/// Rule 2: room to the left of the main panel.
pub open spec fn fits_left(p: Rect, s: WindowGeometry, m: MonitorInfo) -> bool {
    p.x - s.width - SETTINGS_GAP >= m.x + SETTINGS_BUFFER
}

/// Rule 3: room below the main panel.
pub open spec fn fits_below(p: Rect, s: WindowGeometry, m: MonitorInfo) -> bool {
    p.y + p.height + s.height + SETTINGS_GAP <= m.y + m.height - SETTINGS_BUFFER
}

/// Rule 4: room above the main panel.
pub open spec fn fits_above(p: Rect, s: WindowGeometry, m: MonitorInfo) -> bool {
    p.y - s.height - SETTINGS_GAP >= m.y + SETTINGS_BUFFER
}

/// Whether one of the four sides of the main panel has room.
pub open spec fn fits_beside(p: Rect, s: WindowGeometry, m: MonitorInfo) -> bool {
    fits_right(p, s, m) || fits_left(p, s, m) || fits_below(p, s, m) || fits_above(p, s, m)
}

/// Whether monitor `a` can take the settings panel in place of `host`: its
/// origin differs from the host's and it exceeds the panel by the slack on
/// both axes.
pub open spec fn is_alternate(a: MonitorInfo, host: MonitorInfo, s: WindowGeometry) -> bool {
    &&& !a.has_origin(host.x as int, host.y as int)
    &&& a.width > s.width + ALTERNATE_SLACK
    &&& a.height > s.height + ALTERNATE_SLACK
}

/// Whether `ms[j]` is the first alternate monitor.
pub open spec fn is_first_alternate(ms: Seq<MonitorInfo>, host: MonitorInfo, s: WindowGeometry, j: int) -> bool {
    &&& 0 <= j < ms.len()
    &&& is_alternate(ms[j], host, s)
    &&& forall|k: int| 0 <= k < j ==> !is_alternate(ms[k], host, s)
}

/// The position the first applicable rule proposes, before the final
/// clamp: right, left, below, above the main panel, centred on the first
/// alternate monitor, and last the corner of the host monitor.
pub open spec fn settings_candidate(p: Rect, s: WindowGeometry, ms: Seq<MonitorInfo>) -> (int, int) {
    let m = ms[host_index(ms, p)];
    if fits_right(p, s, m) {
        (p.x + p.width + SETTINGS_GAP, clamp(p.y as int, m.y as int, m.y + m.height - s.height))
    } else if fits_left(p, s, m) {
        (p.x - s.width - SETTINGS_GAP, clamp(p.y as int, m.y as int, m.y + m.height - s.height))
    } else if fits_below(p, s, m) {
        (clamp(p.x as int, m.x as int, m.x + m.width - s.width), p.y + p.height + SETTINGS_GAP)
    } else if fits_above(p, s, m) {
        (clamp(p.x as int, m.x as int, m.x + m.width - s.width), p.y - s.height - SETTINGS_GAP)
    } else if exists|j: int| is_first_alternate(ms, m, s, j) {
        centered_on(ms[choose|j: int| is_first_alternate(ms, m, s, j)], s)
    } else {
        (m.x + CORNER_OFFSET, m.y + CORNER_OFFSET)
    }
}

/// Whether the alternate-monitor rule fires: no side of the main panel has
/// room on the host monitor and some alternate monitor exists.
pub open spec fn uses_alternate(p: Rect, s: WindowGeometry, ms: Seq<MonitorInfo>) -> bool {
    let m = ms[host_index(ms, p)];
    !fits_beside(p, s, m) && exists|j: int| is_first_alternate(ms, m, s, j)
}

/// Index of the monitor the settings panel goes on: the first alternate
/// monitor when that rule fires, the host monitor otherwise.
pub open spec fn target_index(p: Rect, s: WindowGeometry, ms: Seq<MonitorInfo>) -> int {
    if uses_alternate(p, s, ms) {
        choose|j: int| is_first_alternate(ms, ms[host_index(ms, p)], s, j)
    } else {
        host_index(ms, p)
    }
}

/// The settings panel's position: the candidate clamped into the monitor it
/// goes on, so that it starts no further left or up than that monitor and
/// ends no further right or down.
pub open spec fn settings_point(p: Rect, s: WindowGeometry, ms: Seq<MonitorInfo>) -> PlacementResult {
    let t = ms[target_index(p, s, ms)];
    let c = settings_candidate(p, s, ms);
    PlacementResult {
        x: clamp(c.0, t.x as int, t.x + t.width - s.width) as i64,
        y: clamp(c.1, t.y as int, t.y + t.height - s.height) as i64,
    }
}

/// Finds the monitor hosting the main panel.
fn host_monitor_index(monitors: &Vec<MonitorInfo>, primary: &Rect) -> (r: usize)
    requires
        monitors@.len() > 0,
    ensures
        r == host_index(monitors@, *primary),
        r < monitors@.len(),
{
    let cx2: i64 = 2 * primary.x as i64 + primary.width as i64;
    let cy2: i64 = 2 * primary.y as i64 + primary.height as i64;
    let mut i: usize = 0;
    while i < monitors.len()
        invariant
            0 <= i <= monitors@.len(),
            cx2 == primary.center_x2(),
            cy2 == primary.center_y2(),
            forall|j: int| 0 <= j < i ==> !monitors@[j].contains_doubled(primary.center_x2(), primary.center_y2()),
        decreases monitors@.len() - i,
    {
        let m = &monitors[i];
        if 2 * m.x as i64 <= cx2 && cx2 < 2 * (m.x as i64 + m.width as i64) && 2 * m.y as i64 <= cy2 && cy2 < 2
            * (m.y as i64 + m.height as i64) {
            proof {
                assert(is_first_host(monitors@, *primary, i as int));
                let k = choose|k: int| is_first_host(monitors@, *primary, k);
                assert(k == i) by {
                    if k < i {
                        assert(!monitors@[k].contains_doubled(primary.center_x2(), primary.center_y2()));
                    }
                    if k > i {
                        assert(!monitors@[i as int].contains_doubled(primary.center_x2(), primary.center_y2()));
                    }
                }
            }
            return i;
        }
        i += 1;
    }
    proof {
        assert(!exists|k: int| is_first_host(monitors@, *primary, k));
    }
    0
}

/// Finds the first alternate monitor, if any.
fn first_alternate(monitors: &Vec<MonitorInfo>, host: &MonitorInfo, settings: WindowGeometry) -> (r: Option<usize>)
    ensures
        r matches Some(j) ==> is_first_alternate(monitors@, *host, settings, j as int),
        r is None ==> !exists|j: int| is_first_alternate(monitors@, *host, settings, j),
{
    let mut i: usize = 0;
    while i < monitors.len()
        invariant
            0 <= i <= monitors@.len(),
            forall|k: int| 0 <= k < i ==> !is_alternate(monitors@[k], *host, settings),
        decreases monitors@.len() - i,
    {
        let a = &monitors[i];
        let same_origin = a.x == host.x && a.y == host.y;
        if !same_origin && a.width as i64 > settings.width as i64 + ALTERNATE_SLACK && a.height as i64
            > settings.height as i64 + ALTERNATE_SLACK {
            return Some(i);
        }
        i += 1;
    }
    None
}

/// Chooses where the settings panel goes, given the main panel's rectangle
/// and every monitor. Returns `None` when there is no monitor; the host then
/// centres the panel by its own means.
pub fn place_settings(primary: Rect, settings: WindowGeometry, monitors: &Vec<MonitorInfo>) -> (r: Option<PlacementResult>)
    ensures
        monitors@.len() == 0 <==> r is None,
        monitors@.len() > 0 ==> r == Some(settings_point(primary, settings, monitors@)),
{
    if monitors.len() == 0 {
        return None;
    }
    let h = host_monitor_index(monitors, &primary);
    let m = monitors[h];
    let px = primary.x as i64;
    let py = primary.y as i64;
    let pw = primary.width as i64;
    let ph = primary.height as i64;
    let sw = settings.width as i64;
    let sh = settings.height as i64;
    let mx = m.x as i64;
    let my = m.y as i64;
    let mw = m.width as i64;
    let mh = m.height as i64;
    let mut t = m;
    let (cx, cy): (i64, i64) = if px + pw + sw + SETTINGS_GAP + SETTINGS_BUFFER <= mx + mw {
        (px + pw + SETTINGS_GAP, clamp_i64(py, my, my + mh - sh))
    } else if px - sw - SETTINGS_GAP >= mx + SETTINGS_BUFFER {
        (px - sw - SETTINGS_GAP, clamp_i64(py, my, my + mh - sh))
    } else if py + ph + sh + SETTINGS_GAP <= my + mh - SETTINGS_BUFFER {
        (clamp_i64(px, mx, mx + mw - sw), py + ph + SETTINGS_GAP)
    } else if py - sh - SETTINGS_GAP >= my + SETTINGS_BUFFER {
        (clamp_i64(px, mx, mx + mw - sw), py - sh - SETTINGS_GAP)
    } else {
        match first_alternate(monitors, &m, settings) {
            Some(j) => {
                t = monitors[j];
                let ox = (t.width as i64 - sw) / 2;
                let oy = (t.height as i64 - sh) / 2;
                (t.x as i64 + ox, t.y as i64 + oy)
            },
            None => (mx + CORNER_OFFSET, my + CORNER_OFFSET),
        }
    };
    let tx = t.x as i64;
    let ty = t.y as i64;
    Some(
        PlacementResult {
            x: clamp_i64(cx, tx, tx + t.width as i64 - sw),
            y: clamp_i64(cy, ty, ty + t.height as i64 - sh),
        },
    )
}

/// The host monitor's index is a valid index.
proof fn lemma_host_in_range(ms: Seq<MonitorInfo>, p: Rect)
    requires
        ms.len() > 0,
    ensures
        0 <= host_index(ms, p) < ms.len(),
{
    if exists|i: int| is_first_host(ms, p, i) {
        let i = choose|i: int| is_first_host(ms, p, i);
        assert(is_first_host(ms, p, i));
    }
}

/// Whether rectangle `p` lies wholly on monitor `m`.
pub open spec fn rect_within(p: Rect, m: MonitorInfo) -> bool {
    &&& m.x <= p.x
    &&& p.x + p.width <= m.x + m.width
    &&& m.y <= p.y
    &&& p.y + p.height <= m.y + m.height
}

/// Whether two monitors share no interior point.
pub open spec fn monitors_disjoint(a: MonitorInfo, b: MonitorInfo) -> bool {
    ||| a.x + a.width <= b.x
    ||| b.x + b.width <= a.x
    ||| a.y + a.height <= b.y
    ||| b.y + b.height <= a.y
}

/// The target monitor's index is a valid index, and an alternate target
/// exceeds the settings panel by the slack on both axes.
proof fn lemma_target_in_range(p: Rect, s: WindowGeometry, ms: Seq<MonitorInfo>)
    requires
        ms.len() > 0,
    ensures
        0 <= target_index(p, s, ms) < ms.len(),
        uses_alternate(p, s, ms) ==> is_alternate(ms[target_index(p, s, ms)], ms[host_index(ms, p)], s),
{
    lemma_host_in_range(ms, p);
    let m = ms[host_index(ms, p)];
    if uses_alternate(p, s, ms) {
        let j = choose|j: int| is_first_alternate(ms, m, s, j);
        assert(is_first_alternate(ms, m, s, j));
    }
}

/// The settings panel always lies wholly on the monitor it goes on (the
/// alternate monitor when that rule fires, the host monitor otherwise),
/// provided that monitor is at least as large as the panel.
pub proof fn settings_point_on_target(p: Rect, s: WindowGeometry, ms: Seq<MonitorInfo>)
    requires
        ms.len() > 0,
        s.width <= ms[target_index(p, s, ms)].width,
        s.height <= ms[target_index(p, s, ms)].height,
    ensures
        s.footprint_within(settings_point(p, s, ms), ms[target_index(p, s, ms)]),
{
    lemma_target_in_range(p, s, ms);
    let c = settings_candidate(p, s, ms);
    assert(i64::MIN <= c.0 <= i64::MAX && i64::MIN <= c.1 <= i64::MAX);
}

/// The settings panel never covers the main panel when one of the four
/// sides of the main panel has room on the host monitor, or when it goes on
/// an alternate monitor that shares no area with a host monitor holding the
/// whole main panel.
pub proof fn settings_point_clear_of_primary(p: Rect, s: WindowGeometry, ms: Seq<MonitorInfo>)
    requires
        ms.len() > 0,
        fits_beside(p, s, ms[host_index(ms, p)]) || (uses_alternate(p, s, ms) && rect_within(
            p,
            ms[host_index(ms, p)],
        ) && monitors_disjoint(ms[host_index(ms, p)], ms[target_index(p, s, ms)])),
    ensures
        p.disjoint_from(settings_point(p, s, ms), s),
{
    lemma_target_in_range(p, s, ms);
    if !fits_beside(p, s, ms[host_index(ms, p)]) {
        settings_point_on_target(p, s, ms);
    }
}

} // verus!
