//! Random placement: a slot drawn from a hash of the current time.
use vstd::prelude::*;
use crate::geometry::{MonitorInfo, PlacementResult, WindowGeometry};

verus! {

/// Distance kept between a random placement and the monitor's top-left
/// edges.
pub const RANDOM_MARGIN: i64 = 100;

/// Number of distinct offsets a random placement can take on an axis of
/// length `size` for a window of length `win`.
pub open spec fn random_room(size: int, win: int) -> int {
    size - win - RANDOM_MARGIN
}

/// Whether random placement is defined for this monitor and window: each
/// axis must leave room for at least one offset.
pub open spec fn random_admissible(m: MonitorInfo, w: WindowGeometry) -> bool {
    random_room(m.width as int, w.width as int) >= 1 && random_room(m.height as int, w.height as int) >= 1
}

/// The placement drawn from `hash`: the low bits choose the horizontal
/// offset and the bits from 32 up the vertical one, each reduced modulo the
/// axis's room and shifted by the margin and the monitor's origin.
pub open spec fn random_point(hash: u64, m: MonitorInfo, w: WindowGeometry) -> PlacementResult {
    let rx = random_room(m.width as int, w.width as int);
    let ry = random_room(m.height as int, w.height as int);
    PlacementResult {
        x: (m.x + RANDOM_MARGIN + (hash as int) % rx) as i64,
        y: (m.y + RANDOM_MARGIN + ((hash as int) / 0x1_0000_0000) % ry) as i64,
    }
}

/// Whether `p` lies at least the margin from the monitor's top-left edges
/// and leaves the whole window on the monitor.
pub open spec fn within_random_bounds(p: PlacementResult, m: MonitorInfo, w: WindowGeometry) -> bool {
    &&& m.x + RANDOM_MARGIN <= p.x <= m.x + m.width - w.width - 1
    &&& m.y + RANDOM_MARGIN <= p.y <= m.y + m.height - w.height - 1
}

/// Placement drawn from a given hash value.
pub fn random_position_from_hash(hash: u64, monitor: &MonitorInfo, window: WindowGeometry) -> (r: PlacementResult)
    requires
        random_admissible(*monitor, window),
    ensures
        r == random_point(hash, *monitor, window),
        within_random_bounds(r, *monitor, window),
{
    let room_x = (monitor.width as i64 - window.width as i64 - RANDOM_MARGIN) as u64;
    let room_y = (monitor.height as i64 - window.height as i64 - RANDOM_MARGIN) as u64;
    let dx = (hash % room_x) as i64;
    let dy = ((hash / 0x1_0000_0000) % room_y) as i64;
    PlacementResult { x: monitor.x as i64 + RANDOM_MARGIN + dx, y: monitor.y as i64 + RANDOM_MARGIN + dy }
}

/// Relies on `std::time::SystemTime::now` and `duration_since(UNIX_EPOCH)`:
/// the wall-clock time in nanoseconds since the epoch, or 0 for a clock set
/// before it. Nothing is known of the value.
#[verifier::external_body]
fn nanos_since_epoch() -> (r: u128) {
    match std::time::SystemTime::now().duration_since(std::time::UNIX_EPOCH) {
        Ok(d) => d.as_nanos(),
        Err(_) => 0,
    }
}

/// Relies on `std::collections::hash_map::DefaultHasher`: a 64-bit hash of
/// the timestamp. Its algorithm is left unspecified by std, so nothing is
/// known of the value.
#[verifier::external_body]
fn hash_timestamp(nanos: u128) -> (r: u64) {
    let mut hasher = std::collections::hash_map::DefaultHasher::new();
    std::hash::Hash::hash(&nanos, &mut hasher);
    std::hash::Hasher::finish(&hasher)
}

/// Draws a random placement, reseeded from the clock on every call.
pub fn random_position(monitor: &MonitorInfo, window: WindowGeometry) -> (r: PlacementResult)
    requires
        random_admissible(*monitor, window),
    ensures
        exists|hash: u64| r == random_point(hash, *monitor, window),
        within_random_bounds(r, *monitor, window),
{
    let hash = hash_timestamp(nanos_since_epoch());
    random_position_from_hash(hash, monitor, window)
}

/// Random placements keep the margin on every side exactly when the hash
/// leaves at least a margin's worth of each axis's room unused; the drawn
/// offsets reach up to one unit short of the far edge otherwise.
pub proof fn random_point_within_margins(hash: u64, m: MonitorInfo, w: WindowGeometry)
    requires
        random_admissible(m, w),
        (hash as int) % random_room(m.width as int, w.width as int) <= random_room(m.width as int, w.width as int) - RANDOM_MARGIN,
        ((hash as int) / 0x1_0000_0000) % random_room(m.height as int, w.height as int) <= random_room(m.height as int, w.height as int) - RANDOM_MARGIN,
    ensures
        m.x + RANDOM_MARGIN <= random_point(hash, m, w).x <= m.x + m.width - w.width - RANDOM_MARGIN,
        m.y + RANDOM_MARGIN <= random_point(hash, m, w).y <= m.y + m.height - w.height - RANDOM_MARGIN,
{
}

} // verus!
