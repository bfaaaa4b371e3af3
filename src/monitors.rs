//! The monitor catalog: the list of displays with its synthetic fallback,
//! and the choice of a target monitor from the user's preference.
use vstd::prelude::*;
use crate::geometry::{MonitorInfo, Rect};

verus! {

/// The monitor assumed when the host reports none: 1920 by 1080 at the
/// origin, index 0, primary.
pub open spec fn fallback_monitor_spec() -> MonitorInfo {
    MonitorInfo { index: 0, x: 0, y: 0, width: 1920, height: 1080, is_primary: true }
}

/// Returns the synthetic fallback monitor.
pub fn fallback_monitor() -> (r: MonitorInfo)
    ensures
        r == fallback_monitor_spec(),
{
    MonitorInfo { index: 0, x: 0, y: 0, width: 1920, height: 1080, is_primary: true }
}

/// Catalog entry for the `i`-th display the host enumerated: the first one
/// counts as primary, whatever the host says.
pub open spec fn catalog_entry(i: int, r: Rect) -> MonitorInfo {
    MonitorInfo { index: i as usize, x: r.x, y: r.y, width: r.width, height: r.height, is_primary: i == 0 }
}

/// The catalog for the displays the host enumerated, in its order; the
/// fallback monitor alone when it enumerated none.
pub open spec fn catalog_spec(screens: Seq<Rect>) -> Seq<MonitorInfo> {
    if screens.len() == 0 {
        seq![fallback_monitor_spec()]
    } else {
        Seq::new(screens.len(), |i: int| catalog_entry(i, screens[i]))
    }
}

/// Builds the monitor catalog from the displays' rectangles.
pub fn monitor_catalog(screens: &Vec<Rect>) -> (r: Vec<MonitorInfo>)
    ensures
        r@ == catalog_spec(screens@),
        r@.len() >= 1,
{
    let mut out: Vec<MonitorInfo> = Vec::new();
    if screens.len() == 0 {
        out.push(fallback_monitor());
        proof {
            assert(out@ =~= catalog_spec(screens@));
        }
        return out;
    }
    let mut i: usize = 0;
    while i < screens.len()
        invariant
            0 <= i <= screens@.len(),
            out@.len() == i,
            forall|k: int| 0 <= k < i ==> out@[k] == catalog_entry(k, screens@[k]),
        decreases screens@.len() - i,
    {
        let s = screens[i];
        out.push(MonitorInfo { index: i, x: s.x, y: s.y, width: s.width, height: s.height, is_primary: i == 0 });
        i += 1;
    }
    proof {
        assert(out@ =~= catalog_spec(screens@));
    }
    out
}

/// Which monitor the user asked for.
#[derive(Clone, Copy, Debug, PartialEq, Eq, Structural)]
pub enum MonitorPreference {
    /// The first monitor in enumeration order.
    Primary,
    /// The monitor the main panel is on now.
    Current,
    /// The monitor at this index in enumeration order.
    Index(usize),
}

/// Whether `c` is an ASCII decimal digit.
pub open spec fn is_digit(c: char) -> bool {
    '0' <= c && c <= '9'
}

/// The number a string of decimal digits denotes.
pub open spec fn digits_value(s: Seq<char>) -> nat
    decreases s.len(),
{
    if s.len() == 0 {
        0
    } else {
        digits_value(s.drop_last()) * 10 + ((s.last() as int) - ('0' as int)) as nat
    }
}

/// The text without one leading `+`, if it has one.
pub open spec fn unsigned_part(s: Seq<char>) -> Seq<char> {
    if s.len() > 0 && s[0] == '+' {
        s.drop_first()
    } else {
        s
    }
}

/// Whether the text is a non-negative integer: one or more decimal digits,
/// with at most one leading `+`.
pub open spec fn is_index_text(s: Seq<char>) -> bool {
    let d = unsigned_part(s);
    d.len() > 0 && forall|i: int| 0 <= i < d.len() ==> is_digit(d[i])
}

/// `n`, or `usize::MAX` when `n` is larger. No monitor list reaches that
/// length, so every saturated index is out of range.
pub open spec fn saturate(n: nat) -> usize {
    if n > usize::MAX {
        usize::MAX
    } else {
        n as usize
    }
}

/// The preference a setting's text stands for: `primary`, `current`, an
/// index, and `current` for anything else (`auto` included).
pub open spec fn preference_spec(s: Seq<char>) -> MonitorPreference {
    if s == "primary"@ {
        MonitorPreference::Primary
    } else if s == "current"@ {
        MonitorPreference::Current
    } else if is_index_text(s) {
        MonitorPreference::Index(saturate(digits_value(unsigned_part(s))))
    } else {
        MonitorPreference::Current
    }
}

/// Whether two strings hold the same characters.
fn text_equals(s: &str, t: &str) -> (r: bool)
    ensures
        r == (s@ == t@),
{
    let n = s.unicode_len();
    if n != t.unicode_len() {
        return false;
    }
    let mut i: usize = 0;
    while i < n
        invariant
            n == s@.len(),
            n == t@.len(),
            0 <= i <= n,
            forall|k: int| 0 <= k < i ==> s@[k] == t@[k],
        decreases n - i,
    {
        if s.get_char(i) != t.get_char(i) {
            return false;
        }
        i += 1;
    }
    proof {
        assert(s@ =~= t@);
    }
    true
}

/// Reads a monitor preference from the text of the setting.
pub fn parse_preference(s: &str) -> (r: MonitorPreference)
    ensures
        r == preference_spec(s@),
{
    if text_equals(s, "primary") {
        return MonitorPreference::Primary;
    }
    if text_equals(s, "current") {
        return MonitorPreference::Current;
    }
    let n = s.unicode_len();
    let start: usize = if n > 0 && s.get_char(0) == '+' { 1 } else { 0 };
    let ghost d = unsigned_part(s@);
    proof {
        assert(d =~= s@.subrange(start as int, n as int));
    }
    if start >= n {
        return MonitorPreference::Current;
    }
    let mut acc: usize = 0;
    let mut i: usize = start;
    while i < n
        invariant
            n == s@.len(),
            s@ != "primary"@,
            s@ != "current"@,
            d == unsigned_part(s@),
            d == s@.subrange(start as int, n as int),
            start <= i <= n,
            forall|k: int| 0 <= k < i - start ==> is_digit(d[k]),
            acc == saturate(digits_value(d.subrange(0, i - start))),
        decreases n - i,
    {
        let c = s.get_char(i);
        if !(c >= '0' && c <= '9') {
            proof {
                assert(d[i - start] == c);
                assert(!is_digit(d[i - start]));
            }
            return MonitorPreference::Current;
        }
        let digit = (c as u32 - '0' as u32) as usize;
        let ghost prefix = d.subrange(0, i - start);
        let ghost next = d.subrange(0, i + 1 - start);
        proof {
            assert(next.drop_last() =~= prefix);
            assert(next.last() == c);
        }
        acc = match acc.checked_mul(10) {
            Some(t) => match t.checked_add(digit) {
                Some(u) => u,
                None => usize::MAX,
            },
            None => usize::MAX,
        };
        proof {
            let v = digits_value(prefix);
            assert(digits_value(next) == v * 10 + digit);
            if v > usize::MAX {
                assert(v * 10 + digit > usize::MAX) by (nonlinear_arith)
                    requires v > usize::MAX, digit >= 0;
            }
        }
        i += 1;
    }
    proof {
        assert(d.subrange(0, n - start) =~= d);
    }
    MonitorPreference::Index(acc)
}

/// Whether `ms[i]` is the first monitor whose origin is `o`.
pub open spec fn is_first_at_origin(ms: Seq<MonitorInfo>, o: (i32, i32), i: int) -> bool {
    &&& 0 <= i < ms.len()
    &&& ms[i].has_origin(o.0 as int, o.1 as int)
    &&& forall|j: int| 0 <= j < i ==> !ms[j].has_origin(o.0 as int, o.1 as int)
}

/// Index the preference designates in `ms`, if any. `current` is the first
/// monitor at the same origin as the monitor the host reports the panel on.
pub open spec fn preferred_index(pref: MonitorPreference, ms: Seq<MonitorInfo>, current: Option<(i32, i32)>) -> Option<int> {
    match pref {
        MonitorPreference::Primary => if ms.len() > 0 {
            Some(0)
        } else {
            None
        },
        MonitorPreference::Index(i) => if i < ms.len() {
            Some(i as int)
        } else {
            None
        },
        MonitorPreference::Current => match current {
            Some(o) => if exists|i: int| is_first_at_origin(ms, o, i) {
                Some(choose|i: int| is_first_at_origin(ms, o, i))
            } else {
                None
            },
            None => None,
        },
    }
}

/// The monitor to place on: the designated one, else monitor 0, else the
/// fallback monitor.
pub open spec fn resolve_spec(pref: MonitorPreference, ms: Seq<MonitorInfo>, current: Option<(i32, i32)>) -> MonitorInfo {
    match preferred_index(pref, ms, current) {
        Some(i) => ms[i],
        None => if ms.len() > 0 {
            ms[0]
        } else {
            fallback_monitor_spec()
        },
    }
}

/// Finds the first monitor whose origin is `o`.
fn find_at_origin(monitors: &Vec<MonitorInfo>, o: (i32, i32)) -> (r: Option<usize>)
    ensures
        r matches Some(i) ==> is_first_at_origin(monitors@, o, i as int),
        r is None ==> !exists|i: int| is_first_at_origin(monitors@, o, i),
{
    let mut i: usize = 0;
    while i < monitors.len()
        invariant
            0 <= i <= monitors@.len(),
            forall|j: int| 0 <= j < i ==> !monitors@[j].has_origin(o.0 as int, o.1 as int),
        decreases monitors@.len() - i,
    {
        if monitors[i].x == o.0 && monitors[i].y == o.1 {
            return Some(i);
        }
        i += 1;
    }
    None
}

/// Picks the monitor to place the main panel on. `current_origin` is the
/// origin of the monitor the host reports the panel on, when it knows.
pub fn resolve_monitor(pref: MonitorPreference, monitors: &Vec<MonitorInfo>, current_origin: Option<(i32, i32)>) -> (r: MonitorInfo)
    ensures
        r == resolve_spec(pref, monitors@, current_origin),
{
    let chosen: Option<usize> = match pref {
        MonitorPreference::Primary => if monitors.len() > 0 {
            Some(0)
        } else {
            None
        },
        MonitorPreference::Index(i) => if i < monitors.len() {
            Some(i)
        } else {
            None
        },
        MonitorPreference::Current => match current_origin {
            Some(o) => {
                let found = find_at_origin(monitors, o);
                proof {
                    if let Some(i) = found {
                        let k = choose|k: int| is_first_at_origin(monitors@, o, k);
                        assert(k == i) by {
                            if k < i {
                                assert(!monitors@[k].has_origin(o.0 as int, o.1 as int));
                            }
                            if k > i {
                                assert(!monitors@[i as int].has_origin(o.0 as int, o.1 as int));
                            }
                        }
                    }
                }
                found
            },
            None => None,
        },
    };
    match chosen {
        Some(i) => monitors[i],
        None => if monitors.len() > 0 {
            monitors[0]
        } else {
            fallback_monitor()
        },
    }
}

} // verus!
