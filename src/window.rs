//! Sizes, levels and positions of the panels outside the placement engine
//! proper: the configured window sizes, the cross-desktop behaviour flags,
//! content-driven resizing and recovery positions.
use vstd::prelude::*;
use crate::geometry::{centered_on, clamp, clamp_i64, MonitorInfo, PlacementResult, WindowGeometry};

verus! {

/// Width of the main panel used by the placement strategy.
pub const MAIN_PANEL_WIDTH: u32 = 400;

/// Height of the main panel used by the placement strategy.
pub const MAIN_PANEL_HEIGHT: u32 = 300;

/// Width of the settings panel.
pub const SETTINGS_PANEL_WIDTH: u32 = 400;

/// Height of the settings panel.
pub const SETTINGS_PANEL_HEIGHT: u32 = 600;

/// Width the main panel is given when it is brought back into view.
pub const RECOVERY_PANEL_WIDTH: u32 = 450;

/// Height the main panel is given when it is brought back into view.
pub const RECOVERY_PANEL_HEIGHT: u32 = 220;

/// Window level of the main panel at start-up (pop-up menu level).
pub const POPUP_MENU_WINDOW_LEVEL: i32 = 19;

/// Window level of the main panel once it is brought back into view.
pub const RECOVERY_WINDOW_LEVEL: i32 = 10;

/// Collection-behaviour flag: the window joins every virtual desktop.
pub const CAN_JOIN_ALL_SPACES: i32 = 1;

/// Collection-behaviour flag: the window stays in place across desktops.
pub const STATIONARY: i32 = 16;

/// Padding added around the content when the panel is fitted to it.
pub const CONTENT_PADDING: i64 = 32;

/// Position used when the host cannot report or enumerate anything.
pub const DEFAULT_POSITION: i64 = 100;

/// The collection behaviour for the main panel: on every desktop and
/// stationary, or the plain behaviour of a normal window.
pub fn collection_behavior(show_on_all_spaces: bool) -> (r: i32)
    ensures
        r == (if show_on_all_spaces {
            CAN_JOIN_ALL_SPACES + STATIONARY
        } else {
            0
        }),
{
    if show_on_all_spaces {
        CAN_JOIN_ALL_SPACES + STATIONARY
    } else {
        0
    }
}

/// The panel size for content of the given size: padded, then kept between
/// 300 and 800 wide and between 150 and 400 high.
pub fn content_window_size(content_width: i64, content_height: i64) -> (r: WindowGeometry)
    ensures
        r.width == clamp(content_width + CONTENT_PADDING, 300, 800),
        r.height == clamp(content_height + CONTENT_PADDING, 150, 400),
{
    let w = if content_width > 800 { 800 } else { content_width + CONTENT_PADDING };
    let h = if content_height > 400 { 400 } else { content_height + CONTENT_PADDING };
    WindowGeometry { width: clamp_i64(w, 300, 800) as u32, height: clamp_i64(h, 150, 400) as u32 }
}

/// Where the main panel goes when it is brought back into view: centred on
/// the first monitor; at the default position when enumeration failed
/// (`None`); nowhere when the host enumerated no monitor.
pub fn recovery_position(monitors: Option<&Vec<MonitorInfo>>, window: WindowGeometry) -> (r: Option<PlacementResult>)
    ensures
        monitors is None ==> (r == Some(PlacementResult { x: DEFAULT_POSITION, y: DEFAULT_POSITION })),
        monitors matches Some(ms) ==> {
            &&& ms@.len() == 0 ==> r is None
            &&& ms@.len() > 0 ==> r == Some(
                PlacementResult {
                    x: centered_on(ms@[0], window).0 as i64,
                    y: centered_on(ms@[0], window).1 as i64,
                },
            )
        },
{
    match monitors {
        None => Some(PlacementResult { x: DEFAULT_POSITION, y: DEFAULT_POSITION }),
        Some(ms) => {
            if ms.len() == 0 {
                None
            } else {
                let m = &ms[0];
                let dx = (m.width as i64 - window.width as i64).checked_div_euclid(2).unwrap();
                let dy = (m.height as i64 - window.height as i64).checked_div_euclid(2).unwrap();
                Some(PlacementResult { x: m.x as i64 + dx, y: m.y as i64 + dy })
            }
        },
    }
}

/// The position to remember as the manual one: the panel's current outer
/// position, or the default position when the host cannot report it.
pub fn manual_position_or_default(current: Option<(i32, i32)>) -> (r: PlacementResult)
    ensures
        current matches Some(p) ==> (r == PlacementResult { x: p.0 as i64, y: p.1 as i64 }),
        current is None ==> (r == PlacementResult { x: DEFAULT_POSITION, y: DEFAULT_POSITION }),
{
    match current {
        Some(p) => PlacementResult { x: p.0 as i64, y: p.1 as i64 },
        None => PlacementResult { x: DEFAULT_POSITION, y: DEFAULT_POSITION },
    }
}

} // verus!
