//! Resolving the rectangle to capture for a target: a literal rectangle
//! from configuration, the fixed strip at the top-right edge of the
//! monitor, or a default rectangle around the monitor's centre.

use vstd::prelude::*;
use crate::types::{MonitorInfo, Point, RegionChoice};

verus! {

/// Monitor coordinates and sizes are assumed to stay within this bound so
/// that the centre arithmetic cannot leave `i32`.
pub const MONITOR_LIMIT: i32 = 1000000;

/// Monitor descriptors the region arithmetic accepts.
pub open spec fn monitor_in_range(monitor: MonitorInfo) -> bool {
    &&& -MONITOR_LIMIT <= monitor.x <= MONITOR_LIMIT
    &&& -MONITOR_LIMIT <= monitor.y <= MONITOR_LIMIT
    &&& monitor.width <= MONITOR_LIMIT
    &&& monitor.height <= MONITOR_LIMIT
}

/// The default capture rectangle for a target: 400 x 200 pixels around the
/// monitor's centre, the centre shifted down by 50 for the launcher target
/// and up by 100 for the game target.
pub open spec fn default_region(monitor: MonitorInfo, is_5e: bool) -> Point {
    let bias: int = if is_5e {
        -50
    } else {
        100
    };
    let mid_x = monitor.x + monitor.width as int / 2;
    let mid_y = monitor.y - bias + monitor.height as int / 2;
    Point {
        pos1x: (mid_x - 200) as i32,
        pos1y: (mid_y - 100) as i32,
        pos2x: (mid_x + 200) as i32,
        pos2y: (mid_y + 100) as i32,
    }
}

/// The 30 x 16 pixel strip anchored to the top-right corner of the monitor,
/// sampled by the in-lobby check.
pub open spec fn top_right_strip(monitor: MonitorInfo) -> Point {
    Point {
        pos1x: (monitor.width - 30) as i32,
        pos1y: 0,
        pos2x: monitor.width as i32,
        pos2y: 16,
    }
}

/// Computes the default capture rectangle around the monitor's centre.
pub fn determine_point(monitor: MonitorInfo, is_5e: bool) -> (p: Point)
    requires
        monitor_in_range(monitor),
    ensures
        p == default_region(monitor, is_5e),
{
    let x = monitor.x;
    let y = monitor.y - if is_5e {
        -50
    } else {
        100
    };
    let height = monitor.height as i32;
    let width = monitor.width as i32;
    let h: i32 = 100;
    let w: i32 = 200;
    let mid_x = x + width / 2;
    let mid_y = y + height / 2;
    Point::new(mid_x - w, mid_y - h, mid_x + w, mid_y + h)
}

/// Computes the top-right strip sampled by the in-lobby check.
pub fn get_right_upon_side(monitor: MonitorInfo) -> (p: Point)
    requires
        30 <= monitor.width <= MONITOR_LIMIT,
    ensures
        p == top_right_strip(monitor),
{
    Point::new((monitor.width - 30) as i32, 0, monitor.width as i32, 16)
}

/// The rectangle a capture request resolves to, by priority: the literal
/// rectangle from configuration, else the rule attached to the target, else
/// the default rectangle around the monitor's centre.
pub open spec fn resolved_region(choice: RegionChoice, monitor: MonitorInfo, is_5e: bool) -> Point {
    match choice {
        RegionChoice::Literal(p) => p,
        RegionChoice::TopRightStrip => top_right_strip(monitor),
        RegionChoice::Auto => default_region(monitor, is_5e),
    }
}

/// Resolves a capture request to the rectangle to hand the capture
/// provider.
pub fn resolve_region(choice: &RegionChoice, monitor: MonitorInfo, is_5e: bool) -> (p: Point)
    requires
        monitor_in_range(monitor),
        30 <= monitor.width,
    ensures
        p == resolved_region(*choice, monitor, is_5e),
{
    match choice {
        RegionChoice::Literal(p) => *p,
        RegionChoice::TopRightStrip => get_right_upon_side(monitor),
        RegionChoice::Auto => determine_point(monitor, is_5e),
    }
}

} // verus!
