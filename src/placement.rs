//! Where the assistant's window appears: centred horizontally in the
//! monitor's work area, a fixed margin below its top edge.
use vstd::prelude::*;

verus! {

/// The gap between the top of the work area and the window, in pixels.
pub const TOP_MARGIN: i32 = 50;

/// The least time between two plain resizes, in milliseconds.
pub const RESIZE_INTERVAL_MS: u64 = 100;

/// The least time between two resizes that also reposition, in milliseconds.
pub const REPOSITION_INTERVAL_MS: u64 = 300;

/// Half of `d`, rounded toward zero as integer division does.
pub open spec fn half_toward_zero(d: int) -> int {
    if d >= 0 {
        d / 2
    } else {
        -((-d) / 2)
    }
}

/// The left edge of a window of width `window_width` centred in a work
/// area that starts at `work_x` and is `work_width` wide.
pub open spec fn centered_left(work_x: int, work_width: int, window_width: int) -> int {
    work_x + half_toward_zero(work_width - window_width)
}

/// The position, as `(x, y)`, of a window of width `window_width` placed at
/// the top centre of the work area whose top-left corner is
/// `(work_x, work_y)` and whose width is `work_width`.
pub fn top_center_position(work_x: i32, work_y: i32, work_width: u32, window_width: u32) -> (r: (
    i32,
    i32,
))
    requires
        i32::MIN <= centered_left(work_x as int, work_width as int, window_width as int)
            <= i32::MAX,
        work_y + TOP_MARGIN <= i32::MAX,
    ensures
        r.0 as int == centered_left(work_x as int, work_width as int, window_width as int),
        r.1 as int == work_y + TOP_MARGIN,
{
    let d: i64 = work_width as i64 - window_width as i64;
    let half: i64 = if d >= 0 {
        d / 2
    } else {
        -((-d) / 2)
    };
    let x = (work_x as i64 + half) as i32;
    (x, work_y + TOP_MARGIN)
}

/// Resizing is refused when the previous resize happened less than
/// `interval_ms` milliseconds ago.
pub fn resize_rate_limited(elapsed_ms: u64, interval_ms: u64) -> (r: bool)
    ensures
        r == (elapsed_ms < interval_ms),
{
    elapsed_ms < interval_ms
}

} // verus!
