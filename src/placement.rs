//! Sizing the overlay window to the display it opens on.
use vstd::prelude::*;
use crate::geom::UNIT;

verus! {

/// Thousandths of a display's scale factor in one whole factor.
pub const SCALE_UNIT: u32 = 1000;

/// A display as the platform reports it: its top-left corner and size in
/// physical pixels, and its scale factor in thousandths.
#[derive(Clone, Copy, Debug, PartialEq, Eq, Structural)]
pub struct MonitorInfo {
    pub x: i32,
    pub y: i32,
    pub width: u32,
    pub height: u32,
    pub scale_milli: u32,
}

/// Where the window goes: the display's corner unchanged, and its size in
/// thousandths of a logical pixel.
#[derive(Clone, Copy, Debug, PartialEq, Eq, Structural)]
pub struct DisplayTarget {
    pub x: i32,
    pub y: i32,
    pub width: i64,
    pub height: i64,
}

/// A physical length in thousandths of a logical pixel: the length divided by
/// the scale factor, rounded down.
pub open spec fn logical_length(physical: int, scale_milli: int) -> int {
    physical * UNIT * SCALE_UNIT / scale_milli
}

/// The window geometry that covers `monitor`.
pub open spec fn target_for(monitor: MonitorInfo) -> DisplayTarget {
    DisplayTarget {
        x: monitor.x,
        y: monitor.y,
        width: logical_length(monitor.width as int, monitor.scale_milli as int) as i64,
        height: logical_length(monitor.height as int, monitor.scale_milli as int) as i64,
    }
}

fn logical_length_of(physical: u32, scale_milli: u32) -> (r: i64)
    requires
        scale_milli > 0,
    ensures
        r == logical_length(physical as int, scale_milli as int),
        r >= 0,
{
    assert(physical * 1_000_000 <= 0xffff_ffff * 1_000_000) by (nonlinear_arith)
        requires physical <= 0xffff_ffff;
    let scaled: u64 = (physical as u64) * 1_000_000;
    assert((scaled as int) / (scale_milli as int) <= scaled) by (nonlinear_arith)
        requires scale_milli >= 1, scaled >= 0;
    (scaled / (scale_milli as u64)) as i64
}

/// The window geometry for the display under the window. No display, or one
/// that reports a zero scale factor, gives none: the window keeps its
/// default geometry.
pub fn display_target(monitor: Option<MonitorInfo>) -> (r: Option<DisplayTarget>)
    ensures
        r == match monitor {
            Some(m) if m.scale_milli > 0 => Some(target_for(m)),
            _ => None,
        },
{
    match monitor {
        Some(m) => {
            if m.scale_milli == 0 {
                None
            } else {
                Some(
                    DisplayTarget {
                        x: m.x,
                        y: m.y,
                        width: logical_length_of(m.width, m.scale_milli),
                        height: logical_length_of(m.height, m.scale_milli),
                    },
                )
            }
        },
        None => None,
    }
}

} // verus!
