//! Size and position of the window when pick mode starts and ends.

use vstd::prelude::*;

verus! {

/// Width of the window outside pick mode.
pub const DEFAULT_WIDTH: u32 = 400;

/// Height of the window outside pick mode.
pub const DEFAULT_HEIGHT: u32 = 600;

/// What the tracking overlay adds to each monitor dimension before halving.
pub const OVERLAY_MARGIN: u32 = 20;

/// Both coordinates of the tracking overlay's origin.
pub const OVERLAY_OFFSET: i32 = -10;

/// Pixel dimensions of the active display.
#[derive(Clone, Copy, Debug, PartialEq, Eq, Structural)]
pub struct MonitorGeometry {
    pub width: u32,
    pub height: u32,
}

/// A window size in pixels.
#[derive(Clone, Copy, Debug, PartialEq, Eq, Structural)]
pub struct Size {
    pub width: u32,
    pub height: u32,
}

/// The position of a window's top-left corner.
#[derive(Clone, Copy, Debug, PartialEq, Eq, Structural)]
pub struct Origin {
    pub x: i32,
    pub y: i32,
}

/// Where a window stands and how large it is.
#[derive(Clone, Copy, Debug, PartialEq, Eq, Structural)]
pub struct Placement {
    pub size: Size,
    pub origin: Origin,
}

/// One dimension of the tracking overlay: half of the monitor dimension plus
/// the margin, in whole pixels.
pub open spec fn overlay_extent(monitor_extent: u32) -> int {
    (monitor_extent + OVERLAY_MARGIN) / 2
}

/// The coordinate that centres a window of extent `window` on a monitor of
/// extent `monitor`: half the monitor less half the window, rounded toward
/// zero.
pub open spec fn centered(monitor: u32, window: u32) -> int {
    if monitor >= window {
        (monitor - window) / 2
    } else {
        -((window - monitor) / 2)
    }
}

/// The overlay placement for a monitor.
pub open spec fn enter_placement(monitor: MonitorGeometry) -> (Size, Origin) {
    (
        Size {
            width: overlay_extent(monitor.width) as u32,
            height: overlay_extent(monitor.height) as u32,
        },
        Origin { x: OVERLAY_OFFSET, y: OVERLAY_OFFSET },
    )
}

/// The default placement for a monitor.
pub open spec fn exit_placement(monitor: MonitorGeometry) -> (Size, Origin) {
    (
        Size { width: DEFAULT_WIDTH, height: DEFAULT_HEIGHT },
        Origin {
            x: centered(monitor.width, DEFAULT_WIDTH) as i32,
            y: centered(monitor.height, DEFAULT_HEIGHT) as i32,
        },
    )
}

/// The placement after pick mode starts: the overlay placement where the
/// monitor is known, the current one where it is not.
pub open spec fn enter_or_keep(current: Placement, monitor: Option<MonitorGeometry>) -> Placement {
    match monitor {
        Some(geometry) => Placement {
            size: enter_placement(geometry).0,
            origin: enter_placement(geometry).1,
        },
        None => current,
    }
}

/// The placement after pick mode ends: the default placement where the
/// monitor is known, the current one where it is not.
pub open spec fn exit_or_keep(current: Placement, monitor: Option<MonitorGeometry>) -> Placement {
    match monitor {
        Some(geometry) => Placement {
            size: exit_placement(geometry).0,
            origin: exit_placement(geometry).1,
        },
        None => current,
    }
}

/// Half of a monitor dimension plus the margin.
fn overlay_side(monitor_extent: u32) -> (side: u32)
    ensures
        side == overlay_extent(monitor_extent),
{
    let widened: u64 = monitor_extent as u64 + OVERLAY_MARGIN as u64;
    (widened / 2) as u32
}

/// The coordinate that centres `window` pixels on `monitor` pixels.
fn center_offset(monitor: u32, window: u32) -> (offset: i32)
    ensures
        offset == centered(monitor, window),
{
    if monitor >= window {
        ((monitor - window) / 2) as i32
    } else {
        -(((window - monitor) / 2) as i32)
    }
}

/// Size and origin of the tracking overlay when pick mode starts: each
/// dimension is half of the monitor's plus the margin, and the origin lies at
/// the overlay offset on both axes, so that the overlay reaches past the
/// screen's top-left edges.
pub fn enter_pick_mode(monitor: MonitorGeometry) -> (out: (Size, Origin))
    ensures
        out == enter_placement(monitor),
        out.0.width == overlay_extent(monitor.width),
        out.0.height == overlay_extent(monitor.height),
        out.1 == (Origin { x: OVERLAY_OFFSET, y: OVERLAY_OFFSET }),
{
    (
        Size { width: overlay_side(monitor.width), height: overlay_side(monitor.height) },
        Origin { x: OVERLAY_OFFSET, y: OVERLAY_OFFSET },
    )
}

/// Size and origin of the window when pick mode ends: the default size,
/// centred on the monitor.
pub fn exit_pick_mode(monitor: MonitorGeometry) -> (out: (Size, Origin))
    ensures
        out == exit_placement(monitor),
        out.0 == (Size { width: DEFAULT_WIDTH, height: DEFAULT_HEIGHT }),
        out.1.x == centered(monitor.width, DEFAULT_WIDTH),
        out.1.y == centered(monitor.height, DEFAULT_HEIGHT),
{
    (
        Size { width: DEFAULT_WIDTH, height: DEFAULT_HEIGHT },
        Origin {
            x: center_offset(monitor.width, DEFAULT_WIDTH),
            y: center_offset(monitor.height, DEFAULT_HEIGHT),
        },
    )
}

/// The placement after pick mode starts. Without a resolvable monitor the
/// window keeps the placement it has.
pub fn place_on_enter(current: Placement, monitor: Option<MonitorGeometry>) -> (out: Placement)
    ensures
        out == enter_or_keep(current, monitor),
{
    match monitor {
        Some(geometry) => {
            let (size, origin) = enter_pick_mode(geometry);
            Placement { size, origin }
        },
        None => current,
    }
}

/// The placement after pick mode ends. Without a resolvable monitor the
/// window keeps the placement it has.
pub fn place_on_exit(current: Placement, monitor: Option<MonitorGeometry>) -> (out: Placement)
    ensures
        out == exit_or_keep(current, monitor),
{
    match monitor {
        Some(geometry) => {
            let (size, origin) = exit_pick_mode(geometry);
            Placement { size, origin }
        },
        None => current,
    }
}

/// Starting or ending pick mode without a resolvable monitor changes nothing,
/// however often it is repeated.
pub proof fn lemma_no_monitor_keeps_placement(current: Placement)
    ensures
        enter_or_keep(current, None) == current,
        exit_or_keep(current, None) == current,
        enter_or_keep(enter_or_keep(current, None), None) == current,
        exit_or_keep(enter_or_keep(current, None), None) == current,
{
}

} // verus!
