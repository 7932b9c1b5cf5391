//! Monitor geometry and where a bar is placed on its monitor.
use crate::HITOKAGE_STATUSBAR_HEIGHT;
use vstd::prelude::*;

verus! {

/// A rectangle of the desktop: its top-left corner and its size, in pixels.
#[derive(Debug, Clone, Copy, PartialEq, Eq, Structural)]
pub struct MonitorGeometry {
    pub x: i32,
    pub y: i32,
    pub width: i32,
    pub height: i32,
}

/// The edge of the monitor a bar sits on.
#[derive(Debug, Clone, Copy, PartialEq, Eq, Structural)]
pub enum BarPosition {
    Top,
    Bottom,
}

/// How far a bar is moved from where it would otherwise sit.
#[derive(Debug, Clone, Copy, PartialEq, Eq, Structural)]
pub struct BarOffset {
    pub x: Option<i32>,
    pub y: Option<i32>,
}

/// Where a bar sits: its edge, its rectangle, and the offsets that moved it there.
#[derive(Debug, Clone, Copy, PartialEq, Eq, Structural)]
pub struct BarLayout {
    pub position: BarPosition,
    pub geometry: MonitorGeometry,
    pub offset_x: i32,
    pub offset_y: i32,
}

/// The rectangle a bar reserves on the desktop (left, top, right, bottom).
#[derive(Debug, Clone, Copy, PartialEq, Eq, Structural)]
pub struct AppBarRect {
    pub left: i32,
    pub top: i32,
    pub right: i32,
    pub bottom: i32,
}

pub open spec fn fits_i32(v: int) -> bool {
    i32::MIN <= v <= i32::MAX
}

impl MonitorGeometry {
    /// The geometry of a `RECT` given by its edges.
    pub fn from_rect(left: i32, top: i32, right: i32, bottom: i32) -> (g: MonitorGeometry)
        requires
            fits_i32(right - left),
            fits_i32(bottom - top),
        ensures
            g.x == left,
            g.y == top,
            g.width == right - left,
            g.height == bottom - top,
    {
        MonitorGeometry { x: left, y: top, width: right - left, height: bottom - top }
    }

    /// The geometry assumed for a monitor that none was read for: at the origin, with the
    /// primary screen's width taken for both its width and its height.
    pub fn with_primary_width(primary_width: i32) -> (g: MonitorGeometry)
        ensures
            g == (MonitorGeometry { x: 0, y: 0, width: primary_width, height: primary_width }),
    {
        MonitorGeometry { x: 0, y: 0, width: primary_width, height: primary_width }
    }
}

/// The edge a bar sits on when none is configured is the top.
pub open spec fn bar_position(position: Option<BarPosition>) -> BarPosition {
    match position {
        Some(p) => p,
        None => BarPosition::Top,
    }
}

/// The height of a bar: the configured one or the default status bar height.
pub open spec fn bar_height(height: Option<i32>) -> int {
    match height {
        Some(h) => h as int,
        None => HITOKAGE_STATUSBAR_HEIGHT as int,
    }
}

/// The offset along one axis, zero where none is configured.
pub open spec fn offset_of(v: Option<i32>) -> int {
    match v {
        Some(o) => o as int,
        None => 0,
    }
}

pub open spec fn offset_x_of(offset: Option<BarOffset>) -> int {
    match offset {
        Some(o) => offset_of(o.x),
        None => 0,
    }
}

pub open spec fn offset_y_of(offset: Option<BarOffset>) -> int {
    match offset {
        Some(o) => offset_of(o.y),
        None => 0,
    }
}

/// The vertical position of a bar before it is offset: the monitor's top, or for a bar
/// at the bottom the line one bar height above the monitor's bottom.
pub open spec fn bar_base_y(monitor: MonitorGeometry, position: Option<BarPosition>, height: Option<i32>) -> int {
    match bar_position(position) {
        BarPosition::Top => monitor.y as int,
        BarPosition::Bottom => monitor.y + (monitor.height - bar_height(height)),
    }
}

/// The arithmetic of placing a bar stays within `i32`.
pub open spec fn bar_layout_fits(
    monitor: MonitorGeometry,
    position: Option<BarPosition>,
    height: Option<i32>,
    offset: Option<BarOffset>,
) -> bool {
    &&& (bar_position(position) == BarPosition::Bottom) ==> fits_i32(monitor.height - bar_height(height))
    &&& fits_i32(bar_base_y(monitor, position, height))
    &&& fits_i32(bar_base_y(monitor, position, height) + offset_y_of(offset))
    &&& fits_i32(monitor.x + offset_x_of(offset))
}

/// Places a bar on a monitor: it takes the configured width (else the monitor's) and
/// height (else the default status bar height), sits at the top unless placed at the
/// bottom, and is moved by the configured offsets.
pub fn layout_bar(
    monitor: MonitorGeometry,
    position: Option<BarPosition>,
    width: Option<i32>,
    height: Option<i32>,
    offset: Option<BarOffset>,
) -> (layout: BarLayout)
    requires
        bar_layout_fits(monitor, position, height, offset),
    ensures
        layout.position == bar_position(position),
        layout.geometry.width == (match width {
            Some(w) => w,
            None => monitor.width,
        }),
        layout.geometry.height == bar_height(height),
        layout.geometry.x == monitor.x + offset_x_of(offset),
        layout.geometry.y == bar_base_y(monitor, position, height) + offset_y_of(offset),
        layout.offset_x == offset_x_of(offset),
        layout.offset_y == offset_y_of(offset),
        position == Some(BarPosition::Bottom) ==> layout.geometry.y + layout.geometry.height == monitor.y
            + monitor.height + layout.offset_y,
        position != Some(BarPosition::Bottom) ==> layout.geometry.y == monitor.y + layout.offset_y,
{
    let mut geometry = monitor;
    let position = match position {
        Some(p) => p,
        None => BarPosition::Top,
    };
    let mut offset_x: i32 = 0;
    let mut offset_y: i32 = 0;
    geometry.width = match width {
        Some(w) => w,
        None => geometry.width,
    };
    geometry.height = match height {
        Some(h) => h,
        None => HITOKAGE_STATUSBAR_HEIGHT,
    };
    match position {
        BarPosition::Top => {},
        BarPosition::Bottom => {
            geometry.y = geometry.y + (monitor.height - geometry.height);
        },
    }
    if let Some(offset) = offset {
        if let Some(x) = offset.x {
            geometry.x = geometry.x + x;
            offset_x = x;
        }
        if let Some(y) = offset.y {
            geometry.y = geometry.y + y;
            offset_y = y;
        }
    }
    BarLayout { position, geometry, offset_x, offset_y }
}

/// The rectangle a bar reserves: from its corner, as wide as its width plus the
/// horizontal offset and as high as its height plus the vertical offset.
pub fn appbar_rect(geometry: MonitorGeometry, offset_x: i32, offset_y: i32) -> (r: AppBarRect)
    requires
        fits_i32(geometry.width + offset_x),
        fits_i32(geometry.height + offset_y),
        fits_i32(geometry.x + (geometry.width + offset_x)),
        fits_i32(geometry.y + (geometry.height + offset_y)),
    ensures
        r.left == geometry.x,
        r.top == geometry.y,
        r.right == geometry.x + geometry.width + offset_x,
        r.bottom == geometry.y + geometry.height + offset_y,
{
    let height = geometry.height + offset_y;
    let width = geometry.width + offset_x;
    AppBarRect {
        left: geometry.x,
        right: geometry.x + width,
        top: geometry.y,
        bottom: geometry.y + height,
    }
}

/// The major Windows version of a build number: 11 from build 22000, 10 from build
/// 10240, and 0 below that.
pub open spec fn windows_version_of(build: u32) -> u32 {
    if build >= 22000 {
        11
    } else if build >= 10240 {
        10
    } else {
        0
    }
}

/// The major Windows version of a build number.
pub fn windows_version_from_build(build: u32) -> (v: u32)
    ensures
        v == windows_version_of(build),
        build >= 22000 ==> v == 11,
        10240 <= build < 22000 ==> v == 10,
        build < 10240 ==> v == 0,
{
    if build >= 22000 {
        11
    } else if build >= 10240 {
        10
    } else {
        0
    }
}

/// The size a bar window asks for: on Windows 11 and later its geometry is multiplied by
/// the (integer part of the) monitor's scale factor, before that it is taken as it is.
pub fn window_size(geometry: MonitorGeometry, windows_version: u32, scale_x: i32, scale_y: i32) -> (size: (i32, i32))
    requires
        windows_version > 10 ==> fits_i32(geometry.width * scale_x) && fits_i32(geometry.height * scale_y),
    ensures
        windows_version > 10 ==> size.0 == geometry.width * scale_x && size.1 == geometry.height
            * scale_y,
        windows_version <= 10 ==> size.0 == geometry.width && size.1 == geometry.height,
{
    let mut width = geometry.width;
    let mut height = geometry.height;
    if windows_version > 10 {
        width = width * scale_x;
        height = height * scale_y;
    }
    (width, height)
}

/// The window message sent when a window's size changes.
pub const WM_SIZE: u32 = 0x0005;

/// The `WM_SIZE` parameter of a window that was minimized.
pub const SIZE_MINIMIZED: u32 = 1;

/// The edges of the screen an application bar can be docked to.
pub const ABE_TOP: u32 = 1;
pub const ABE_BOTTOM: u32 = 3;

/// The screen edge that a bar at `position` is docked to.
pub fn appbar_edge(position: BarPosition) -> (edge: u32)
    ensures
        edge == (match position {
            BarPosition::Top => ABE_TOP,
            BarPosition::Bottom => ABE_BOTTOM,
        }),
{
    match position {
        BarPosition::Top => ABE_TOP,
        BarPosition::Bottom => ABE_BOTTOM,
    }
}

/// What the bar's window procedure does with a message.
#[derive(Debug, Clone, Copy, PartialEq, Eq, Structural)]
pub enum WindowProcAction {
    /// The bar was minimized: restore it and report the message handled.
    Restore,
    /// Hand the message to the procedure the window had before.
    CallPrevious,
    /// Hand the message to the default procedure.
    CallDefault,
}

/// A bar never stays minimized; every other message goes to the window's previous
/// procedure, or to the default one where it had none.
pub fn window_proc_action(msg: u32, wparam: usize, has_previous: bool) -> (a: WindowProcAction)
    ensures
        (msg == WM_SIZE && wparam as u32 == SIZE_MINIMIZED) ==> a == WindowProcAction::Restore,
        !(msg == WM_SIZE && wparam as u32 == SIZE_MINIMIZED) ==> a == (if has_previous {
            WindowProcAction::CallPrevious
        } else {
            WindowProcAction::CallDefault
        }),
{
    if msg == WM_SIZE && wparam as u32 == SIZE_MINIMIZED {
        WindowProcAction::Restore
    } else if has_previous {
        WindowProcAction::CallPrevious
    } else {
        WindowProcAction::CallDefault
    }
}

/// A bar sits on its monitor's edge: at the top its upper side is the monitor's upper
/// side, at the bottom its lower side is the monitor's lower side (each moved by the
/// vertical offset); it is as high as configured, else the default status bar height.
pub proof fn law_bar_on_monitor_edge(
    monitor: MonitorGeometry,
    position: Option<BarPosition>,
    height: Option<i32>,
    offset: Option<BarOffset>,
)
    ensures
        bar_height(height) == (match height {
            Some(h) => h as int,
            None => 24,
        }),
        position == Some(BarPosition::Bottom) ==> bar_base_y(monitor, position, height) + bar_height(height)
            == monitor.y + monitor.height,
        position != Some(BarPosition::Bottom) ==> bar_base_y(monitor, position, height) == monitor.y,
        offset_y_of(offset) == (match offset {
            Some(o) => match o.y {
                Some(y) => y as int,
                None => 0,
            },
            None => 0,
        }),
        offset_x_of(offset) == (match offset {
            Some(o) => match o.x {
                Some(x) => x as int,
                None => 0,
            },
            None => 0,
        }),
        bar_position(position) == (match position {
            Some(BarPosition::Bottom) => BarPosition::Bottom,
            _ => BarPosition::Top,
        }),
{
}

/// The Windows version grows with the build: every build from 22000 on is Windows 11,
/// from 10240 to 21999 Windows 10, and a later build never gives an earlier version.
pub proof fn law_windows_version(build: u32, later: u32)
    ensures
        build >= 22000 ==> windows_version_of(build) == 11,
        10240 <= build < 22000 ==> windows_version_of(build) == 10,
        build < 10240 ==> windows_version_of(build) == 0,
        build <= later ==> windows_version_of(build) <= windows_version_of(later),
{
}

} // verus!

