use hitokage_core::geometry::{appbar_edge, window_proc_action, WindowProcAction, ABE_BOTTOM, ABE_TOP, SIZE_MINIMIZED, WM_SIZE};
use hitokage_core::geometry::{
    appbar_rect, layout_bar, window_size, windows_version_from_build, BarOffset, BarPosition, MonitorGeometry,
};
use hitokage_core::HITOKAGE_STATUSBAR_HEIGHT;

fn monitor() -> MonitorGeometry {
    MonitorGeometry { x: 1920, y: 0, width: 2560, height: 1440 }
}

#[test]
fn geometry_from_rect_edges() {
    let g = MonitorGeometry::from_rect(10, 20, 110, 70);
    assert_eq!(g, MonitorGeometry { x: 10, y: 20, width: 100, height: 50 });
}

#[test]
fn default_geometry_uses_primary_width_twice() {
    let g = MonitorGeometry::with_primary_width(1920);
    assert_eq!(g, MonitorGeometry { x: 0, y: 0, width: 1920, height: 1920 });
}

#[test]
fn bar_defaults_to_top_with_default_height() {
    let l = layout_bar(monitor(), None, None, None, None);
    assert_eq!(l.position, BarPosition::Top);
    assert_eq!(l.geometry, MonitorGeometry { x: 1920, y: 0, width: 2560, height: HITOKAGE_STATUSBAR_HEIGHT });
    assert_eq!((l.offset_x, l.offset_y), (0, 0));
}

#[test]
fn bar_at_bottom_sits_above_the_edge() {
    let l = layout_bar(monitor(), Some(BarPosition::Bottom), Some(1000), Some(30), None);
    assert_eq!(l.geometry, MonitorGeometry { x: 1920, y: 1410, width: 1000, height: 30 });
}

#[test]
fn bar_offsets_move_it() {
    let l = layout_bar(monitor(), None, None, None, Some(BarOffset { x: Some(5), y: Some(-3) }));
    assert_eq!(l.geometry.x, 1925);
    assert_eq!(l.geometry.y, -3);
    assert_eq!((l.offset_x, l.offset_y), (5, -3));
    let l = layout_bar(monitor(), None, None, None, Some(BarOffset { x: None, y: Some(4) }));
    assert_eq!((l.geometry.x, l.geometry.y, l.offset_x, l.offset_y), (1920, 4, 0, 4));
}

#[test]
fn appbar_rect_adds_offsets() {
    let r = appbar_rect(MonitorGeometry { x: 10, y: 20, width: 100, height: 24 }, 5, 2);
    assert_eq!((r.left, r.top, r.right, r.bottom), (10, 20, 115, 46));
}

#[test]
fn windows_versions_by_build() {
    assert_eq!(windows_version_from_build(22631), 11);
    assert_eq!(windows_version_from_build(22000), 11);
    assert_eq!(windows_version_from_build(19045), 10);
    assert_eq!(windows_version_from_build(10240), 10);
    assert_eq!(windows_version_from_build(9600), 0);
}

#[test]
fn window_size_scales_on_windows_11_only() {
    let g = MonitorGeometry { x: 0, y: 0, width: 100, height: 24 };
    assert_eq!(window_size(g, 11, 2, 3), (200, 72));
    assert_eq!(window_size(g, 10, 2, 3), (100, 24));
}

#[test]
fn minimized_bar_is_restored() {
    assert_eq!(window_proc_action(WM_SIZE, SIZE_MINIMIZED as usize, true), WindowProcAction::Restore);
    assert_eq!(window_proc_action(WM_SIZE, 0, true), WindowProcAction::CallPrevious);
    assert_eq!(window_proc_action(0x0010, 1, false), WindowProcAction::CallDefault);
}

#[test]
fn bars_dock_to_their_edge() {
    assert_eq!(appbar_edge(BarPosition::Top), ABE_TOP);
    assert_eq!(appbar_edge(BarPosition::Bottom), ABE_BOTTOM);
    assert_eq!(ABE_BOTTOM, 3);
}
