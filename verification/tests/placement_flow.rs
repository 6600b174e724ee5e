use window_placement::focus::{on_focus_changed, PlacementMode};
use window_placement::geometry::WindowGeometry;
use window_placement::native::{
    InsertAfter, NativeCall, NativeReply, NativeWindowHandle, SetWindowPosCall,
};
use window_placement::placement::{Placement, Reaction, Startup, WindowEvent};
use window_placement::store::GeometryStore;
use window_placement::tracker::GeometryTracker;

fn window() -> NativeWindowHandle {
    NativeWindowHandle::new(0x1234)
}

fn pin_to_bottom(hwnd: NativeWindowHandle) -> SetWindowPosCall {
    SetWindowPosCall {
        hwnd,
        insert_after: InsertAfter::Bottom,
        x: 0,
        y: 0,
        cx: 0,
        cy: 0,
        flags: 0x0013,
    }
}

fn pin_to_top(hwnd: NativeWindowHandle) -> SetWindowPosCall {
    SetWindowPosCall {
        hwnd,
        insert_after: InsertAfter::Top,
        x: 0,
        y: 0,
        cx: 0,
        cy: 0,
        flags: 0x0013,
    }
}

fn stored(placement: &Placement) -> Option<WindowGeometry> {
    GeometryStore::open(placement.record().map(|b| b.to_vec())).load()
}

#[test]
fn absent_geometry_file_places_the_window_at_the_origin_800_by_600() {
    let (placement, startup) = Placement::start(None, PlacementMode::PinnedBelow, window());
    assert_eq!(startup.geometry, WindowGeometry::new(800, 600, 0, 0));
    assert_eq!(placement.geometry(), WindowGeometry::new(800, 600, 0, 0));
    assert_eq!(placement.record(), None);
}

#[test]
fn stored_record_places_the_window() {
    let file = b"{\"width\":1920,\"height\":1080,\"x\":100,\"y\":50}".to_vec();
    let (placement, startup) = Placement::start(Some(file), PlacementMode::Normal, window());
    assert_eq!(startup.geometry, WindowGeometry::new(1920, 1080, 100, 50));
    assert_eq!((startup.geometry.x, startup.geometry.y), (100, 50));
    assert_eq!((startup.geometry.width, startup.geometry.height), (1920, 1080));
    assert_eq!(placement.geometry(), startup.geometry);
}

#[test]
fn malformed_geometry_file_falls_back_to_the_default() {
    let file = b"{\"width\":1920,".to_vec();
    let (_, startup) = Placement::start(Some(file), PlacementMode::Normal, window());
    assert_eq!(startup.geometry, WindowGeometry::new(800, 600, 0, 0));
}

#[test]
fn resize_at_unchanged_position_stores_the_new_size_with_the_old_position() {
    let file = b"{\"width\":1920,\"height\":1080,\"x\":100,\"y\":50}".to_vec();
    let (mut placement, _) = Placement::start(Some(file), PlacementMode::Normal, window());
    let reaction = placement.on_window_event(
        window(),
        WindowEvent::Resized { width: 640, height: 480 },
    );
    assert_eq!(reaction, Reaction::WriteRecord);
    assert_eq!(stored(&placement), Some(WindowGeometry::new(640, 480, 100, 50)));
    assert_eq!(
        placement.record(),
        Some("{\"width\":640,\"height\":480,\"x\":100,\"y\":50}".as_bytes())
    );
}

#[test]
fn move_keeps_the_size_and_resize_keeps_the_position() {
    let (mut placement, _) = Placement::start(None, PlacementMode::Normal, window());
    assert_eq!(
        placement.on_window_event(window(), WindowEvent::Moved { x: -20, y: 30 }),
        Reaction::WriteRecord
    );
    assert_eq!(stored(&placement), Some(WindowGeometry::new(800, 600, -20, 30)));
    assert_eq!(
        placement.on_window_event(window(), WindowEvent::Resized { width: 1024, height: 768 }),
        Reaction::WriteRecord
    );
    assert_eq!(stored(&placement), Some(WindowGeometry::new(1024, 768, -20, 30)));
    assert_eq!(
        placement.on_window_event(window(), WindowEvent::Moved { x: 5, y: 6 }),
        Reaction::WriteRecord
    );
    assert_eq!(stored(&placement), Some(WindowGeometry::new(1024, 768, 5, 6)));
    assert_eq!(placement.geometry(), WindowGeometry::new(1024, 768, 5, 6));
}

#[test]
fn collapsed_window_does_not_overwrite_the_stored_record() {
    let file = b"{\"width\":1920,\"height\":1080,\"x\":100,\"y\":50}".to_vec();
    let (mut placement, _) = Placement::start(Some(file.clone()), PlacementMode::Normal, window());
    assert_eq!(
        placement.on_window_event(window(), WindowEvent::Resized { width: 0, height: 0 }),
        Reaction::Nothing
    );
    assert_eq!(placement.record(), Some(file.as_slice()));
    assert_eq!(
        placement.on_window_event(window(), WindowEvent::Moved { x: -32000, y: -32000 }),
        Reaction::Nothing
    );
    assert_eq!(placement.record(), Some(file.as_slice()));
    assert_eq!(
        placement.on_window_event(window(), WindowEvent::Resized { width: 1920, height: 1080 }),
        Reaction::WriteRecord
    );
    assert_eq!(stored(&placement), Some(WindowGeometry::new(1920, 1080, -32000, -32000)));
}

#[test]
fn last_notification_before_quiet_is_the_stored_one() {
    let (mut placement, _) = Placement::start(None, PlacementMode::Normal, window());
    let mut w: u32 = 100;
    while w <= 200 {
        placement.on_window_event(window(), WindowEvent::Resized { width: w, height: w + 1 });
        placement.on_window_event(window(), WindowEvent::Moved { x: w as i32, y: -(w as i32) });
        w += 1;
    }
    assert_eq!(stored(&placement), Some(WindowGeometry::new(200, 201, 200, -200)));
}

#[test]
fn focus_loss_in_pinned_below_mode_pins_once_to_the_bottom() {
    let call = on_focus_changed(PlacementMode::PinnedBelow, window(), false);
    assert_eq!(call, Some(pin_to_bottom(window())));
    let (mut placement, _) = Placement::start(None, PlacementMode::PinnedBelow, window());
    let reaction = placement.on_window_event(window(), WindowEvent::Focused(false));
    assert_eq!(reaction, Reaction::Call(pin_to_bottom(window())));
    assert_eq!(placement.record(), None);
    assert_eq!(placement.geometry(), WindowGeometry::new(800, 600, 0, 0));
}

#[test]
fn focus_gain_and_other_modes_pin_nothing() {
    assert_eq!(on_focus_changed(PlacementMode::PinnedBelow, window(), true), None);
    let others = [PlacementMode::Normal, PlacementMode::PinnedAbove, PlacementMode::WallpaperLayer];
    for mode in others.iter() {
        assert_eq!(on_focus_changed(*mode, window(), false), None);
        assert_eq!(on_focus_changed(*mode, window(), true), None);
        let (mut placement, _) = Placement::start(None, *mode, window());
        assert_eq!(
            placement.on_window_event(window(), WindowEvent::Focused(false)),
            Reaction::Nothing
        );
        assert_eq!(
            placement.on_window_event(window(), WindowEvent::Focused(true)),
            Reaction::Nothing
        );
    }
}

#[test]
fn focus_guard_pins_the_window_of_the_notification() {
    let (mut placement, _) = Placement::start(None, PlacementMode::PinnedBelow, window());
    let other = NativeWindowHandle::new(99);
    assert_eq!(
        placement.on_window_event(other, WindowEvent::Focused(false)),
        Reaction::Call(pin_to_bottom(other))
    );
}

#[test]
fn other_notifications_do_nothing() {
    let (mut placement, _) = Placement::start(None, PlacementMode::PinnedBelow, window());
    assert_eq!(placement.on_window_event(window(), WindowEvent::Other), Reaction::Nothing);
    assert_eq!(placement.record(), None);
}

#[test]
fn startup_call_follows_the_mode() {
    let (p, s) = Placement::start(None, PlacementMode::Normal, window());
    assert_eq!(s, Startup { geometry: WindowGeometry::new(800, 600, 0, 0), call: None });
    assert_eq!(p.mode(), PlacementMode::Normal);
    assert_eq!(p.attachment(), None);

    let (_, s) = Placement::start(None, PlacementMode::PinnedBelow, window());
    assert_eq!(s.call, Some(NativeCall::SetWindowPos(pin_to_bottom(window()))));

    let (_, s) = Placement::start(None, PlacementMode::PinnedAbove, window());
    let mut top = pin_to_bottom(window());
    top.insert_after = InsertAfter::Top;
    assert_eq!(s.call, Some(NativeCall::SetWindowPos(top)));

    let (p, s) = Placement::start(None, PlacementMode::WallpaperLayer, window());
    assert_eq!(s.call, Some(NativeCall::FindShell));
    assert!(p.attachment().is_some());
}

#[test]
fn reply_of_a_pin_is_dropped() {
    let (mut placement, _) = Placement::start(None, PlacementMode::PinnedBelow, window());
    assert_eq!(placement.on_reply(NativeReply::Done), None);
    assert_eq!(placement.on_reply(NativeReply::Failed), None);
    assert_eq!(
        placement.on_window_event(window(), WindowEvent::Focused(false)),
        Reaction::Call(pin_to_bottom(window()))
    );
}

#[test]
fn replies_drive_the_attachment_in_wallpaper_mode() {
    let (mut placement, startup) = Placement::start(None, PlacementMode::WallpaperLayer, window());
    assert_eq!(startup.call, Some(NativeCall::FindShell));
    let shell = NativeWindowHandle::new(10);
    assert_eq!(
        placement.on_reply(NativeReply::Window(shell)),
        Some(NativeCall::SpawnHost { shell, message: 0x052C, timeout_ms: 1000 })
    );
    assert_eq!(placement.on_reply(NativeReply::Failed), None);
    assert_eq!(placement.on_reply(NativeReply::Done), None);
}

#[test]
fn tracker_merges_each_notification_with_the_other_half() {
    let mut tracker = GeometryTracker::new(WindowGeometry::new(800, 600, 1, 2));
    assert_eq!(tracker.last(), WindowGeometry::new(800, 600, 1, 2));
    assert_eq!(tracker.on_resized(640, 480), WindowGeometry::new(640, 480, 1, 2));
    assert_eq!(tracker.on_moved(-7, 9), WindowGeometry::new(640, 480, -7, 9));
    assert_eq!(tracker.on_resized(0, 0), WindowGeometry::new(0, 0, -7, 9));
    assert_eq!(tracker.last(), WindowGeometry::new(0, 0, -7, 9));
}

#[test]
fn pin_above_command_stops_the_focus_guard() {
    let (mut placement, _) = Placement::start(None, PlacementMode::PinnedBelow, window());
    assert_eq!(placement.mode(), PlacementMode::PinnedBelow);
    assert_eq!(placement.pin(window(), true), pin_to_top(window()));
    assert_eq!(placement.mode(), PlacementMode::PinnedAbove);
    assert_eq!(
        placement.on_window_event(window(), WindowEvent::Focused(false)),
        Reaction::Nothing
    );
    assert_eq!(
        placement.on_window_event(window(), WindowEvent::Focused(true)),
        Reaction::Nothing
    );
    assert_eq!(placement.mode(), PlacementMode::PinnedAbove);
}

#[test]
fn pin_below_command_starts_the_focus_guard() {
    let modes = [
        PlacementMode::Normal,
        PlacementMode::PinnedAbove,
        PlacementMode::PinnedBelow,
        PlacementMode::WallpaperLayer,
    ];
    for mode in modes.iter() {
        let (mut placement, _) = Placement::start(None, *mode, window());
        assert_eq!(placement.pin(window(), false), pin_to_bottom(window()));
        assert_eq!(placement.mode(), PlacementMode::PinnedBelow);
        assert_eq!(
            placement.on_window_event(window(), WindowEvent::Focused(false)),
            Reaction::Call(pin_to_bottom(window()))
        );
    }
}

#[test]
fn last_pin_command_decides() {
    let (mut placement, _) = Placement::start(None, PlacementMode::Normal, window());
    placement.pin(window(), false);
    placement.pin(window(), true);
    assert_eq!(
        placement.on_window_event(window(), WindowEvent::Focused(false)),
        Reaction::Nothing
    );
    placement.pin(window(), true);
    placement.pin(window(), false);
    assert_eq!(
        placement.on_window_event(window(), WindowEvent::Focused(false)),
        Reaction::Call(pin_to_bottom(window()))
    );
}

#[test]
fn pin_command_leaves_geometry_record_and_attachment_alone() {
    let file = b"{\"width\":1920,\"height\":1080,\"x\":100,\"y\":50}".to_vec();
    let (mut placement, _) =
        Placement::start(Some(file.clone()), PlacementMode::WallpaperLayer, window());
    let attachment = placement.attachment();
    placement.pin(window(), true);
    assert_eq!(placement.geometry(), WindowGeometry::new(1920, 1080, 100, 50));
    assert_eq!(placement.record(), Some(file.as_slice()));
    assert_eq!(placement.attachment(), attachment);
    placement.pin(window(), false);
    assert_eq!(placement.geometry(), WindowGeometry::new(1920, 1080, 100, 50));
    assert_eq!(placement.record(), Some(file.as_slice()));
    assert_eq!(placement.attachment(), attachment);
}

#[test]
fn pins_of_the_guard_and_of_the_commands_do_not_show_the_window() {
    let (mut placement, startup) = Placement::start(None, PlacementMode::PinnedBelow, window());
    assert_eq!(startup.call, Some(NativeCall::SetWindowPos(pin_to_bottom(window()))));
    assert_eq!(placement.pin(window(), true).flags & 0x0040, 0);
    assert_eq!(placement.pin(window(), false).flags & 0x0040, 0);
    match placement.on_window_event(window(), WindowEvent::Focused(false)) {
        Reaction::Call(call) => assert_eq!(call.flags & 0x0040, 0),
        other => panic!("{:?}", other),
    }
}

#[test]
fn commands_pin_and_set_the_mode() {
    let (mut placement, _) = Placement::start(None, PlacementMode::PinnedBelow, window());
    assert_eq!(placement.set_window_above_icons(window()), pin_to_top(window()));
    assert_eq!(placement.mode(), PlacementMode::PinnedAbove);
    assert_eq!(
        placement.on_window_event(window(), WindowEvent::Focused(false)),
        Reaction::Nothing
    );
    assert_eq!(placement.set_window_below_icons(window()), pin_to_bottom(window()));
    assert_eq!(placement.mode(), PlacementMode::PinnedBelow);
    assert_eq!(
        placement.on_window_event(window(), WindowEvent::Focused(false)),
        Reaction::Call(pin_to_bottom(window()))
    );
}
