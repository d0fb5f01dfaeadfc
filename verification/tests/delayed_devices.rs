use wayland_test_clients::delayed_get_input_devices::{
    paint_window, App, DeviceSchedule, KeyboardEvent, PadEvent, PointerEvent, Request,
    TabletEvent, TabletPadData, TabletToolData, ToolAction, ToolEvent, TouchAction, TouchEvent, Warning,
    DEVICE_DELAY,
};
use wayland_test_clients::geometry::{BufferShape, Rect};
use wayland_test_clients::seat::Capability;

#[test]
fn devices_come_one_second_after_the_window() {
    let mut app = App::new(false);
    let mut schedule = DeviceSchedule::new();
    app.new_capability(1, Capability::Pointer);
    // The window is not rendered yet.
    assert!(!schedule.arm(&app, 50));
    assert_eq!(schedule.timeout(50), None);
    assert_eq!(
        app.configure((None, None)),
        vec![
            Request::DropBuffer,
            Request::Paint(BufferShape { width: 500, height: 400, stride: 2000 }),
            Request::Damage(Rect { x: 0, y: 0, width: 500, height: 400 }),
            Request::Attach,
            Request::Commit,
        ]
    );
    assert!(app.surface_rendered);
    assert!(schedule.arm(&app, 100));
    assert!(!schedule.arm(&app, 100));
    assert_eq!(schedule.timeout(100), Some(1_000_000_000));
    assert_eq!(schedule.timeout(600), Some(999_999_500));
    assert_eq!(schedule.fire(&mut app, 99 + DEVICE_DELAY), vec![]);
    assert!(!app.pointer);
    assert_eq!(schedule.timeout(101 + DEVICE_DELAY), Some(0));
    assert_eq!(
        schedule.fire(&mut app, 100 + DEVICE_DELAY),
        vec![Request::GetPointer { seat: 1 }]
    );
    assert!(app.pointer);
    assert_eq!(schedule, DeviceSchedule { deadline: None, requested: true });
    // Devices that are announced later are not got any more.
    app.new_capability(1, Capability::Keyboard);
    assert!(!schedule.arm(&app, 300));
    // Where no delay begins, the time does not matter.
    assert!(!schedule.arm(&app, u64::MAX));
}

#[test]
fn a_seat_that_left_during_the_delay_is_awaited_again() {
    let mut app = App::new(false);
    let mut schedule = DeviceSchedule::new();
    app.configure((None, None));
    app.new_capability(1, Capability::Touch);
    assert!(schedule.arm(&app, 0));
    app.remove_seat(1);
    assert_eq!(schedule.fire(&mut app, DEVICE_DELAY), vec![]);
    assert!(!schedule.requested);
    app.new_capability(2, Capability::Touch);
    assert!(schedule.arm(&app, DEVICE_DELAY));
    assert_eq!(
        schedule.fire(&mut app, 2 * DEVICE_DELAY),
        vec![Request::GetTouch { seat: 2 }]
    );
}

#[test]
fn every_device_is_requested() {
    let mut app = App::new(true);
    app.new_seat(1);
    assert!(app.has_input_capability());
    assert_eq!(
        app.new_capability(2, Capability::Pointer),
        vec![Request::AnnounceDelayed(Capability::Pointer)]
    );
    assert_eq!(app.new_capability(1, Capability::Pointer), vec![]);
    app.new_capability(1, Capability::Keyboard);
    app.new_capability(2, Capability::Touch);
    let mut requests = Vec::new();
    assert!(app.request_devices(&mut requests));
    assert_eq!(
        requests,
        vec![
            Request::GetPointer { seat: 2 },
            Request::GetKeyboard { seat: 1 },
            Request::GetTouch { seat: 2 },
            Request::GetTabletSeat { seat: 1 },
        ]
    );
}

#[test]
fn without_a_device_nothing_is_requested() {
    let mut app = App::new(false);
    app.new_seat(1);
    assert!(!app.has_input_capability());
    let mut requests = Vec::new();
    assert!(!app.request_devices(&mut requests));
    assert!(requests.is_empty());
    // With tablets a seat is enough.
    let mut app = App::new(true);
    assert!(!app.has_input_capability());
    app.new_seat(1);
    assert!(app.has_input_capability());
}

#[test]
fn withdrawn_capabilities_release_their_device() {
    let mut app = App::new(false);
    app.new_capability(1, Capability::Pointer);
    assert_eq!(app.remove_capability(2, Capability::Pointer), vec![]);
    assert_eq!(app.remove_capability(1, Capability::Pointer), vec![]);
    assert_eq!(app.pointer_seat, None);
    app.new_capability(1, Capability::Pointer);
    app.new_capability(1, Capability::Keyboard);
    app.new_capability(1, Capability::Touch);
    app.request_devices(&mut Vec::new());
    app.pointer_event(PointerEvent::Enter);
    app.keyboard_event(KeyboardEvent::Enter);
    app.touch_event(TouchEvent::Down { id: 3 });
    assert_eq!(app.remove_capability(1, Capability::Pointer), vec![Request::ReleasePointer]);
    assert_eq!(app.remove_capability(1, Capability::Keyboard), vec![Request::ReleaseKeyboard]);
    assert_eq!(app.remove_capability(1, Capability::Touch), vec![Request::ReleaseTouch]);
    assert!(!app.pointer_entered && !app.keyboard_entered && app.active_touches.is_empty());
}

#[test]
fn a_removed_seat_takes_its_devices_with_it() {
    let mut app = App::new(true);
    app.new_capability(1, Capability::Pointer);
    app.new_capability(2, Capability::Keyboard);
    app.new_capability(1, Capability::Touch);
    app.request_devices(&mut Vec::new());
    assert_eq!(
        app.remove_seat(1),
        vec![Request::DestroyTabletSeat, Request::ReleasePointer, Request::ReleaseTouch]
    );
    assert_eq!((app.seat, app.pointer_seat, app.touch_seat), (None, None, None));
    assert_eq!(app.keyboard_seat, Some(2));
    assert!(app.keyboard);
    assert_eq!(app.remove_seat(1), vec![]);
}

#[test]
fn motion_needs_an_enter() {
    let mut app = App::new(false);
    let warning = app.pointer_event(PointerEvent::Motion).unwrap();
    assert_eq!(warning.message(), "WARNING: received motion without a preceding pointer enter");
    assert_eq!(app.pointer_event(PointerEvent::Enter), None);
    assert_eq!(app.pointer_event(PointerEvent::Motion), None);
    assert_eq!(app.pointer_event(PointerEvent::Leave), None);
    assert_eq!(app.pointer_event(PointerEvent::Other), None);
    assert_eq!(app.pointer_event(PointerEvent::Motion), Some(Warning::MotionWithoutEnter));
}

#[test]
fn keys_need_an_enter() {
    let mut app = App::new(false);
    let warning = app.keyboard_event(KeyboardEvent::Key).unwrap();
    assert_eq!(
        warning.message(),
        "WARNING: received keyboard key without a preceding keyboard enter"
    );
    assert_eq!(app.keyboard_event(KeyboardEvent::Enter), None);
    assert_eq!(app.keyboard_event(KeyboardEvent::Other), None);
    assert_eq!(app.keyboard_event(KeyboardEvent::Key), None);
    assert_eq!(app.keyboard_event(KeyboardEvent::Leave), None);
    assert_eq!(app.keyboard_event(KeyboardEvent::Key), Some(Warning::KeyWithoutEnter));
}

#[test]
fn contacts_come_down_before_they_act() {
    let mut app = App::new(false);
    let act = |action: TouchAction, id: i32| TouchEvent::Action { action, id };
    let message = |app: &mut App, event: TouchEvent| app.touch_event(event).unwrap().message();
    assert_eq!(app.touch_event(TouchEvent::Down { id: 4 }), None);
    assert_eq!(
        message(&mut app, TouchEvent::Down { id: 4 }),
        "WARNING: received duplicate touch down for id 4"
    );
    for action in [TouchAction::Motion, TouchAction::Shape, TouchAction::Orientation] {
        assert_eq!(app.touch_event(act(action, 4)), None);
    }
    assert_eq!(app.touch_event(act(TouchAction::Up, 4)), None);
    assert_eq!(
        message(&mut app, act(TouchAction::Up, 4)),
        "WARNING: received touch up without a preceding down for id 4"
    );
    assert_eq!(
        message(&mut app, act(TouchAction::Motion, -12)),
        "WARNING: received touch motion without a preceding down for id -12"
    );
    assert_eq!(
        message(&mut app, act(TouchAction::Shape, 0)),
        "WARNING: received touch shape without a preceding down for id 0"
    );
    assert_eq!(
        message(&mut app, act(TouchAction::Orientation, 120)),
        "WARNING: received touch orientation without a preceding down for id 120"
    );
    assert_eq!(app.touch_event(TouchEvent::Down { id: 5 }), None);
    assert_eq!(app.touch_event(TouchEvent::Other), None);
    assert_eq!(app.touch_event(TouchEvent::Cancel), None);
    assert_eq!(
        app.touch_event(act(TouchAction::Motion, 5)),
        Some(Warning::TouchWithoutDown { action: TouchAction::Motion, id: 5 })
    );
}

#[test]
fn proper_tool_use_is_silent() {
    let mut tool = TabletToolData::new();
    for event in [
        ToolEvent::ProximityIn,
        ToolEvent::Action(ToolAction::Motion),
        ToolEvent::Action(ToolAction::Down),
        ToolEvent::Action(ToolAction::Pressure),
        ToolEvent::Action(ToolAction::Button),
        ToolEvent::Other,
        ToolEvent::Action(ToolAction::Up),
        ToolEvent::ProximityOut,
        ToolEvent::Removed,
    ] {
        assert_eq!(tool.event(event), vec![]);
    }
    assert_eq!(tool, TabletToolData::new());
}

#[test]
fn several_sessions_and_contacts_are_silent() {
    let mut tool = TabletToolData::new();
    for _ in 0..3 {
        assert_eq!(tool.event(ToolEvent::ProximityIn), vec![]);
        for _ in 0..2 {
            assert_eq!(tool.event(ToolEvent::Action(ToolAction::Down)), vec![]);
            assert_eq!(tool.event(ToolEvent::Other), vec![]);
            assert_eq!(tool.event(ToolEvent::Action(ToolAction::Tilt)), vec![]);
            assert_eq!(tool.event(ToolEvent::Action(ToolAction::Up)), vec![]);
        }
        assert_eq!(tool.event(ToolEvent::ProximityOut), vec![]);
    }
    assert_eq!(tool, TabletToolData::new());
}

#[test]
fn removed_devices_are_destroyed() {
    assert!(ToolEvent::Removed.destroys());
    assert!(!ToolEvent::ProximityIn.destroys());
    assert!(!ToolEvent::ProximityOut.destroys());
    assert!(!ToolEvent::Action(ToolAction::Up).destroys());
    assert!(!ToolEvent::Other.destroys());
    assert!(PadEvent::Removed.destroys());
    assert!(!PadEvent::Enter.destroys());
    assert!(!PadEvent::Leave.destroys());
    assert!(!PadEvent::Button.destroys());
    assert!(!PadEvent::Other.destroys());
    assert!(TabletEvent::Removed.destroys());
    assert!(!TabletEvent::Other.destroys());
}

#[test]
fn tools_act_in_proximity() {
    let names = [
        (ToolAction::Down, "down"),
        (ToolAction::Up, "up"),
        (ToolAction::Motion, "motion"),
        (ToolAction::Pressure, "pressure"),
        (ToolAction::Distance, "distance"),
        (ToolAction::Tilt, "tilt"),
        (ToolAction::Rotation, "rotation"),
        (ToolAction::Slider, "slider"),
        (ToolAction::Wheel, "wheel"),
        (ToolAction::Button, "button"),
    ];
    for (action, name) in names {
        let mut tool = TabletToolData::new();
        let warnings = tool.event(ToolEvent::Action(action));
        assert_eq!(warnings[0], Warning::ToolOutOfProximity(action));
        assert_eq!(
            warnings[0].message(),
            format!("WARNING: received tablet tool {name} without a preceding proximity_in")
        );
    }
}

#[test]
fn tools_out_of_order() {
    let texts = |warnings: Vec<Warning>| -> Vec<String> {
        warnings.iter().map(|warning| warning.message()).collect()
    };
    let mut tool = TabletToolData::new();
    assert_eq!(
        texts(tool.event(ToolEvent::ProximityOut)),
        vec!["WARNING: received tablet tool proximity_out without proximity_in"]
    );
    tool.event(ToolEvent::ProximityIn);
    assert_eq!(
        texts(tool.event(ToolEvent::ProximityIn)),
        vec!["WARNING: received duplicate tablet tool proximity_in"]
    );
    assert_eq!(
        texts(tool.event(ToolEvent::Action(ToolAction::Up))),
        vec!["WARNING: received tablet tool up without a preceding down"]
    );
    tool.event(ToolEvent::Action(ToolAction::Down));
    assert_eq!(
        texts(tool.event(ToolEvent::Action(ToolAction::Down))),
        vec!["WARNING: received duplicate tablet tool down"]
    );
    assert_eq!(
        texts(tool.event(ToolEvent::Removed)),
        vec![
            "WARNING: tablet tool removed without proximity_out",
            "WARNING: tablet tool removed without up",
        ]
    );
    assert_eq!(
        texts(tool.event(ToolEvent::ProximityOut)),
        vec!["WARNING: received tablet tool proximity_out without a preceding up"]
    );
    assert_eq!(tool, TabletToolData::new());
}

#[test]
fn pad_buttons_need_an_enter() {
    let mut pad = TabletPadData::new();
    let warning = pad.event(PadEvent::Button).unwrap();
    assert_eq!(warning.message(), "WARNING: received tablet pad button without a preceding enter");
    assert_eq!(pad.event(PadEvent::Enter), None);
    assert_eq!(pad.event(PadEvent::Button), None);
    assert_eq!(pad.event(PadEvent::Other), None);
    assert_eq!(pad.event(PadEvent::Leave), None);
    assert_eq!(pad.event(PadEvent::Button), Some(Warning::PadButtonWithoutEnter));
    pad.event(PadEvent::Enter);
    assert_eq!(pad.event(PadEvent::Removed), None);
    assert!(!pad.entered);
}

#[test]
fn the_delayed_window_is_painted() {
    let mut canvas = [0u8; 4];
    paint_window(&mut canvas);
    assert_eq!(u32::from_le_bytes(canvas), 0xFF30_70B0);
    let mut app = App::new(false);
    app.configure((None, None));
    assert_eq!(app.configure((None, None)), vec![]);
    app.request_close();
    assert!(app.exit);
}
