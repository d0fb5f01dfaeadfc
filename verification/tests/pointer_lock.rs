use wayland_test_clients::geometry::{BufferShape, Rect};
use wayland_test_clients::keys::{BUTTON_LEFT, BUTTON_RIGHT};
use wayland_test_clients::pointer_lock_position_hint::{
    App, LockNotice, Picture, PointerEvent, PointerEventKind, Position, Request,
};
use wayland_test_clients::seat::Capability;

fn middle() -> Position {
    Position { x: 320 * 256, y: 240 * 256 }
}

fn drawing(app: &App) -> Vec<Request> {
    let mut requests = vec![
        Request::Paint(
            BufferShape {
                width: app.width as i32,
                height: app.height as i32,
                stride: app.width as i32 * 4,
            },
            Picture {
                width: app.width,
                height: app.height,
                dot: app.dot,
                lock_active: app.lock_active,
            },
        ),
        Request::Damage(Rect { x: 0, y: 0, width: app.width as i32, height: app.height as i32 }),
        Request::Attach,
        Request::Frame,
    ];
    if app.locked_pointer {
        requests.push(Request::SetHint(app.dot));
    }
    requests.push(Request::Commit);
    requests
}

fn locked_app() -> App {
    let mut app = App::new();
    app.new_capability(Capability::Pointer);
    app
}

#[test]
fn the_dot_starts_in_the_middle() {
    let app = App::new();
    assert_eq!(app.dot, middle());
    assert!(app.dirty);
}

#[test]
fn the_first_configure_event_draws_the_dot() {
    let mut app = App::new();
    let requests = app.configure((None, None));
    let mut expected = vec![Request::Commit];
    expected.extend(drawing(&app));
    assert_eq!(requests, expected);
    assert!(app.frame_pending && !app.dirty);
    // A frame callback is due, so the next change waits for it.
    assert_eq!(app.configure((None, None)), vec![Request::Commit]);
    assert!(app.dirty);
    assert_eq!(app.frame(), drawing(&app));
    assert_eq!(app.frame(), vec![]);
    assert!(!app.frame_pending);
}

#[test]
fn a_smaller_window_moves_the_dot() {
    let mut app = App::new();
    let requests = app.configure((Some(100), Some(50)));
    assert_eq!(requests[0], Request::DropBuffer);
    assert_eq!(app.dot, Position { x: 99 * 256, y: 49 * 256 });
}

#[test]
fn empty_windows_are_not_drawn() {
    let mut app = App::new();
    assert_eq!(app.configure((Some(0), Some(50))), vec![Request::DropBuffer, Request::Commit]);
    assert_eq!(app.dot.x, 0);
    assert!(app.dirty && !app.frame_pending);
}

#[test]
fn a_pointer_is_locked_at_once() {
    let mut app = App::new();
    assert_eq!(app.new_capability(Capability::Keyboard), vec![]);
    assert_eq!(
        app.new_capability(Capability::Pointer),
        vec![
            Request::GetPointer,
            Request::GetRelativePointer,
            Request::LockPointer,
            Request::SetHint(middle()),
            Request::Commit,
            Request::Announce(LockNotice::Requested),
        ]
    );
    assert_eq!(app.new_capability(Capability::Pointer), vec![]);
    assert_eq!(app.remove_capability(Capability::Touch), vec![]);
    assert_eq!(
        app.remove_capability(Capability::Pointer),
        vec![Request::DestroyLock, Request::DestroyRelativePointer, Request::ReleasePointer]
    );
    assert_eq!(app.remove_capability(Capability::Pointer), vec![]);
}

#[test]
fn relative_motion_sends_a_hint_at_once() {
    let mut app = locked_app();
    app.configure((None, None));
    let requests = app.relative_pointer_motion(256, -128);
    let dot = Position { x: 321 * 256, y: 240 * 256 - 128 };
    assert_eq!(requests, vec![Request::SetHint(dot), Request::Commit]);
    assert_eq!(app.dot, dot);
    // The dot stays inside the window.
    app.relative_pointer_motion(i32::MIN, i32::MAX);
    assert_eq!(app.dot, Position { x: 0, y: 479 * 256 });
}

#[test]
fn events_move_the_dot_and_toggle_the_lock() {
    let mut app = locked_app();
    app.configure((None, None));
    let enter = PointerEvent { kind: PointerEventKind::Enter, x: 2560, y: -5 };
    let motion = PointerEvent { kind: PointerEventKind::Motion, x: 300, y: 200_000 };
    let click = PointerEvent { kind: PointerEventKind::Press { button: BUTTON_LEFT }, x: 0, y: 0 };
    let other = PointerEvent { kind: PointerEventKind::Press { button: BUTTON_RIGHT }, x: 0, y: 0 };
    let rest = PointerEvent { kind: PointerEventKind::Other, x: 0, y: 0 };
    assert_eq!(
        app.pointer_frame(&[enter, rest, other, motion]),
        vec![
            Request::SetHint(Position { x: 2560, y: 0 }),
            Request::Commit,
            Request::SetHint(Position { x: 300, y: 479 * 256 }),
            Request::Commit,
        ]
    );
    assert_eq!(
        app.pointer_frame(&[click]),
        vec![
            Request::DestroyLock,
            Request::Commit,
            Request::Announce(LockNotice::Disabled),
        ]
    );
    assert!(!app.locked_pointer);
    assert_eq!(
        app.pointer_frame(&[click]),
        vec![
            Request::LockPointer,
            Request::SetHint(app.dot),
            Request::Commit,
            Request::Announce(LockNotice::Requested),
        ]
    );
    assert!(app.locked_pointer);
}

#[test]
fn a_click_without_a_pointer_does_nothing() {
    let mut app = App::new();
    let click = PointerEvent { kind: PointerEventKind::Press { button: BUTTON_LEFT }, x: 0, y: 0 };
    assert_eq!(app.pointer_frame(&[click]), vec![]);
    assert_eq!(app, App::new());
}

#[test]
fn the_lock_shows_on_the_border() {
    let mut app = locked_app();
    app.configure((None, None));
    app.frame();
    let requests = app.locked();
    assert!(app.lock_active);
    assert_eq!(requests.last(), Some(&Request::Announce(LockNotice::Activated)));
    let mut expected = vec![Request::SetHint(middle()), Request::Commit];
    expected.extend(drawing(&app));
    expected.push(Request::Announce(LockNotice::Activated));
    assert_eq!(requests, expected);
    let requests = app.unlocked();
    assert!(!app.lock_active);
    assert_eq!(
        requests,
        vec![
            Request::SetHint(middle()),
            Request::Commit,
            Request::Announce(LockNotice::Deactivated),
        ]
    );
}

#[test]
fn colors_of_the_picture() {
    let picture = Picture {
        width: 640,
        height: 480,
        dot: Position { x: 100 * 256, y: 100 * 256 },
        lock_active: false,
    };
    assert_eq!(picture.color(100, 100), 0xFFFF_FFFF);
    assert_eq!(picture.color(108, 100), 0xFFFF_FFFF);
    assert_eq!(picture.color(109, 100), 0xFFE0_3030);
    assert_eq!(picture.color(100, 90), 0xFFE0_3030);
    assert_eq!(picture.color(100, 89), 0xFF18_2438);
    // 6, 8 and 10 make a right triangle.
    assert_eq!(picture.color(106, 108), 0xFFE0_3030);
    assert_eq!(picture.color(107, 108), 0xFF18_2438);
    assert_eq!(picture.color(3, 200), 0xFFD0_9020);
    assert_eq!(picture.color(4, 200), 0xFF18_2438);
    assert_eq!(picture.color(635, 200), 0xFF18_2438);
    assert_eq!(picture.color(636, 200), 0xFFD0_9020);
    assert_eq!(picture.color(200, 476), 0xFFD0_9020);
    let locked = Picture { lock_active: true, ..picture };
    assert_eq!(locked.color(200, 3), 0xFF30_C060);
    // A fraction of a pixel decides at the rim.
    let shifted = Picture { dot: Position { x: 100 * 256 - 1, y: 100 * 256 }, ..picture };
    assert_eq!(shifted.color(108, 100), 0xFFE0_3030);
    assert_eq!(shifted.color(92, 100), 0xFFFF_FFFF);
    assert_eq!(picture.color(usize::MAX, usize::MAX), 0xFFD0_9020);
}

#[test]
fn pictures_agree_with_floating_point() {
    let picture = Picture {
        width: 40,
        height: 30,
        dot: Position { x: 4999, y: 3001 },
        lock_active: true,
    };
    let mut canvas = vec![0u8; 40 * 30 * 4];
    picture.paint(&mut canvas);
    let (dot_x, dot_y) = (4999.0 / 256.0, 3001.0 / 256.0);
    for (i, pixel) in canvas.chunks_exact(4).enumerate() {
        let x = (i % 40) as f64;
        let y = (i / 40) as f64;
        let distance: f64 = (x - dot_x) * (x - dot_x) + (y - dot_y) * (y - dot_y);
        let expected: u32 = if distance <= 64.0 {
            0xFFFF_FFFF
        } else if distance <= 100.0 {
            0xFFE0_3030
        } else if x < 4.0 || y < 4.0 || x >= 36.0 || y >= 26.0 {
            0xFF30_C060
        } else {
            0xFF18_2438
        };
        assert_eq!(u32::from_le_bytes([pixel[0], pixel[1], pixel[2], pixel[3]]), expected);
    }
}

#[test]
fn the_lock_window_can_be_closed() {
    let mut app = App::new();
    app.request_close();
    assert!(app.exit);
}
