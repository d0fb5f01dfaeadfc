use wayland_test_clients::blur_region_switch_half as blur;
use wayland_test_clients::blur_region_switch_half::BlurHalf;
use wayland_test_clients::geometry::{BufferShape, Rect};
use wayland_test_clients::keys::{BUTTON_LEFT, BUTTON_RIGHT, KEY_ESCAPE, KEY_Q, KEY_SPACE, KEY_W};
use wayland_test_clients::seat::{PointerEvent, PointerEventKind};
use wayland_test_clients::subsurface_no_geometry as sub;

fn press(x: i32, y: i32, button: u32) -> PointerEvent {
    PointerEvent { own_surface: true, position: (x, y), kind: PointerEventKind::Press { button } }
}

#[test]
fn halves_toggle_and_have_names() {
    assert_eq!(BlurHalf::Left.toggle(), BlurHalf::Right);
    assert_eq!(BlurHalf::Right.toggle(), BlurHalf::Left);
    assert_eq!(BlurHalf::Left.label(), "left");
    assert_eq!(BlurHalf::Right.label(), "right");
}

#[test]
fn the_window_starts_with_blur_on_the_left() {
    let mut app = blur::App::new(true);
    let requests = app.configure((None, None));
    assert_eq!(
        requests,
        vec![
            blur::Request::DropBuffer,
            blur::Request::SetBlurRegion(Rect { x: 0, y: 0, width: 200, height: 300 }),
            blur::Request::Paint(BufferShape { width: 400, height: 300, stride: 1600 }),
            blur::Request::Damage(Rect { x: 0, y: 0, width: 400, height: 300 }),
            blur::Request::Attach,
            blur::Request::Commit,
        ]
    );
    assert_eq!(app.configure((Some(400), Some(300))), vec![]);
}

#[test]
fn space_switches_the_half_and_nothing_else() {
    let mut app = blur::App::new(true);
    app.configure((Some(401), Some(10)));
    assert_eq!(
        app.press_key(KEY_SPACE),
        vec![
            blur::Request::Announce(BlurHalf::Right),
            blur::Request::SetBlurRegion(Rect { x: 200, y: 0, width: 201, height: 10 }),
            blur::Request::Commit,
        ]
    );
    assert_eq!(
        app.press_key(KEY_SPACE),
        vec![
            blur::Request::Announce(BlurHalf::Left),
            blur::Request::SetBlurRegion(Rect { x: 0, y: 0, width: 200, height: 10 }),
            blur::Request::Commit,
        ]
    );
}

#[test]
fn without_effects_space_still_commits() {
    let mut app = blur::App::new(false);
    app.configure((None, None));
    assert_eq!(
        app.press_key(KEY_SPACE),
        vec![blur::Request::Announce(BlurHalf::Right), blur::Request::Commit]
    );
}

#[test]
fn quit_keys_end_the_blur_client() {
    let mut app = blur::App::new(true);
    assert_eq!(app.press_key(KEY_W), vec![]);
    assert!(!app.exit);
    assert_eq!(app.press_key(KEY_Q), vec![]);
    assert!(app.exit);
    let mut app = blur::App::new(true);
    app.press_key(KEY_ESCAPE);
    assert!(app.exit);
    let mut app = blur::App::new(true);
    app.request_close();
    assert!(app.exit);
}

#[test]
fn windows_are_tinted() {
    let mut canvas = [0u8; 8];
    blur::paint_window(&mut canvas);
    assert_eq!(canvas, [0x60; 8]);
    sub::paint_window(&mut canvas);
    assert_eq!(canvas, [0x60; 8]);
    sub::paint_subsurface(&mut canvas);
    assert_eq!(canvas, [0x00, 0x60, 0x00, 0x60, 0x00, 0x60, 0x00, 0x60]);
}

#[test]
fn a_click_creates_a_centered_subsurface() {
    let mut app = sub::App::new(true);
    app.configure((None, None));
    let whole = Rect { x: 0, y: 0, width: 200, height: 200 };
    assert_eq!(
        app.pointer_frame(&[press(150, 120, BUTTON_LEFT)]),
        vec![
            sub::Request::CreateSubsurface,
            sub::Request::SetSubsurfacePosition(50, 20),
            sub::Request::DesyncSubsurface,
            sub::Request::AnnounceCreated { x: 50, y: 20, extends_outside: false },
            sub::Request::CreateSubsurfaceEffect,
            sub::Request::SetSubsurfaceBlur(whole),
            sub::Request::PaintSubsurface(BufferShape { width: 200, height: 200, stride: 800 }),
            sub::Request::DamageSubsurface(whole),
            sub::Request::AttachSubsurface,
            sub::Request::CommitSubsurface,
            sub::Request::CommitWindow,
        ]
    );
    assert!(app.subsurface);
    assert_eq!(
        app.pointer_frame(&[press(1, 1, BUTTON_LEFT)]),
        vec![
            sub::Request::DestroySubsurfaceEffect,
            sub::Request::DestroySubsurface,
            sub::Request::DestroySubsurfaceSurface,
            sub::Request::CommitWindow,
            sub::Request::AnnounceDestroyed,
        ]
    );
    assert!(!app.subsurface);
}

#[test]
fn a_subsurface_may_stick_out() {
    let outside = |x: i32, y: i32| {
        let mut app = sub::App::new(false);
        app.configure((None, None));
        let requests = app.pointer_frame(&[press(x, y, BUTTON_LEFT)]);
        matches!(requests[3], sub::Request::AnnounceCreated { extends_outside: true, .. })
    };
    assert!(!outside(100, 100));
    assert!(outside(99, 100));
    assert!(outside(100, 99));
    assert!(!outside(300, 200));
    assert!(outside(301, 200));
    assert!(outside(300, 201));
}

#[test]
fn other_buttons_and_surfaces_do_nothing() {
    let mut app = sub::App::new(true);
    let elsewhere = PointerEvent { own_surface: false, ..press(10, 10, BUTTON_LEFT) };
    let motion = PointerEvent {
        own_surface: true,
        position: (10, 10),
        kind: PointerEventKind::Other,
    };
    assert_eq!(app.pointer_frame(&[elsewhere, motion, press(10, 10, BUTTON_RIGHT)]), vec![]);
    assert!(!app.subsurface);
}

#[test]
fn two_clicks_in_one_frame_cancel() {
    let mut app = sub::App::new(false);
    let requests =
        app.pointer_frame(&[press(150, 120, BUTTON_LEFT), press(150, 120, BUTTON_LEFT)]);
    assert_eq!(requests.first(), Some(&sub::Request::CreateSubsurface));
    assert_eq!(requests.last(), Some(&sub::Request::AnnounceDestroyed));
    assert!(!app.subsurface);
}

#[test]
fn positions_must_fit_the_protocol() {
    assert!(sub::is_placeable(0, 0, 400));
    assert!(sub::is_placeable(i32::MIN + 100, i32::MIN + 100, 400));
    assert!(!sub::is_placeable(i32::MIN + 99, 0, 400));
    assert!(!sub::is_placeable(0, i32::MIN + 99, 400));
    // The right edge is needed only if the position is not negative.
    assert!(sub::is_placeable(i32::MAX - 100, 100, 400));
    assert!(!sub::is_placeable(i32::MAX - 99, 100, 400));
    assert!(sub::is_placeable(i32::MAX, 99, 400));
    // The lower edge is needed only if the right one does not stick out.
    assert!(sub::is_placeable(300, i32::MAX - 100, 400));
    assert!(!sub::is_placeable(300, i32::MAX - 99, 400));
    assert!(sub::is_placeable(301, i32::MAX, 400));
}

#[test]
fn a_click_far_away_creates_a_subsurface() {
    let mut app = sub::App::new(false);
    let requests = app.pointer_frame(&[press(i32::MAX, 0, BUTTON_LEFT)]);
    assert_eq!(
        requests[3],
        sub::Request::AnnounceCreated { x: i32::MAX - 100, y: -100, extends_outside: true }
    );
}

#[test]
fn the_whole_window_is_blurred() {
    let mut app = sub::App::new(true);
    let requests = app.configure((Some(500), None));
    assert_eq!(
        requests[1],
        sub::Request::SetWindowBlur(Rect { x: 0, y: 0, width: 500, height: 300 })
    );
    app.press_key(KEY_SPACE);
    assert!(!app.exit);
    app.press_key(KEY_ESCAPE);
    assert!(app.exit);
}
