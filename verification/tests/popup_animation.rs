use wayland_test_clients::geometry::{BufferShape, Rect};
use wayland_test_clients::keys::{BUTTON_LEFT, KEY_ESCAPE, KEY_Q, KEY_SPACE};
use wayland_test_clients::popup_desync_subsurface_frame_callbacks::{
    paint_popup, paint_subsurface, paint_window, AnimatedSubsurface, App, Notice, PopupState,
    Request, POPUP_H, POPUP_W, SUB_H, SUB_W,
};
use wayland_test_clients::positioner::{Edge, Positioner};
use wayland_test_clients::seat::{PointerEvent, PointerEventKind};

fn word(data: &[u8], i: u32) -> u32 {
    let at = 4 * i as usize;
    u32::from_le_bytes([data[at], data[at + 1], data[at + 2], data[at + 3]])
}

fn sub_shape() -> BufferShape {
    BufferShape { width: 200, height: 120, stride: 800 }
}

fn sub_rect() -> Rect {
    Rect { x: 0, y: 0, width: 200, height: 120 }
}

fn frame_requests(buffer: usize, frame: u32) -> Vec<Request> {
    vec![
        Request::PaintSubsurface { buffer, shape: sub_shape(), frame },
        Request::AttachSubsurface { buffer },
        Request::DamageSubsurface(sub_rect()),
        Request::FrameSubsurface,
        Request::CommitSubsurface,
    ]
}

#[test]
fn the_window_is_a_checkerboard() {
    let width = 80u32;
    let mut canvas = vec![0u8; (width * 40 * 4) as usize];
    paint_window(&mut canvas, width);
    assert_eq!(word(&canvas, 0), 0xFF28_2828);
    assert_eq!(word(&canvas, 31), 0xFF28_2828);
    assert_eq!(word(&canvas, 32), 0xFF38_3838);
    assert_eq!(word(&canvas, 64), 0xFF28_2828);
    assert_eq!(word(&canvas, 32 * width), 0xFF38_3838);
    assert_eq!(word(&canvas, 32 * width + 32), 0xFF28_2828);
}

#[test]
fn the_popup_has_a_hole_behind_the_subsurface() {
    let mut canvas = vec![0u8; (POPUP_W * POPUP_H * 4) as usize];
    paint_popup(&mut canvas);
    let at = |x: u32, y: u32| word(&canvas, y * POPUP_W + x);
    assert_eq!(at(19, 20), 0xFFD0_D0D0);
    assert_eq!(at(20, 19), 0xFFD0_D0D0);
    assert_eq!(at(20, 20), 0xFF10_1010);
    assert_eq!(at(219, 139), 0xFF10_1010);
    assert_eq!(at(220, 139), 0xFFD0_D0D0);
    assert_eq!(at(219, 140), 0xFFD0_D0D0);
}

#[test]
fn the_stripe_moves_and_wraps() {
    let mut canvas = vec![0u8; (SUB_W * SUB_H * 4) as usize];
    paint_subsurface(&mut canvas, 0);
    assert_eq!(word(&canvas, 0), 0xFFFF_B020);
    assert_eq!(word(&canvas, 31), 0xFFFF_B020);
    assert_eq!(word(&canvas, 32), 0xFF30_70D0);
    assert_eq!(word(&canvas, 40), 0xFF20_50A0);
    assert_eq!(word(&canvas, 20 * SUB_W + 40), 0xFF30_70D0);
    paint_subsurface(&mut canvas, 3);
    assert_eq!(word(&canvas, 2), 0xFF20_50A0);
    assert_eq!(word(&canvas, 3), 0xFFFF_B020);
    assert_eq!(word(&canvas, 34), 0xFFFF_B020);
    assert_eq!(word(&canvas, 35), 0xFF30_70D0);
    // At the right edge the stripe comes in again on the left.
    paint_subsurface(&mut canvas, 190);
    assert_eq!(word(&canvas, 190), 0xFFFF_B020);
    assert_eq!(word(&canvas, 21), 0xFFFF_B020);
    assert_eq!(word(&canvas, 22), 0xFF30_70D0);
    paint_subsurface(&mut canvas, 203);
    assert_eq!(word(&canvas, 2), 0xFF20_50A0);
    assert_eq!(word(&canvas, 3), 0xFFFF_B020);
}

#[test]
fn the_window_is_drawn_on_its_first_configure_event() {
    let mut app = App::new();
    assert_eq!(
        app.configure((None, None)),
        vec![
            Request::DropWindowBuffer,
            Request::PaintWindow(BufferShape { width: 400, height: 300, stride: 1600 }),
            Request::DamageWindow(Rect { x: 0, y: 0, width: 400, height: 300 }),
            Request::AttachWindow,
            Request::CommitWindow,
        ]
    );
    assert_eq!(app.configure((None, None)), vec![]);
}

#[test]
fn space_opens_the_popup_in_the_middle() {
    let mut app = App::new();
    let positioner = Positioner::at_point(240, 160, 200, 150, Edge::Bottom);
    assert_eq!(
        app.press_key(KEY_SPACE),
        vec![
            Request::CreatePopup(positioner),
            Request::SetPopupGeometry(Rect { x: 0, y: 0, width: 240, height: 160 }),
            Request::Announce(Notice::Opened),
        ]
    );
    assert_eq!(app.popup, Some(PopupState { subsurface: None }));
    assert_eq!(
        app.press_key(KEY_SPACE),
        vec![Request::Announce(Notice::Closed), Request::DestroyPopup]
    );
    assert_eq!(app.popup, None);
}

#[test]
fn the_popup_is_set_up_once() {
    let mut app = App::new();
    app.press_key(KEY_SPACE);
    assert_eq!(app.popup_configure(false), vec![]);
    let mut expected = vec![
        Request::PaintPopup(BufferShape { width: 240, height: 160, stride: 960 }),
        Request::DamagePopup(Rect { x: 0, y: 0, width: 240, height: 160 }),
        Request::AttachPopup,
        Request::CommitPopup,
        Request::CreateSubsurface,
        Request::SetSubsurfacePosition(20, 20),
        Request::DesyncSubsurface,
    ];
    expected.extend(frame_requests(0, 0));
    expected.push(Request::CommitPopup);
    expected.push(Request::Announce(Notice::Configured));
    assert_eq!(app.popup_configure(true), expected);
    assert_eq!(app.popup_configure(true), vec![]);
}

#[test]
fn frames_alternate_buffers_and_advance() {
    let mut app = App::new();
    assert_eq!(app.frame(true), vec![]);
    app.press_key(KEY_SPACE);
    assert_eq!(app.frame(true), vec![]);
    app.popup_configure(true);
    assert_eq!(app.frame(true), frame_requests(1, 3));
    assert_eq!(app.frame(false), vec![]);
    assert_eq!(app.frame(true), frame_requests(0, 6));
    let advanced = AnimatedSubsurface { current_buffer: 1, frame: 9 };
    assert_eq!(app.popup, Some(PopupState { subsurface: Some(advanced) }));
}

#[test]
fn the_frame_counter_wraps() {
    let mut app = App::new();
    app.popup = Some(PopupState {
        subsurface: Some(AnimatedSubsurface { current_buffer: 0, frame: u32::MAX }),
    });
    assert_eq!(app.frame(true), frame_requests(0, u32::MAX));
    assert_eq!(app.frame(true), frame_requests(1, 2));
}

#[test]
fn closing_destroys_the_subsurface_first() {
    let mut app = App::new();
    app.press_key(KEY_SPACE);
    app.popup_configure(true);
    assert_eq!(app.done(false), vec![]);
    assert_eq!(
        app.done(true),
        vec![
            Request::DestroySubsurface,
            Request::DestroySubsurfaceSurface,
            Request::Announce(Notice::Closed),
            Request::DestroyPopup,
        ]
    );
    assert_eq!(app.done(true), vec![]);
}

#[test]
fn the_popup_follows_the_pointer() {
    let mut app = App::new();
    let motion = PointerEvent {
        own_surface: true,
        position: (30, 40),
        kind: PointerEventKind::Other,
    };
    let elsewhere = PointerEvent { own_surface: false, position: (7, 7), ..motion };
    assert_eq!(app.pointer_frame(&[motion, elsewhere]), vec![]);
    assert_eq!(app.popup_position, (30, 40));
    let click = PointerEvent {
        own_surface: true,
        position: (50, 60),
        kind: PointerEventKind::Press { button: BUTTON_LEFT },
    };
    let requests = app.pointer_frame(&[click]);
    assert_eq!(
        requests[0],
        Request::CreatePopup(Positioner::at_point(240, 160, 50, 60, Edge::Bottom))
    );
}

#[test]
fn the_popup_client_quits() {
    let mut app = App::new();
    app.press_key(KEY_Q);
    assert!(app.exit);
    let mut app = App::new();
    app.press_key(KEY_ESCAPE);
    assert!(app.exit);
    let mut app = App::new();
    app.request_close();
    assert!(app.exit);
}
