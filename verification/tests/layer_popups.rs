use wayland_test_clients::geometry::{BufferShape, Rect};
use wayland_test_clients::keys::{
    BUTTON_LEFT, BUTTON_RIGHT, KEY_D, KEY_E, KEY_ESCAPE, KEY_F, KEY_G, KEY_PAGE_DOWN, KEY_PAGE_UP,
    KEY_Q, KEY_R, KEY_S, KEY_SPACE, KEY_T, KEY_W,
};
use wayland_test_clients::layer_shell_popups::{
    is_placeable, layer_name, paint_parent_popup, paint_tinted, App, Layer, PopupParams, PopupRole,
    PopupState, Request, Setting, Surface, TintedSurface, CHILD_TINT, CONTENT_TINT, LAYER_TINT,
    SHADOW_TINT, SUBSURFACE_TINT,
};
use wayland_test_clients::positioner::{Edge, Positioner};
use wayland_test_clients::seat::{PointerEvent, PointerEventKind};

fn press(x: i32, y: i32, button: u32) -> PointerEvent {
    PointerEvent { own_surface: true, position: (x, y), kind: PointerEventKind::Press { button } }
}

fn word(data: &[u8], i: u32) -> u32 {
    let at = 4 * i as usize;
    u32::from_le_bytes([data[at], data[at + 1], data[at + 2], data[at + 3]])
}

fn geometry() -> Rect {
    Rect { x: 30, y: 30, width: 200, height: 140 }
}

fn child_blur() -> Rect {
    Rect { x: -50, y: -50, width: 220, height: 260 }
}

/// A client with both popups open and configured.
fn with_popups() -> App {
    let mut app = App::new(true);
    app.configure((0, 0));
    app.pointer_frame(&[press(100, 80, BUTTON_LEFT)]);
    app.configure_popup(Some(PopupRole::Parent));
    app.configure_popup(Some(PopupRole::Child));
    app
}

#[test]
fn layers_have_names() {
    assert_eq!(layer_name(Layer::Background), "Background");
    assert_eq!(layer_name(Layer::Bottom), "Bottom");
    assert_eq!(layer_name(Layer::Top), "Top");
    assert_eq!(layer_name(Layer::Overlay), "Overlay");
}

#[test]
fn a_layer_without_a_suggestion_has_its_own_size() {
    let mut app = App::new(true);
    assert_eq!(
        app.configure((0, 0)),
        vec![
            Request::DropBuffer(Surface::Layer),
            Request::SetBlur(Surface::Layer, Rect { x: 0, y: 0, width: 400, height: 300 }),
            Request::Paint(
                TintedSurface::Layer,
                BufferShape { width: 400, height: 300, stride: 1600 }
            ),
            Request::Damage(Surface::Layer, Rect { x: 0, y: 0, width: 400, height: 300 }),
            Request::Attach(Surface::Layer),
            Request::Commit(Surface::Layer),
        ]
    );
    assert_eq!(app.configure((400, 300)), vec![]);
    assert_eq!(app.configure((500, 0)).len(), 6);
    assert_eq!((app.size.width, app.size.height), (500, 300));
}

#[test]
fn a_left_click_opens_the_parent_popup() {
    let mut app = App::new(true);
    app.configure((0, 0));
    assert_eq!(
        app.pointer_frame(&[press(100, 80, BUTTON_LEFT)]),
        vec![
            Request::CreateParentPopup(Positioner::at_point(200, 140, 100, 80, Edge::Top)),
            Request::AssignParentPopup,
            Request::SetParentGeometry(geometry()),
            Request::SetBufferScale(Surface::ParentPopup, 1),
            Request::CreateEffect(Surface::ParentPopup),
            Request::SetBlur(Surface::ParentPopup, geometry()),
            Request::Commit(Surface::ParentPopup),
            Request::AnnounceParentPopup {
                params: PopupParams::new(),
                content_w: 200,
                content_h: 140,
            },
        ]
    );
    assert_eq!(app.parent_popup, Some(PopupState { configured: false }));
    assert_eq!(app.child_popup, None);
}

#[test]
fn the_child_popup_follows_its_parent() {
    let mut app = App::new(true);
    app.configure((0, 0));
    app.pointer_frame(&[press(100, 80, BUTTON_LEFT)]);
    let buffer = Rect { x: 0, y: 0, width: 260, height: 200 };
    assert_eq!(
        app.configure_popup(Some(PopupRole::Parent)),
        vec![
            Request::DropBuffer(Surface::ParentPopup),
            Request::SetParentGeometry(geometry()),
            Request::SetBufferScale(Surface::ParentPopup, 1),
            Request::DropBuffer(Surface::ParentPopup),
            Request::PaintParent(
                BufferShape { width: 260, height: 200, stride: 1040 },
                PopupParams::new()
            ),
            Request::Damage(Surface::ParentPopup, buffer),
            Request::Attach(Surface::ParentPopup),
            Request::Commit(Surface::ParentPopup),
            Request::CreateChildPopup(Positioner::at_point(120, 160, 175, 46, Edge::TopRight)),
            Request::SetBufferScale(Surface::ChildPopup, 1),
            Request::CreateEffect(Surface::ChildPopup),
            Request::SetBlur(Surface::ChildPopup, child_blur()),
            Request::AnnounceChildPopup { scale: 1 },
        ]
    );
    assert_eq!(
        app.configure_popup(Some(PopupRole::Child)),
        vec![
            Request::DropBuffer(Surface::ChildPopup),
            Request::SetBufferScale(Surface::ChildPopup, 1),
            Request::DropBuffer(Surface::ChildPopup),
            Request::Paint(
                TintedSurface::ChildPopup,
                BufferShape { width: 120, height: 160, stride: 480 }
            ),
            Request::Damage(Surface::ChildPopup, Rect { x: 0, y: 0, width: 120, height: 160 }),
            Request::Attach(Surface::ChildPopup),
            Request::Commit(Surface::ChildPopup),
        ]
    );
    assert_eq!(app.configure_popup(None), vec![]);
    // A second configure event of the parent opens no second child.
    assert_eq!(app.configure_popup(Some(PopupRole::Parent)).len(), 8);
}

#[test]
fn closing_takes_the_child_first() {
    let mut app = with_popups();
    assert_eq!(
        app.pointer_frame(&[press(1, 1, BUTTON_LEFT)]),
        vec![
            Request::DestroyEffect(Surface::ChildPopup),
            Request::DestroyPopup(PopupRole::Child),
            Request::DestroyEffect(Surface::ParentPopup),
            Request::DestroyPopup(PopupRole::Parent),
            Request::AnnounceClosed,
        ]
    );
    assert_eq!(app.parent_popup, None);
    assert_eq!(app.child_popup, None);
    // The second click left the position alone.
    assert_eq!(app.click_pos, (100, 80));
}

#[test]
fn dismissing_a_popup() {
    let mut app = with_popups();
    assert_eq!(app.done(None), vec![]);
    assert_eq!(
        app.done(Some(PopupRole::Child)),
        vec![
            Request::DestroyEffect(Surface::ChildPopup),
            Request::DestroyPopup(PopupRole::Child),
        ]
    );
    assert_eq!(app.done(Some(PopupRole::Child)), vec![]);
    assert_eq!(
        app.done(Some(PopupRole::Parent)),
        vec![
            Request::DestroyEffect(Surface::ParentPopup),
            Request::DestroyPopup(PopupRole::Parent),
            Request::AnnounceClosed,
        ]
    );
    let mut app = with_popups();
    assert_eq!(app.done(Some(PopupRole::Parent)).len(), 5);
    assert_eq!(app.done(Some(PopupRole::Parent)), vec![]);
}

#[test]
fn size_keys() {
    let mut params = PopupParams::new();
    assert_eq!(params.press_key(KEY_W), Some(Setting::SurfaceWidth(270)));
    assert_eq!(params.press_key(KEY_S), Some(Setting::SurfaceWidth(260)));
    assert_eq!(params.press_key(KEY_E), Some(Setting::SurfaceHeight(210)));
    assert_eq!(params.press_key(KEY_D), Some(Setting::SurfaceHeight(200)));
    assert_eq!(params.press_key(KEY_SPACE), None);
    for _ in 0..30 {
        params.press_key(KEY_S);
        params.press_key(KEY_D);
    }
    // The shadow and ten pixels of content remain.
    assert_eq!((params.surface_w, params.surface_h), (70, 70));
    params.surface_w = u32::MAX - 3;
    assert_eq!(params.press_key(KEY_W), Some(Setting::SurfaceWidth(u32::MAX)));
}

#[test]
fn inset_keys() {
    let mut params = PopupParams::new();
    assert_eq!(params.press_key(KEY_R), Some(Setting::GeometryInset(35)));
    assert_eq!(params.press_key(KEY_F), Some(Setting::GeometryInset(30)));
    for _ in 0..14 {
        params.press_key(KEY_R);
    }
    // The surface has grown with its shadow.
    assert_eq!(params.inset, 100);
    assert_eq!((params.surface_w, params.surface_h), (260, 210));
    for _ in 0..25 {
        params.press_key(KEY_F);
    }
    assert_eq!(params.inset, 0);
    assert_eq!((params.surface_w, params.surface_h), (260, 210));
}

#[test]
fn scale_keys() {
    let mut params = PopupParams::new();
    assert_eq!(params.press_key(KEY_G), Some(Setting::BufferScale(1)));
    for expected in [2, 3, 4, 4] {
        assert_eq!(params.press_key(KEY_T), Some(Setting::BufferScale(expected)));
    }
    assert_eq!(params.press_key(KEY_G), Some(Setting::BufferScale(3)));
}

#[test]
fn keys_update_open_popups() {
    let mut app = App::new(true);
    assert_eq!(
        app.press_key(KEY_T),
        vec![Request::AnnounceSetting(Setting::BufferScale(2))]
    );
    let mut app = with_popups();
    let requests = app.press_key(KEY_T);
    assert_eq!(requests.len(), 1 + 2 + 7 + 6);
    assert_eq!(requests[1], Request::SetBlur(Surface::ParentPopup, geometry()));
    assert_eq!(requests[2], Request::SetBlur(Surface::ChildPopup, child_blur()));
    assert_eq!(
        requests[6],
        Request::PaintParent(BufferShape { width: 520, height: 400, stride: 2080 }, app.popup)
    );
    assert_eq!(requests[10], Request::SetBufferScale(Surface::ChildPopup, 2));
}

#[test]
fn keys_that_lead_too_far_are_known() {
    let mut app = with_popups();
    assert!(app.is_key_accepted(KEY_W));
    app.popup.surface_w = 0x1FFF_FFF6;
    assert!(!app.is_key_accepted(KEY_W));
    assert!(!app.is_key_accepted(KEY_T));
    assert!(app.is_key_accepted(KEY_Q));
    assert!(app.is_key_accepted(KEY_S));
    app.popup.surface_w = 0x1FFF_FFF5;
    assert!(app.is_key_accepted(KEY_W));
}

#[test]
fn layers_move_up_and_down() {
    let mut app = App::new(true);
    assert_eq!(
        app.press_key(KEY_PAGE_UP),
        vec![
            Request::SetLayer(Layer::Overlay),
            Request::Commit(Surface::Layer),
            Request::AnnounceLayer(Layer::Overlay),
        ]
    );
    assert_eq!(app.press_key(KEY_PAGE_UP), vec![]);
    let mut seen = vec![app.current_layer];
    while !app.press_key(KEY_PAGE_DOWN).is_empty() {
        seen.push(app.current_layer);
    }
    assert_eq!(seen, vec![Layer::Overlay, Layer::Top, Layer::Bottom, Layer::Background]);
    assert_eq!(app.layer_up(), Some(Layer::Bottom));
    assert_eq!(app.layer_down(), None);
}

#[test]
fn a_right_click_toggles_the_subsurface() {
    let mut app = App::new(true);
    app.configure((0, 0));
    let whole = Rect { x: 0, y: 0, width: 200, height: 200 };
    assert_eq!(
        app.pointer_frame(&[press(40, 500, BUTTON_RIGHT)]),
        vec![
            Request::CreateSubsurface,
            Request::SetSubsurfacePosition(-60, 400),
            Request::DesyncSubsurface,
            Request::CreateEffect(Surface::Subsurface),
            Request::SetBlur(Surface::Subsurface, whole),
            Request::Paint(
                TintedSurface::Subsurface,
                BufferShape { width: 200, height: 200, stride: 800 }
            ),
            Request::Damage(Surface::Subsurface, whole),
            Request::Attach(Surface::Subsurface),
            Request::Commit(Surface::Subsurface),
            Request::Commit(Surface::Layer),
            Request::AnnounceSubsurface(-60, 400),
        ]
    );
    assert_eq!(
        app.pointer_frame(&[press(40, 500, BUTTON_RIGHT)]),
        vec![
            Request::DestroyEffect(Surface::Subsurface),
            Request::DestroySubsurface,
            Request::DestroySubsurfaceSurface,
            Request::Commit(Surface::Layer),
            Request::AnnounceSubsurfaceDestroyed,
        ]
    );
    assert!(is_placeable(0, 0));
    assert!(!is_placeable(i32::MIN, 0));
}

#[test]
fn without_effects_there_is_no_blur() {
    let mut app = App::new(false);
    app.configure((0, 0));
    let opened = app.pointer_frame(&[press(100, 80, BUTTON_LEFT)]);
    assert_eq!(opened.len(), 6);
    let set_up = app.configure_popup(Some(PopupRole::Parent));
    assert!(!set_up.iter().any(|r| matches!(r, Request::SetBlur(..) | Request::CreateEffect(_))));
    let closed = app.pointer_frame(&[press(100, 80, BUTTON_LEFT)]);
    assert_eq!(
        closed,
        vec![
            Request::DestroyPopup(PopupRole::Child),
            Request::DestroyPopup(PopupRole::Parent),
            Request::AnnounceClosed,
        ]
    );
}

#[test]
fn the_parent_popup_has_a_shadow() {
    let params = PopupParams { surface_w: 20, surface_h: 18, inset: 4, scale: 2 };
    let width = 40u32;
    let mut canvas = vec![0u8; (width * 36 * 4) as usize];
    paint_parent_popup(&params, &mut canvas);
    let at = |x: u32, y: u32| word(&canvas, y * width + x);
    assert_eq!(at(0, 0), 0x4000_0000);
    assert_eq!(at(7, 8), 0x4000_0000);
    assert_eq!(at(8, 7), 0x4000_0000);
    assert_eq!(at(8, 8), 0x3030_3030);
    assert_eq!(at(31, 27), 0x3030_3030);
    assert_eq!(at(32, 27), 0x4000_0000);
    assert_eq!(at(31, 28), 0x4000_0000);
}

#[test]
fn tints_of_the_surfaces() {
    let mut canvas = [0u8; 4];
    paint_tinted(TintedSurface::Layer, &mut canvas);
    assert_eq!(u32::from_le_bytes(canvas), 0x6060_6060);
    paint_tinted(TintedSurface::ChildPopup, &mut canvas);
    assert_eq!(u32::from_le_bytes(canvas), 0x3018_1230);
    paint_tinted(TintedSurface::Subsurface, &mut canvas);
    assert_eq!(u32::from_le_bytes(canvas), 0x6000_6000);
}

#[test]
fn the_layer_client_quits() {
    let mut app = App::new(true);
    app.press_key(KEY_ESCAPE);
    assert!(app.exit);
    let mut app = App::new(true);
    app.press_key(KEY_Q);
    assert!(app.exit);
    let mut app = App::new(true);
    app.closed();
    assert!(app.exit);
}

#[test]
fn tints_are_premultiplied() {
    for color in [LAYER_TINT, CONTENT_TINT, SHADOW_TINT, CHILD_TINT, SUBSURFACE_TINT] {
        let [blue, green, red, alpha] = u32::to_le_bytes(color);
        assert!(blue <= alpha && green <= alpha && red <= alpha);
    }
}
