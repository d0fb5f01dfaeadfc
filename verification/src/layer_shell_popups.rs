//! A layer surface with popups on left click and a subsurface on right click, all with background
//! blur. Keys change the popups' size, geometry inset and buffer scale, and the layer.

use vstd::prelude::*;

use crate::canvas::{
    column, fill, law_row_and_column_of_index, painted, pixel_at, pixel_count, premultiplied,
    put_pixel, row, same_rest,
};
use crate::geometry::{
    buffer_shape, shape_of, whole, whole_rect, BufferShape, Rect, SurfaceSize,
};
use crate::keys::{
    is_quit_key, quits, BUTTON_LEFT, BUTTON_RIGHT, KEY_D, KEY_E, KEY_F, KEY_G, KEY_PAGE_DOWN,
    KEY_PAGE_UP, KEY_R, KEY_S, KEY_T, KEY_W,
};
use crate::positioner::{placed_at, Edge, Positioner};
use crate::seat::{Devices, PointerEvent};
use crate::steps::{has_steps, once, stands_at};

verus! {

pub const LAYER_W: u32 = 400;

pub const LAYER_H: u32 = 300;

pub const DEFAULT_POPUP_SURFACE_W: u32 = 260;

pub const DEFAULT_POPUP_SURFACE_H: u32 = 200;

pub const DEFAULT_GEOMETRY_INSET: u32 = 30;

pub const CHILD_POPUP_W: u32 = 120;

pub const CHILD_POPUP_H: u32 = 160;

pub const SUB_W: u32 = 200;

pub const SUB_H: u32 = 200;

/// How far the blur region of the child popup reaches beyond each of its sides.
pub const CHILD_BLUR_MARGIN: i32 = 50;

/// The largest buffer scale of the popups.
pub const MAX_SCALE: u32 = 4;

/// Semitransparent white, so that the blur is visible through it.
pub const LAYER_TINT: u32 = 0x6060_6060;

/// The parent popup's content area: a light tint.
pub const CONTENT_TINT: u32 = 0x3030_3030;

/// The parent popup's shadow area: semitransparent black.
pub const SHADOW_TINT: u32 = 0x4000_0000;

/// The child popup: semitransparent purple.
pub const CHILD_TINT: u32 = 0x3018_1230;

/// The subsurface: semitransparent green.
pub const SUBSURFACE_TINT: u32 = 0x6000_6000;

/// The layers that a surface can be on.
#[derive(Clone, Copy, Debug, PartialEq, Eq, Structural)]
pub enum Layer {
    Background,
    Bottom,
    Top,
    Overlay,
}

impl Layer {
    /// The layer's place in the stack, counted from below.
    pub open spec fn height(self) -> int {
        match self {
            Layer::Background => 0,
            Layer::Bottom => 1,
            Layer::Top => 2,
            Layer::Overlay => 3,
        }
    }

    /// The layer at this place in the stack.
    pub open spec fn at(height: int) -> Option<Layer> {
        if height == 0 {
            Some(Layer::Background)
        } else if height == 1 {
            Some(Layer::Bottom)
        } else if height == 2 {
            Some(Layer::Top)
        } else if height == 3 {
            Some(Layer::Overlay)
        } else {
            None
        }
    }
}

/// The name of a layer.
pub fn layer_name(layer: Layer) -> (name: &'static str)
    ensures
        name@ == match layer {
            Layer::Background => "Background"@,
            Layer::Bottom => "Bottom"@,
            Layer::Top => "Top"@,
            Layer::Overlay => "Overlay"@,
        },
{
    match layer {
        Layer::Background => "Background",
        Layer::Bottom => "Bottom",
        Layer::Top => "Top",
        Layer::Overlay => "Overlay",
    }
}

/// The adjustable parameters of the popups.
#[derive(Clone, Copy, Debug, PartialEq, Eq, Structural)]
pub struct PopupParams {
    /// The sides of the parent popup's surface, its shadow included.
    pub surface_w: u32,
    pub surface_h: u32,
    /// How far the geometry is inset from the surface: the width of the shadow.
    pub inset: u32,
    /// The buffer scale of both popups.
    pub scale: u32,
}

/// A side of the geometry: what the shadow leaves of the surface, and at least one pixel.
pub open spec fn content_side(surface: int, inset: int) -> int {
    if surface - inset * 2 >= 1 {
        surface - inset * 2
    } else {
        1
    }
}

/// The sum, and the largest 32-bit value where it would be larger.
pub open spec fn sum_or_max(a: int, b: int) -> int {
    if a + b <= u32::MAX {
        a + b
    } else {
        u32::MAX as int
    }
}

/// The greater of two numbers.
pub open spec fn greater(a: int, b: int) -> int {
    if a >= b {
        a
    } else {
        b
    }
}

impl PopupParams {
    pub open spec fn initial() -> PopupParams {
        PopupParams {
            surface_w: DEFAULT_POPUP_SURFACE_W,
            surface_h: DEFAULT_POPUP_SURFACE_H,
            inset: DEFAULT_GEOMETRY_INSET,
            scale: 1,
        }
    }

    /// The smallest side that leaves room for the shadow and ten pixels of content.
    pub open spec fn least_side(self) -> int {
        self.inset * 2 + 10
    }

    /// The surface has room for its shadow and for some content, and the scale is in its range.
    pub open spec fn wf(self) -> bool {
        &&& self.least_side() <= self.surface_w
        &&& self.least_side() <= self.surface_h
        &&& 1 <= self.scale <= MAX_SCALE
    }

    /// The parent popup's buffer has sides and rows of the protocol's integer type.
    pub open spec fn drawable(self) -> bool {
        &&& self.surface_w * self.scale * 4 <= i32::MAX
        &&& self.surface_h * self.scale <= i32::MAX
    }

    pub open spec fn content_w(self) -> int {
        content_side(self.surface_w as int, self.inset as int)
    }

    pub open spec fn content_h(self) -> int {
        content_side(self.surface_h as int, self.inset as int)
    }

    /// The parent popup's geometry: the content area without the shadow border.
    pub open spec fn geometry(self) -> Rect {
        Rect {
            x: self.inset as i32,
            y: self.inset as i32,
            width: self.content_w() as i32,
            height: self.content_h() as i32,
        }
    }

    /// The color of the parent popup's buffer at `(px, py)`.
    pub open spec fn color_at(self, px: u32, py: u32) -> u32 {
        let sx = px / self.scale;
        let sy = py / self.scale;
        if self.inset <= sx < self.inset + self.content_w() && self.inset <= sy < self.inset
            + self.content_h() {
            CONTENT_TINT
        } else {
            SHADOW_TINT
        }
    }

    /// The parameters after a key press.
    pub open spec fn pressed(self, keysym: u32) -> PopupParams {
        if keysym == KEY_W {
            PopupParams { surface_w: sum_or_max(self.surface_w as int, 10) as u32, ..self }
        } else if keysym == KEY_S {
            PopupParams {
                surface_w: greater(self.surface_w - 10, self.least_side()) as u32,
                ..self
            }
        } else if keysym == KEY_E {
            PopupParams { surface_h: sum_or_max(self.surface_h as int, 10) as u32, ..self }
        } else if keysym == KEY_D {
            PopupParams {
                surface_h: greater(self.surface_h - 10, self.least_side()) as u32,
                ..self
            }
        } else if keysym == KEY_R {
            let wider = self.inset + 5;
            PopupParams {
                surface_w: greater(self.surface_w as int, wider * 2 + 10) as u32,
                surface_h: greater(self.surface_h as int, wider * 2 + 10) as u32,
                inset: wider as u32,
                ..self
            }
        } else if keysym == KEY_F {
            PopupParams { inset: greater(self.inset - 5, 0) as u32, ..self }
        } else if keysym == KEY_T {
            PopupParams {
                scale: if self.scale < MAX_SCALE {
                    (self.scale + 1) as u32
                } else {
                    MAX_SCALE
                },
                ..self
            }
        } else if keysym == KEY_G {
            PopupParams { scale: greater(self.scale - 1, 1) as u32, ..self }
        } else {
            self
        }
    }

    /// The parameter that a key adjusts, as it is after the key press.
    pub open spec fn adjusted(self, keysym: u32) -> Option<Setting> {
        let after = self.pressed(keysym);
        if keysym == KEY_W || keysym == KEY_S {
            Some(Setting::SurfaceWidth(after.surface_w))
        } else if keysym == KEY_E || keysym == KEY_D {
            Some(Setting::SurfaceHeight(after.surface_h))
        } else if keysym == KEY_R || keysym == KEY_F {
            Some(Setting::GeometryInset(after.inset))
        } else if keysym == KEY_T || keysym == KEY_G {
            Some(Setting::BufferScale(after.scale))
        } else {
            None
        }
    }

    /// A wider inset, where the key asks for one, leaves room for a surface around it.
    pub open spec fn can_press(self, keysym: u32) -> bool {
        keysym == KEY_R ==> (self.inset + 5) * 2 + 10 <= u32::MAX
    }

    pub fn new() -> (params: PopupParams)
        ensures
            params == PopupParams::initial(),
            params.wf(),
    {
        PopupParams {
            surface_w: DEFAULT_POPUP_SURFACE_W,
            surface_h: DEFAULT_POPUP_SURFACE_H,
            inset: DEFAULT_GEOMETRY_INSET,
            scale: 1,
        }
    }

    /// The executable form of [`PopupParams::drawable`].
    pub fn is_drawable(&self) -> (fits: bool)
        requires
            self.scale <= MAX_SCALE,
        ensures
            fits == self.drawable(),
    {
        let scale: u64 = self.scale as u64;
        assert(self.surface_w * scale <= 0xFFFF_FFFF * 4 && self.surface_h * scale <= 0xFFFF_FFFF
            * 4) by (nonlinear_arith)
            requires
                self.surface_w <= 0xFFFF_FFFF,
                self.surface_h <= 0xFFFF_FFFF,
                scale <= 4,
        ;
        assert(self.surface_w * scale * 4 == (self.surface_w * scale) * 4);
        self.surface_w as u64 * scale * 4 <= i32::MAX as u64 && self.surface_h as u64 * scale
            <= i32::MAX as u64
    }

    /// The sides of the geometry.
    fn content_sides(&self) -> (sides: (u32, u32))
        requires
            self.wf(),
        ensures
            sides.0 == self.content_w(),
            sides.1 == self.content_h(),
    {
        let shadow: u32 = self.inset * 2;
        let width: u32 = self.surface_w.saturating_sub(shadow);
        let height: u32 = self.surface_h.saturating_sub(shadow);
        (if width > 1 {
            width
        } else {
            1
        }, if height > 1 {
            height
        } else {
            1
        })
    }

    /// The executable form of [`PopupParams::geometry`].
    fn geometry_rect(&self) -> (rect: Rect)
        requires
            self.wf(),
        ensures
            rect == self.geometry(),
    {
        let (width, height) = self.content_sides();
        Rect {
            x: self.inset as i32,
            y: self.inset as i32,
            width: width as i32,
            height: height as i32,
        }
    }

    /// Adjusts the parameter that a key stands for, and says what became of it.
    pub fn press_key(&mut self, keysym: u32) -> (setting: Option<Setting>)
        requires
            old(self).wf(),
            old(self).can_press(keysym),
        ensures
            final(self).wf(),
            *final(self) == old(self).pressed(keysym),
            setting == old(self).adjusted(keysym),
    {
        let least: u32 = self.inset * 2 + 10;
        match keysym {
            KEY_W => {
                self.surface_w = self.surface_w.saturating_add(10);
                Some(Setting::SurfaceWidth(self.surface_w))
            },
            KEY_S => {
                let less: u32 = self.surface_w.saturating_sub(10);
                self.surface_w = if less >= least {
                    less
                } else {
                    least
                };
                Some(Setting::SurfaceWidth(self.surface_w))
            },
            KEY_E => {
                self.surface_h = self.surface_h.saturating_add(10);
                Some(Setting::SurfaceHeight(self.surface_h))
            },
            KEY_D => {
                let less: u32 = self.surface_h.saturating_sub(10);
                self.surface_h = if less >= least {
                    less
                } else {
                    least
                };
                Some(Setting::SurfaceHeight(self.surface_h))
            },
            KEY_R => {
                self.inset = self.inset.saturating_add(5);
                let least: u32 = self.inset * 2 + 10;
                if least > self.surface_w {
                    self.surface_w = least;
                }
                if least > self.surface_h {
                    self.surface_h = least;
                }
                Some(Setting::GeometryInset(self.inset))
            },
            KEY_F => {
                self.inset = self.inset.saturating_sub(5);
                Some(Setting::GeometryInset(self.inset))
            },
            KEY_T => {
                if self.scale < MAX_SCALE {
                    self.scale += 1;
                }
                Some(Setting::BufferScale(self.scale))
            },
            KEY_G => {
                if self.scale > 1 {
                    self.scale -= 1;
                }
                Some(Setting::BufferScale(self.scale))
            },
            _ => None,
        }
    }
}

/// The blur region of the child popup: larger than its surface, to test that it is clipped.
pub open spec fn child_blur() -> Rect {
    Rect {
        x: -CHILD_BLUR_MARGIN as i32,
        y: -CHILD_BLUR_MARGIN as i32,
        width: (CHILD_POPUP_W + CHILD_BLUR_MARGIN * 2) as i32,
        height: (CHILD_POPUP_H + CHILD_BLUR_MARGIN * 2) as i32,
    }
}

/// A parameter and its value.
#[derive(Clone, Copy, Debug, PartialEq, Eq, Structural)]
pub enum Setting {
    SurfaceWidth(u32),
    SurfaceHeight(u32),
    GeometryInset(u32),
    BufferScale(u32),
}

/// The surfaces of the client.
#[derive(Clone, Copy, Debug, PartialEq, Eq, Structural)]
pub enum Surface {
    Layer,
    ParentPopup,
    ChildPopup,
    Subsurface,
}

/// The surfaces that are painted in one color.
#[derive(Clone, Copy, Debug, PartialEq, Eq, Structural)]
pub enum TintedSurface {
    Layer,
    ChildPopup,
    Subsurface,
}

/// The popups.
#[derive(Clone, Copy, Debug, PartialEq, Eq, Structural)]
pub enum PopupRole {
    Parent,
    Child,
}

/// What the client asks of the compositor, and of its buffer pool, in order.
#[derive(Clone, Copy, Debug, PartialEq, Eq, Structural)]
pub enum Request {
    /// Forget the surface's buffer, whose size is out of date.
    DropBuffer(Surface),
    /// Create the surface's background effect.
    CreateEffect(Surface),
    /// Replace the blur region of the surface by one rectangle.
    SetBlur(Surface, Rect),
    DestroyEffect(Surface),
    /// Get a canvas of this shape and paint the surface on it in its color.
    Paint(TintedSurface, BufferShape),
    /// Get a canvas of this shape and paint the parent popup on it.
    PaintParent(BufferShape, PopupParams),
    Damage(Surface, Rect),
    /// Attach the painted buffer.
    Attach(Surface),
    Commit(Surface),
    SetBufferScale(Surface, i32),
    SetLayer(Layer),
    AnnounceLayer(Layer),
    /// Create the parent popup, without a parent of its own kind.
    CreateParentPopup(Positioner),
    /// Make the layer surface the parent popup's parent.
    AssignParentPopup,
    SetParentGeometry(Rect),
    /// Tell the parameters of the parent popup, and the sides of its geometry.
    AnnounceParentPopup { params: PopupParams, content_w: u32, content_h: u32 },
    /// Create the child popup, as a child of the parent popup.
    CreateChildPopup(Positioner),
    AnnounceChildPopup { scale: u32 },
    /// Destroy a popup and its surface.
    DestroyPopup(PopupRole),
    AnnounceClosed,
    AnnounceSetting(Setting),
    CreateSubsurface,
    SetSubsurfacePosition(i32, i32),
    /// Let the subsurface commit independently of the layer surface.
    DesyncSubsurface,
    AnnounceSubsurface(i32, i32),
    /// Destroy the subsurface role object.
    DestroySubsurface,
    /// Destroy the surface that had the role.
    DestroySubsurfaceSurface,
    AnnounceSubsurfaceDestroyed,
}

/// The color of a surface that has only one.
pub open spec fn tint(surface: TintedSurface) -> u32 {
    match surface {
        TintedSurface::Layer => LAYER_TINT,
        TintedSurface::ChildPopup => CHILD_TINT,
        TintedSurface::Subsurface => SUBSURFACE_TINT,
    }
}

/// A surface is painted in its color.
pub open spec fn tint_painted(surface: TintedSurface, before: Seq<u8>, after: Seq<u8>) -> bool {
    painted(before, after, |i: int| tint(surface))
}

/// The parent popup is painted, in rows of its scaled width.
pub open spec fn parent_painted(params: PopupParams, before: Seq<u8>, after: Seq<u8>) -> bool {
    painted(
        before,
        after,
        |i: int|
            params.color_at(
                column(i, (params.surface_w * params.scale) as u32),
                row(i, (params.surface_w * params.scale) as u32),
            ),
    )
}

/// Paints a surface in its color.
pub fn paint_tinted(surface: TintedSurface, canvas: &mut [u8])
    ensures
        tint_painted(surface, old(canvas)@, final(canvas)@),
{
    let color: u32 = match surface {
        TintedSurface::Layer => LAYER_TINT,
        TintedSurface::ChildPopup => CHILD_TINT,
        TintedSurface::Subsurface => SUBSURFACE_TINT,
    };
    fill(canvas, color);
}

/// Paints the parent popup: a shadow outside of the geometry, and the content inside.
pub fn paint_parent_popup(params: &PopupParams, canvas: &mut [u8])
    requires
        params.wf(),
        params.surface_w * params.scale <= u32::MAX,
    ensures
        parent_painted(*params, old(canvas)@, final(canvas)@),
{
    let scale: u32 = params.scale;
    let inset: u32 = params.inset;
    let (content_w, content_h) = params.content_sides();
    let buf_w: u32 = params.surface_w * scale;
    proof {
        assert(buf_w > 0) by (nonlinear_arith)
            requires
                buf_w == params.surface_w * scale,
                params.surface_w > 0,
                scale > 0,
        ;
    }
    let count: usize = canvas.len() / 4;
    let ghost before = canvas@;
    let mut i: usize = 0;
    while i < count
        invariant
            i <= count,
            count == pixel_count(before),
            same_rest(before, canvas@),
            params.wf(),
            scale == params.scale,
            inset == params.inset,
            content_w == params.content_w(),
            content_h == params.content_h(),
            buf_w == params.surface_w * scale,
            buf_w > 0,
            forall|k: int|
                0 <= k < i ==> #[trigger] pixel_at(canvas@, k) == params.color_at(
                    column(k, buf_w),
                    row(k, buf_w),
                ),
        decreases count - i,
    {
        let index: u32 = i as u32;
        let px: u32 = index % buf_w;
        let py: u32 = index / buf_w;
        // Convert buffer coords to surface coords.
        let sx: u32 = px / scale;
        let sy: u32 = py / scale;
        let in_geometry = sx >= inset && sx < inset + content_w && sy >= inset && sy < inset
            + content_h;
        let color: u32 = if in_geometry {
            CONTENT_TINT
        } else {
            SHADOW_TINT
        };
        put_pixel(canvas, i, color);
        i += 1;
    }
}

/// An open popup.
#[derive(Clone, Copy, Debug, PartialEq, Eq, Structural)]
pub struct PopupState {
    /// The compositor has configured the popup, so that it may be drawn.
    pub configured: bool,
}

#[derive(Clone, Copy, Debug, PartialEq, Eq)]
pub struct App {
    pub exit: bool,
    pub size: SurfaceSize,
    /// The compositor offers background effects.
    pub has_effect: bool,
    pub current_layer: Layer,
    pub devices: Devices,
    pub parent_popup: Option<PopupState>,
    pub child_popup: Option<PopupState>,
    pub click_pos: (i32, i32),
    pub popup: PopupParams,
    /// The layer surface has a subsurface.
    pub subsurface: bool,
}

/// What a side of zero means to a layer surface: its own choice.
pub open spec fn side_or_own(suggested: u32, own: u32) -> u32 {
    if suggested > 0 {
        suggested
    } else {
        own
    }
}

/// The requests that depend on there being background effects.
pub open spec fn given(has_effect: bool, requests: Seq<Request>) -> Seq<Request> {
    if has_effect {
        requests
    } else {
        seq![]
    }
}

/// The popup is there, and may be drawn.
pub open spec fn is_configured(popup: Option<PopupState>) -> bool {
    popup matches Some(state) && state.configured
}

/// A subsurface centered at the click has coordinates of the protocol's integer type.
pub open spec fn placeable(click_x: i32, click_y: i32) -> bool {
    &&& i32::MIN <= click_x - SUB_W / 2
    &&& i32::MIN <= click_y - SUB_H / 2
}

/// The executable form of [`placeable`].
pub fn is_placeable(click_x: i32, click_y: i32) -> (fits: bool)
    ensures
        fits == placeable(click_x, click_y),
{
    i32::MIN as i64 <= click_x as i64 - SUB_W as i64 / 2 && i32::MIN as i64 <= click_y as i64
        - SUB_H as i64 / 2
}

impl App {
    /// The client before any event.
    pub open spec fn initial(has_effect: bool) -> App {
        App {
            exit: false,
            size: SurfaceSize::initial(LAYER_W, LAYER_H),
            has_effect,
            current_layer: Layer::Top,
            devices: Devices::none(),
            parent_popup: None,
            child_popup: None,
            click_pos: (0, 0),
            popup: PopupParams::initial(),
            subsurface: false,
        }
    }

    /// The layer surface can be drawn, the popups' parameters are in order, and a child popup has a
    /// parent.
    pub open spec fn wf(self) -> bool {
        &&& self.size.is_drawable()
        &&& self.popup.wf()
        &&& self.child_popup is Some ==> self.parent_popup is Some
    }

    pub open spec fn draw_layer_requests(self) -> Seq<Request> {
        let width = self.size.width;
        let height = self.size.height;
        seq![
            Request::Paint(TintedSurface::Layer, shape_of(width, height)),
            Request::Damage(Surface::Layer, whole(width, height)),
            Request::Attach(Surface::Layer),
            Request::Commit(Surface::Layer),
        ]
    }

    pub open spec fn layer_blur_requests(self) -> Seq<Request> {
        given(
            self.has_effect,
            seq![Request::SetBlur(Surface::Layer, whole(self.size.width, self.size.height))],
        )
    }

    /// The client with the size that a configure event leads to.
    pub open spec fn configured(self, new_size: (u32, u32)) -> App {
        App {
            size: SurfaceSize::settled(
                side_or_own(new_size.0, LAYER_W),
                side_or_own(new_size.1, LAYER_H),
            ),
            ..self
        }
    }

    pub open spec fn configure_requests(self, new_size: (u32, u32)) -> Seq<Request> {
        let settled = self.configured(new_size);
        if self.size.calls_for_redraw(settled.size.width, settled.size.height) {
            seq![Request::DropBuffer(Surface::Layer)] + settled.layer_blur_requests()
                + settled.draw_layer_requests()
        } else {
            seq![]
        }
    }

    /// What opens the parent popup above the click position.
    pub open spec fn open_parent_requests(self) -> Seq<Request> {
        let geometry = self.popup.geometry();
        seq![
            Request::CreateParentPopup(
                placed_at(
                    geometry.width,
                    geometry.height,
                    self.click_pos.0,
                    self.click_pos.1,
                    Edge::Top,
                ),
            ),
            Request::AssignParentPopup,
            Request::SetParentGeometry(geometry),
            Request::SetBufferScale(Surface::ParentPopup, self.popup.scale as i32),
        ] + given(
            self.has_effect,
            seq![
                Request::CreateEffect(Surface::ParentPopup),
                Request::SetBlur(Surface::ParentPopup, geometry),
            ],
        ) + seq![
            Request::Commit(Surface::ParentPopup),
            Request::AnnounceParentPopup {
                params: self.popup,
                content_w: self.popup.content_w() as u32,
                content_h: self.popup.content_h() as u32,
            },
        ]
    }

    pub open spec fn open_popups_requests(self) -> Seq<Request> {
        if self.parent_popup is Some {
            seq![]
        } else {
            self.open_parent_requests()
        }
    }

    pub open spec fn parent_opened(self) -> App {
        if self.parent_popup is Some {
            self
        } else {
            App { parent_popup: Some(PopupState { configured: false }), ..self }
        }
    }

    /// What opens the child popup at the right side of the parent.
    pub open spec fn open_child_requests(self) -> Seq<Request> {
        if self.child_popup is Some || self.parent_popup is None {
            seq![]
        } else {
            let overlap = self.popup.inset as int / 2 + 10;
            seq![
                Request::CreateChildPopup(
                    placed_at(
                        CHILD_POPUP_W as i32,
                        CHILD_POPUP_H as i32,
                        (self.popup.content_w() - overlap) as i32,
                        (self.popup.content_h() / 3) as i32,
                        Edge::TopRight,
                    ),
                ),
                Request::SetBufferScale(Surface::ChildPopup, self.popup.scale as i32),
            ] + given(
                self.has_effect,
                seq![
                    Request::CreateEffect(Surface::ChildPopup),
                    Request::SetBlur(Surface::ChildPopup, child_blur()),
                ],
            ) + seq![Request::AnnounceChildPopup { scale: self.popup.scale }]
        }
    }

    pub open spec fn child_opened(self) -> App {
        if self.child_popup is Some || self.parent_popup is None {
            self
        } else {
            App { child_popup: Some(PopupState { configured: false }), ..self }
        }
    }

    pub open spec fn close_child_requests(self) -> Seq<Request> {
        if self.child_popup is Some {
            given(self.has_effect, seq![Request::DestroyEffect(Surface::ChildPopup)]) + seq![
                Request::DestroyPopup(PopupRole::Child),
            ]
        } else {
            seq![]
        }
    }

    pub open spec fn close_parent_requests(self) -> Seq<Request> {
        if self.parent_popup is Some {
            given(self.has_effect, seq![Request::DestroyEffect(Surface::ParentPopup)]) + seq![
                Request::DestroyPopup(PopupRole::Parent),
            ]
        } else {
            seq![]
        }
    }

    pub open spec fn close_requests(self) -> Seq<Request> {
        self.close_child_requests() + self.close_parent_requests() + seq![Request::AnnounceClosed]
    }

    pub open spec fn closed_popups(self) -> App {
        App { parent_popup: None, child_popup: None, ..self }
    }

    pub open spec fn draw_parent_requests(self) -> Seq<Request> {
        if is_configured(self.parent_popup) {
            let buf_w = (self.popup.surface_w * self.popup.scale) as u32;
            let buf_h = (self.popup.surface_h * self.popup.scale) as u32;
            seq![
                Request::SetParentGeometry(self.popup.geometry()),
                Request::SetBufferScale(Surface::ParentPopup, self.popup.scale as i32),
                Request::DropBuffer(Surface::ParentPopup),
                Request::PaintParent(shape_of(buf_w, buf_h), self.popup),
                Request::Damage(Surface::ParentPopup, whole(buf_w, buf_h)),
                Request::Attach(Surface::ParentPopup),
                Request::Commit(Surface::ParentPopup),
            ]
        } else {
            seq![]
        }
    }

    pub open spec fn draw_child_requests(self) -> Seq<Request> {
        if is_configured(self.child_popup) {
            let buf_w = (CHILD_POPUP_W * self.popup.scale) as u32;
            let buf_h = (CHILD_POPUP_H * self.popup.scale) as u32;
            seq![
                Request::SetBufferScale(Surface::ChildPopup, self.popup.scale as i32),
                Request::DropBuffer(Surface::ChildPopup),
                Request::Paint(TintedSurface::ChildPopup, shape_of(buf_w, buf_h)),
                Request::Damage(Surface::ChildPopup, whole(buf_w, buf_h)),
                Request::Attach(Surface::ChildPopup),
                Request::Commit(Surface::ChildPopup),
            ]
        } else {
            seq![]
        }
    }

    /// What brings open popups up to date with the parameters.
    pub open spec fn update_requests(self) -> Seq<Request> {
        if self.parent_popup is None {
            seq![]
        } else {
            given(
                self.has_effect,
                seq![Request::SetBlur(Surface::ParentPopup, self.popup.geometry())],
            ) + given(
                self.has_effect && self.child_popup is Some,
                seq![Request::SetBlur(Surface::ChildPopup, child_blur())],
            ) + self.draw_parent_requests() + self.draw_child_requests()
        }
    }

    /// The parent popup, if it may be drawn, has a buffer that can be drawn.
    pub open spec fn popups_drawable(self) -> bool {
        is_configured(self.parent_popup) ==> self.popup.drawable()
    }

    /// The client after a popup was configured.
    pub open spec fn popup_configured(self, popup: Option<PopupRole>) -> App {
        match popup {
            Some(PopupRole::Parent) if self.parent_popup is Some => App {
                parent_popup: Some(PopupState { configured: true }),
                ..self
            }.child_opened(),
            Some(PopupRole::Child) if self.child_popup is Some => App {
                child_popup: Some(PopupState { configured: true }),
                ..self
            },
            _ => self,
        }
    }

    pub open spec fn popup_configure_requests(self, popup: Option<PopupRole>) -> Seq<Request> {
        match popup {
            Some(PopupRole::Parent) if self.parent_popup is Some => {
                let configured = App {
                    parent_popup: Some(PopupState { configured: true }),
                    ..self
                };
                seq![Request::DropBuffer(Surface::ParentPopup)] + configured.draw_parent_requests()
                    + configured.open_child_requests()
            },
            Some(PopupRole::Child) if self.child_popup is Some => {
                seq![Request::DropBuffer(Surface::ChildPopup)] + App {
                    child_popup: Some(PopupState { configured: true }),
                    ..self
                }.draw_child_requests()
            },
            _ => seq![],
        }
    }

    /// The client after the compositor dismissed a popup.
    pub open spec fn popup_done(self, popup: Option<PopupRole>) -> App {
        match popup {
            Some(PopupRole::Child) if self.child_popup is Some => App { child_popup: None, ..self },
            Some(PopupRole::Parent) if self.parent_popup is Some => self.closed_popups(),
            _ => self,
        }
    }

    pub open spec fn popup_done_requests(self, popup: Option<PopupRole>) -> Seq<Request> {
        match popup {
            Some(PopupRole::Child) if self.child_popup is Some => self.close_child_requests(),
            Some(PopupRole::Parent) if self.parent_popup is Some => self.close_requests(),
            _ => seq![],
        }
    }

    /// What creates a subsurface centered at a click. The layer surface is committed last, which is
    /// what makes the new subsurface appear.
    pub open spec fn create_subsurface_requests(self, click_x: i32, click_y: i32) -> Seq<Request> {
        if self.subsurface {
            seq![]
        } else {
            let x = (click_x - SUB_W / 2) as i32;
            let y = (click_y - SUB_H / 2) as i32;
            seq![
                Request::CreateSubsurface,
                Request::SetSubsurfacePosition(x, y),
                Request::DesyncSubsurface,
            ] + given(
                self.has_effect,
                seq![
                    Request::CreateEffect(Surface::Subsurface),
                    Request::SetBlur(Surface::Subsurface, whole(SUB_W, SUB_H)),
                ],
            ) + seq![
                Request::Paint(TintedSurface::Subsurface, shape_of(SUB_W, SUB_H)),
                Request::Damage(Surface::Subsurface, whole(SUB_W, SUB_H)),
                Request::Attach(Surface::Subsurface),
                Request::Commit(Surface::Subsurface),
                Request::Commit(Surface::Layer),
                Request::AnnounceSubsurface(x, y),
            ]
        }
    }

    pub open spec fn destroy_subsurface_requests(self) -> Seq<Request> {
        if self.subsurface {
            given(self.has_effect, seq![Request::DestroyEffect(Surface::Subsurface)]) + seq![
                Request::DestroySubsurface,
                Request::DestroySubsurfaceSurface,
                Request::Commit(Surface::Layer),
                Request::AnnounceSubsurfaceDestroyed,
            ]
        } else {
            seq![]
        }
    }

    /// The client with its surface on another layer.
    pub open spec fn on_layer(self, layer: Layer) -> App {
        App { current_layer: layer, ..self }
    }

    /// The layer above the present one.
    pub open spec fn above(self) -> Option<Layer> {
        Layer::at(self.current_layer.height() + 1)
    }

    /// The layer below the present one.
    pub open spec fn below(self) -> Option<Layer> {
        Layer::at(self.current_layer.height() - 1)
    }

    /// The layer that a key moves the surface to.
    pub open spec fn layer_of_key(self, keysym: u32) -> Option<Layer> {
        if keysym == KEY_PAGE_UP {
            self.above()
        } else if keysym == KEY_PAGE_DOWN {
            self.below()
        } else {
            None
        }
    }

    /// The client after a key press.
    pub open spec fn pressed(self, keysym: u32) -> App {
        App {
            exit: self.exit || quits(keysym),
            popup: self.popup.pressed(keysym),
            current_layer: match self.layer_of_key(keysym) {
                Some(layer) => layer,
                None => self.current_layer,
            },
            ..self
        }
    }

    pub open spec fn key_requests(self, keysym: u32) -> Seq<Request> {
        match self.popup.adjusted(keysym) {
            Some(setting) => seq![Request::AnnounceSetting(setting)] + self.pressed(
                keysym,
            ).update_requests(),
            None => match self.layer_of_key(keysym) {
                Some(layer) => layer_requests(layer),
                None => seq![],
            },
        }
    }

    /// The key leads to parameters that can be represented and drawn.
    pub open spec fn accepts_key(self, keysym: u32) -> bool {
        &&& self.popup.can_press(keysym)
        &&& self.popup.adjusted(keysym) is Some ==> self.pressed(keysym).popups_drawable()
    }

    /// The client after a pointer event.
    pub open spec fn pointed(self, event: PointerEvent) -> App {
        if event.is_press(BUTTON_LEFT) {
            if self.parent_popup is Some {
                self.closed_popups()
            } else {
                App { click_pos: event.position, ..self }.parent_opened()
            }
        } else if event.is_press(BUTTON_RIGHT) {
            App { subsurface: !self.subsurface, ..self }
        } else {
            self
        }
    }

    pub open spec fn event_requests(self, event: PointerEvent) -> Seq<Request> {
        if event.is_press(BUTTON_LEFT) {
            if self.parent_popup is Some {
                self.close_requests()
            } else {
                App { click_pos: event.position, ..self }.open_popups_requests()
            }
        } else if event.is_press(BUTTON_RIGHT) {
            if self.subsurface {
                self.destroy_subsurface_requests()
            } else {
                self.create_subsurface_requests(event.position.0, event.position.1)
            }
        } else {
            seq![]
        }
    }

    /// A click that is to create a subsurface is where one can be placed.
    pub open spec fn accepts(self, event: PointerEvent) -> bool {
        event.is_press(BUTTON_RIGHT) && !self.subsurface ==> placeable(
            event.position.0,
            event.position.1,
        )
    }

    /// The client after a sequence of pointer events.
    pub open spec fn pointed_all(self, events: Seq<PointerEvent>) -> App
        decreases events.len(),
    {
        if events.len() == 0 {
            self
        } else {
            self.pointed_all(events.drop_last()).pointed(events.last())
        }
    }

    pub open spec fn events_requests(self, events: Seq<PointerEvent>) -> Seq<Request>
        decreases events.len(),
    {
        if events.len() == 0 {
            seq![]
        } else {
            self.events_requests(events.drop_last()) + self.pointed_all(
                events.drop_last(),
            ).event_requests(events.last())
        }
    }

    pub open spec fn accepts_all(self, events: Seq<PointerEvent>) -> bool {
        forall|i: int|
            0 <= i < events.len() ==> self.pointed_all(events.take(i)).accepts(#[trigger] events[i])
    }

    /// The client that is to end.
    pub open spec fn ending(self) -> App {
        App { exit: true, ..self }
    }

    pub fn new(has_effect: bool) -> (app: App)
        ensures
            app == App::initial(has_effect),
            app.wf(),
    {
        App {
            exit: false,
            size: SurfaceSize::new(LAYER_W, LAYER_H),
            has_effect,
            current_layer: Layer::Top,
            devices: Devices::new(),
            parent_popup: None,
            child_popup: None,
            click_pos: (0, 0),
            popup: PopupParams::new(),
            subsurface: false,
        }
    }

    /// Paints and shows the whole layer surface.
    pub fn draw_layer_surface(&self, requests: &mut Vec<Request>)
        requires
            self.size.is_drawable(),
        ensures
            final(requests)@ == old(requests)@ + self.draw_layer_requests(),
    {
        let width: u32 = self.size.width;
        let height: u32 = self.size.height;
        requests.push(Request::Paint(TintedSurface::Layer, buffer_shape(width, height)));
        requests.push(Request::Damage(Surface::Layer, whole_rect(width, height)));
        requests.push(Request::Attach(Surface::Layer));
        requests.push(Request::Commit(Surface::Layer));
    }

    /// Sets the layer surface's blur region to its whole surface.
    pub fn update_blur_region(&self, requests: &mut Vec<Request>)
        ensures
            final(requests)@ == old(requests)@ + self.layer_blur_requests(),
    {
        if self.has_effect {
            requests.push(
                Request::SetBlur(
                    Surface::Layer,
                    whole_rect(self.size.width, self.size.height),
                ),
            );
        }
    }

    /// The layer above the present one, if there is one.
    pub fn layer_up(&self) -> (layer: Option<Layer>)
        ensures
            layer == self.above(),
    {
        match self.current_layer {
            Layer::Background => Some(Layer::Bottom),
            Layer::Bottom => Some(Layer::Top),
            Layer::Top => Some(Layer::Overlay),
            Layer::Overlay => None,
        }
    }

    /// The layer below the present one, if there is one.
    pub fn layer_down(&self) -> (layer: Option<Layer>)
        ensures
            layer == self.below(),
    {
        match self.current_layer {
            Layer::Background => None,
            Layer::Bottom => Some(Layer::Background),
            Layer::Top => Some(Layer::Bottom),
            Layer::Overlay => Some(Layer::Top),
        }
    }

    /// Moves the layer surface to another layer.
    pub fn set_layer(&mut self, layer: Layer, requests: &mut Vec<Request>)
        ensures
            *final(self) == old(self).on_layer(layer),
            final(requests)@ == old(requests)@ + layer_requests(layer),
    {
        self.current_layer = layer;
        requests.push(Request::SetLayer(layer));
        requests.push(Request::Commit(Surface::Layer));
        requests.push(Request::AnnounceLayer(layer));
    }

    /// Opens the parent popup above the click position, unless it is open. The child popup follows
    /// when the parent is configured.
    pub fn open_popups(&mut self, requests: &mut Vec<Request>)
        requires
            old(self).wf(),
        ensures
            final(self).wf(),
            *final(self) == old(self).parent_opened(),
            final(requests)@ == old(requests)@ + old(self).open_popups_requests(),
    {
        if self.parent_popup.is_some() {
            return ;
        }
        let geometry = self.popup.geometry_rect();
        requests.push(
            Request::CreateParentPopup(
                Positioner::at_point(
                    geometry.width,
                    geometry.height,
                    self.click_pos.0,
                    self.click_pos.1,
                    Edge::Top,
                ),
            ),
        );
        requests.push(Request::AssignParentPopup);
        requests.push(Request::SetParentGeometry(geometry));
        requests.push(Request::SetBufferScale(Surface::ParentPopup, self.popup.scale as i32));
        if self.has_effect {
            requests.push(Request::CreateEffect(Surface::ParentPopup));
            requests.push(Request::SetBlur(Surface::ParentPopup, geometry));
        }
        requests.push(Request::Commit(Surface::ParentPopup));
        self.parent_popup = Some(PopupState { configured: false });
        let (content_w, content_h) = self.popup.content_sides();
        requests.push(
            Request::AnnounceParentPopup { params: self.popup, content_w, content_h },
        );
    }

    /// Opens the child popup at the right side of the parent, unless it is open or has no parent.
    pub fn open_child_popup(&mut self, requests: &mut Vec<Request>)
        requires
            old(self).wf(),
            old(self).child_popup is None && old(self).parent_popup is Some ==> {
                &&& old(self).popup.surface_w <= i32::MAX
                &&& old(self).popup.surface_h <= i32::MAX
            },
        ensures
            final(self).wf(),
            *final(self) == old(self).child_opened(),
            final(requests)@ == old(requests)@ + old(self).open_child_requests(),
    {
        if self.child_popup.is_some() || self.parent_popup.is_none() {
            return ;
        }
        let (content_w, content_h) = self.popup.content_sides();
        let x_overlap: i32 = self.popup.inset as i32 / 2 + 10;
        requests.push(
            Request::CreateChildPopup(
                Positioner::at_point(
                    CHILD_POPUP_W as i32,
                    CHILD_POPUP_H as i32,
                    content_w as i32 - x_overlap,
                    content_h as i32 / 3,
                    Edge::TopRight,
                ),
            ),
        );
        // No geometry set on the child: the whole surface is the content.
        requests.push(Request::SetBufferScale(Surface::ChildPopup, self.popup.scale as i32));
        if self.has_effect {
            requests.push(Request::CreateEffect(Surface::ChildPopup));
            requests.push(Request::SetBlur(Surface::ChildPopup, child_blur_rect()));
        }
        self.child_popup = Some(PopupState { configured: false });
        requests.push(Request::AnnounceChildPopup { scale: self.popup.scale });
    }

    fn close_child(&mut self, requests: &mut Vec<Request>)
        ensures
            *final(self) == (App { child_popup: None, ..*old(self) }),
            final(requests)@ == old(requests)@ + old(self).close_child_requests(),
    {
        if self.child_popup.is_some() {
            self.child_popup = None;
            if self.has_effect {
                requests.push(Request::DestroyEffect(Surface::ChildPopup));
            }
            requests.push(Request::DestroyPopup(PopupRole::Child));
        }
    }

    /// Closes the popups that are open. The child must be destroyed before the parent.
    pub fn close_popups(&mut self, requests: &mut Vec<Request>)
        ensures
            *final(self) == old(self).closed_popups(),
            final(requests)@ == old(requests)@ + old(self).close_requests(),
    {
        self.close_child(requests);
        if self.parent_popup.is_some() {
            self.parent_popup = None;
            if self.has_effect {
                requests.push(Request::DestroyEffect(Surface::ParentPopup));
            }
            requests.push(Request::DestroyPopup(PopupRole::Parent));
        }
        requests.push(Request::AnnounceClosed);
    }

    /// Paints and shows the parent popup, if it is there and configured.
    pub fn draw_parent_popup(&self, requests: &mut Vec<Request>)
        requires
            self.wf(),
            self.popups_drawable(),
        ensures
            final(requests)@ == old(requests)@ + self.draw_parent_requests(),
    {
        match self.parent_popup {
            Some(state) => {
                if !state.configured {
                    return ;
                }
            },
            None => {
                return ;
            },
        }
        let scale: u32 = self.popup.scale;
        let buf_w: u32 = self.popup.surface_w * scale;
        let buf_h: u32 = self.popup.surface_h * scale;
        requests.push(Request::SetParentGeometry(self.popup.geometry_rect()));
        requests.push(Request::SetBufferScale(Surface::ParentPopup, scale as i32));
        // Always create a fresh buffer (size may have changed).
        requests.push(Request::DropBuffer(Surface::ParentPopup));
        requests.push(Request::PaintParent(buffer_shape(buf_w, buf_h), self.popup));
        requests.push(Request::Damage(Surface::ParentPopup, whole_rect(buf_w, buf_h)));
        requests.push(Request::Attach(Surface::ParentPopup));
        requests.push(Request::Commit(Surface::ParentPopup));
    }

    /// Paints and shows the child popup, if it is there and configured.
    pub fn draw_child_popup(&self, requests: &mut Vec<Request>)
        requires
            self.popup.wf(),
        ensures
            final(requests)@ == old(requests)@ + self.draw_child_requests(),
    {
        match self.child_popup {
            Some(state) => {
                if !state.configured {
                    return ;
                }
            },
            None => {
                return ;
            },
        }
        let scale: u32 = self.popup.scale;
        let buf_w: u32 = CHILD_POPUP_W * scale;
        let buf_h: u32 = CHILD_POPUP_H * scale;
        requests.push(Request::SetBufferScale(Surface::ChildPopup, scale as i32));
        // Always create a fresh buffer (scale may have changed).
        requests.push(Request::DropBuffer(Surface::ChildPopup));
        requests.push(Request::Paint(TintedSurface::ChildPopup, buffer_shape(buf_w, buf_h)));
        requests.push(Request::Damage(Surface::ChildPopup, whole_rect(buf_w, buf_h)));
        requests.push(Request::Attach(Surface::ChildPopup));
        requests.push(Request::Commit(Surface::ChildPopup));
    }

    /// Updates the double-buffered blur region state and redraws the popups, when parameters have
    /// changed.
    pub fn update_popups(&self, requests: &mut Vec<Request>)
        requires
            self.wf(),
            self.popups_drawable(),
        ensures
            final(requests)@ == old(requests)@ + self.update_requests(),
    {
        if self.parent_popup.is_none() {
            return ;
        }
        if self.has_effect {
            requests.push(Request::SetBlur(Surface::ParentPopup, self.popup.geometry_rect()));
            if self.child_popup.is_some() {
                requests.push(Request::SetBlur(Surface::ChildPopup, child_blur_rect()));
            }
        }
        // Redraw and commit (picks up geometry/scale/blur changes).
        self.draw_parent_popup(requests);
        self.draw_child_popup(requests);
    }

    /// Creates a subsurface centered at the click, unless there is one.
    pub fn create_subsurface(&mut self, click_x: i32, click_y: i32, requests: &mut Vec<Request>)
        requires
            !old(self).subsurface ==> placeable(click_x, click_y),
        ensures
            *final(self) == (App { subsurface: true, ..*old(self) }),
            final(requests)@ == old(requests)@ + old(self).create_subsurface_requests(
                click_x,
                click_y,
            ),
    {
        if self.subsurface {
            return ;
        }
        requests.push(Request::CreateSubsurface);
        // Center the subsurface at the click position.
        let x: i32 = click_x - (SUB_W as i32) / 2;
        let y: i32 = click_y - (SUB_H as i32) / 2;
        requests.push(Request::SetSubsurfacePosition(x, y));
        requests.push(Request::DesyncSubsurface);
        if self.has_effect {
            requests.push(Request::CreateEffect(Surface::Subsurface));
            requests.push(Request::SetBlur(Surface::Subsurface, whole_rect(SUB_W, SUB_H)));
        }
        requests.push(Request::Paint(TintedSurface::Subsurface, buffer_shape(SUB_W, SUB_H)));
        requests.push(Request::Damage(Surface::Subsurface, whole_rect(SUB_W, SUB_H)));
        requests.push(Request::Attach(Surface::Subsurface));
        requests.push(Request::Commit(Surface::Subsurface));
        self.subsurface = true;
        // Commit the parent to pick up the new subsurface.
        requests.push(Request::Commit(Surface::Layer));
        requests.push(Request::AnnounceSubsurface(x, y));
    }

    /// Removes the subsurface, if there is one.
    pub fn destroy_subsurface(&mut self, requests: &mut Vec<Request>)
        ensures
            *final(self) == (App { subsurface: false, ..*old(self) }),
            final(requests)@ == old(requests)@ + old(self).destroy_subsurface_requests(),
    {
        if self.subsurface {
            self.subsurface = false;
            if self.has_effect {
                requests.push(Request::DestroyEffect(Surface::Subsurface));
            }
            requests.push(Request::DestroySubsurface);
            requests.push(Request::DestroySubsurfaceSurface);
            requests.push(Request::Commit(Surface::Layer));
            requests.push(Request::AnnounceSubsurfaceDestroyed);
        }
    }

    /// The compositor closes the layer surface.
    pub fn closed(&mut self)
        ensures
            *final(self) == old(self).ending(),
    {
        self.exit = true;
    }

    /// Handles a configure event of the layer surface: it is drawn again on the first one and on a
    /// new size.
    pub fn configure(&mut self, new_size: (u32, u32)) -> (requests: Vec<Request>)
        requires
            old(self).wf(),
            old(self).configured(new_size).wf(),
        ensures
            final(self).wf(),
            *final(self) == old(self).configured(new_size),
            requests@ == old(self).configure_requests(new_size),
    {
        let mut requests: Vec<Request> = Vec::new();
        let width: u32 = if new_size.0 > 0 {
            new_size.0
        } else {
            LAYER_W
        };
        let height: u32 = if new_size.1 > 0 {
            new_size.1
        } else {
            LAYER_H
        };
        if self.size.settle(width, height) {
            requests.push(Request::DropBuffer(Surface::Layer));
            self.update_blur_region(&mut requests);
            self.draw_layer_surface(&mut requests);
        }
        requests
    }

    /// Handles a configure event of a popup, or of none that is open: the popup is drawn, and the
    /// child popup is opened once the parent is configured.
    pub fn configure_popup(&mut self, popup: Option<PopupRole>) -> (requests: Vec<Request>)
        requires
            old(self).wf(),
            popup == Some(PopupRole::Parent) && old(self).parent_popup is Some ==> old(
                self,
            ).popup.drawable(),
        ensures
            final(self).wf(),
            *final(self) == old(self).popup_configured(popup),
            requests@ == old(self).popup_configure_requests(popup),
    {
        let mut requests: Vec<Request> = Vec::new();
        match popup {
            Some(PopupRole::Parent) => {
                if self.parent_popup.is_some() {
                    self.parent_popup = Some(PopupState { configured: true });
                    requests.push(Request::DropBuffer(Surface::ParentPopup));
                    self.draw_parent_popup(&mut requests);
                    proof {
                        lemma_scaled_sides(self.popup);
                    }
                    // Now open the child popup.
                    self.open_child_popup(&mut requests);
                }
            },
            Some(PopupRole::Child) => {
                if self.child_popup.is_some() {
                    self.child_popup = Some(PopupState { configured: true });
                    requests.push(Request::DropBuffer(Surface::ChildPopup));
                    self.draw_child_popup(&mut requests);
                }
            },
            None => {},
        }
        requests
    }

    /// Handles the dismissal of a popup, or of none that is open.
    pub fn done(&mut self, popup: Option<PopupRole>) -> (requests: Vec<Request>)
        requires
            old(self).wf(),
        ensures
            final(self).wf(),
            *final(self) == old(self).popup_done(popup),
            requests@ == old(self).popup_done_requests(popup),
    {
        let mut requests: Vec<Request> = Vec::new();
        match popup {
            Some(PopupRole::Child) => {
                self.close_child(&mut requests);
            },
            Some(PopupRole::Parent) => {
                if self.parent_popup.is_some() {
                    self.close_popups(&mut requests);
                }
            },
            None => {},
        }
        requests
    }

    /// The executable form of [`App::accepts_key`].
    pub fn is_key_accepted(&self, keysym: u32) -> (accepted: bool)
        requires
            self.wf(),
        ensures
            accepted == self.accepts_key(keysym),
    {
        if keysym == KEY_R && self.popup.inset > (u32::MAX - 20) / 2 {
            return false;
        }
        let mut after: PopupParams = self.popup;
        if after.press_key(keysym).is_some() {
            match self.parent_popup {
                Some(state) => !state.configured || after.is_drawable(),
                None => true,
            }
        } else {
            true
        }
    }

    /// Handles a key press.
    pub fn press_key(&mut self, keysym: u32) -> (requests: Vec<Request>)
        requires
            old(self).wf(),
            old(self).accepts_key(keysym),
        ensures
            final(self).wf(),
            *final(self) == old(self).pressed(keysym),
            requests@ == old(self).key_requests(keysym),
    {
        let mut requests: Vec<Request> = Vec::new();
        if is_quit_key(keysym) {
            self.exit = true;
        } else if keysym == KEY_PAGE_UP {
            if let Some(layer) = self.layer_up() {
                self.set_layer(layer, &mut requests);
            }
        } else if keysym == KEY_PAGE_DOWN {
            if let Some(layer) = self.layer_down() {
                self.set_layer(layer, &mut requests);
            }
        } else if let Some(setting) = self.popup.press_key(keysym) {
            requests.push(Request::AnnounceSetting(setting));
            self.update_popups(&mut requests);
        }
        requests
    }

    /// Handles a group of pointer events: a left click toggles the popups, a right click the
    /// subsurface.
    pub fn pointer_frame(&mut self, events: &[PointerEvent]) -> (requests: Vec<Request>)
        requires
            old(self).wf(),
            old(self).accepts_all(events@),
        ensures
            final(self).wf(),
            *final(self) == old(self).pointed_all(events@),
            requests@ == old(self).events_requests(events@),
    {
        let ghost start = *self;
        let mut requests: Vec<Request> = Vec::new();
        let mut i: usize = 0;
        while i < events.len()
            invariant
                i <= events@.len(),
                self.wf(),
                start.accepts_all(events@),
                *self == start.pointed_all(events@.take(i as int)),
                requests@ == start.events_requests(events@.take(i as int)),
            decreases events@.len() - i,
        {
            let event = &events[i];
            assert(events@.take(i + 1).drop_last() =~= events@.take(i as int));
            assert(start.pointed_all(events@.take(i as int)).accepts(events@[i as int]));
            if let Some(button) = event.pressed_button() {
                assert(event.is_press(button));
                if button == BUTTON_LEFT {
                    if self.parent_popup.is_some() {
                        self.close_popups(&mut requests);
                    } else {
                        self.click_pos = event.position;
                        self.open_popups(&mut requests);
                    }
                } else if button == BUTTON_RIGHT {
                    if self.subsurface {
                        self.destroy_subsurface(&mut requests);
                    } else {
                        self.create_subsurface(event.position.0, event.position.1, &mut requests);
                    }
                }
            }
            i += 1;
        }
        assert(events@.take(i as int) =~= events@);
        requests
    }
}

/// What moves the layer surface to another layer.
pub open spec fn layer_requests(layer: Layer) -> Seq<Request> {
    seq![
        Request::SetLayer(layer),
        Request::Commit(Surface::Layer),
        Request::AnnounceLayer(layer),
    ]
}

/// The executable form of [`child_blur`].
fn child_blur_rect() -> (rect: Rect)
    ensures
        rect == child_blur(),
{
    Rect {
        x: -CHILD_BLUR_MARGIN,
        y: -CHILD_BLUR_MARGIN,
        width: CHILD_POPUP_W as i32 + CHILD_BLUR_MARGIN * 2,
        height: CHILD_POPUP_H as i32 + CHILD_BLUR_MARGIN * 2,
    }
}

proof fn lemma_scaled_sides(params: PopupParams)
    requires
        params.wf(),
        params.drawable(),
    ensures
        params.surface_w <= i32::MAX,
        params.surface_h <= i32::MAX,
{
    assert(params.surface_w <= params.surface_w * params.scale && params.surface_h
        <= params.surface_h * params.scale) by (nonlinear_arith)
        requires
            1 <= params.scale,
            0 <= params.surface_w,
            0 <= params.surface_h,
    ;
}

/// Whatever keys were pressed, the shadow never eats up the content: the geometry is the surface
/// without its shadow, and at least ten pixels wide and high.
pub proof fn law_content_is_never_squeezed(params: PopupParams)
    requires
        params.wf(),
    ensures
        params.content_w() == params.surface_w - 2 * params.inset,
        params.content_h() == params.surface_h - 2 * params.inset,
        params.content_w() >= 10,
        params.content_h() >= 10,
{
}

/// The keys come in pairs, of which the second undoes the first, except that a surface that had to
/// grow for its shadow stays grown, and that a parameter that is at the end of its range stays
/// there.
pub proof fn law_key_pairs(params: PopupParams)
    requires
        params.wf(),
    ensures
        params.surface_w + 10 <= u32::MAX ==> params.pressed(KEY_W).pressed(KEY_S) == params,
        params.surface_h + 10 <= u32::MAX ==> params.pressed(KEY_E).pressed(KEY_D) == params,
        params.can_press(KEY_R) ==> params.pressed(KEY_R).pressed(KEY_F).inset == params.inset,
        params.can_press(KEY_R) && params.least_side() + 10 <= params.surface_w
            && params.least_side() + 10 <= params.surface_h ==> params.pressed(KEY_R).pressed(KEY_F)
            == params,
        params.scale < MAX_SCALE ==> params.pressed(KEY_T).pressed(KEY_G) == params,
        params.scale == MAX_SCALE ==> params.pressed(KEY_T) == params,
        params.scale == 1 ==> params.pressed(KEY_G) == params,
{
}

/// A pixel of the parent popup's buffer has the color of the content exactly when the surface
/// pixel it belongs to lies in the geometry.
pub proof fn law_content_color_fills_the_geometry(params: PopupParams, px: u32, py: u32)
    requires
        params.wf(),
        params.drawable(),
    ensures
        params.color_at(px, py) == CONTENT_TINT <==> params.geometry().has_point(
            px as int / params.scale as int,
            py as int / params.scale as int,
        ),
        params.color_at(px, py) == SHADOW_TINT || params.color_at(px, py) == CONTENT_TINT,
{
    lemma_scaled_sides(params);
}

/// The blur of the parent popup covers its geometry: opening it and updating it never set another
/// region.
pub proof fn law_parent_blur_is_its_geometry(app: App, rect: Rect)
    ensures
        app.open_popups_requests().contains(Request::SetBlur(Surface::ParentPopup, rect)) ==> rect
            == app.popup.geometry(),
        app.update_requests().contains(Request::SetBlur(Surface::ParentPopup, rect)) ==> rect
            == app.popup.geometry(),
{
}

/// The blur of the child popup reaches beyond its surface by the same margin in every direction.
pub proof fn law_child_blur_margin()
    ensures
        child_blur().x == -CHILD_BLUR_MARGIN,
        child_blur().y == -CHILD_BLUR_MARGIN,
        child_blur().x + child_blur().width == CHILD_POPUP_W + CHILD_BLUR_MARGIN,
        child_blur().y + child_blur().height == CHILD_POPUP_H + CHILD_BLUR_MARGIN,
{
}

/// Closing the popups destroys both, the child before its parent.
pub proof fn law_child_is_destroyed_first(app: App, i: int, j: int)
    requires
        0 <= i < app.close_requests().len(),
        0 <= j < app.close_requests().len(),
        app.close_requests()[i] == Request::DestroyPopup(PopupRole::Child),
        app.close_requests()[j] == Request::DestroyPopup(PopupRole::Parent),
    ensures
        i < j,
{
    let child = app.close_child_requests();
    let parent = app.close_parent_requests();
    if j < child.len() {
        assert(app.close_requests()[j] == child[j]);
    } else if j < child.len() + parent.len() {
        assert(app.close_requests()[j] == parent[j - child.len()]);
    }
    if child.len() <= i < child.len() + parent.len() {
        assert(app.close_requests()[i] == parent[i - child.len()]);
    }
}

/// Closing the popups destroys exactly what is open: each popup that is there, with its effect.
pub proof fn law_closing_destroys_what_is_open(app: App)
    ensures
        app.close_requests().contains(Request::DestroyPopup(PopupRole::Child))
            <==> app.child_popup is Some,
        app.close_requests().contains(Request::DestroyPopup(PopupRole::Parent))
            <==> app.parent_popup is Some,
        app.close_requests().contains(Request::DestroyEffect(Surface::ChildPopup))
            <==> app.child_popup is Some && app.has_effect,
        app.close_requests().contains(Request::DestroyEffect(Surface::ParentPopup))
            <==> app.parent_popup is Some && app.has_effect,
{
    let child = app.close_child_requests();
    let parent = app.close_parent_requests();
    let all = app.close_requests();
    assert(all =~= child + parent + seq![Request::AnnounceClosed]);
    assert forall|k: int| 0 <= k < child.len() implies #[trigger] all[k] == child[k] by {}
    assert forall|k: int| 0 <= k < parent.len() implies #[trigger] all[child.len() + k]
        == parent[k] by {}
    if app.child_popup is Some {
        assert(all[child.len() - 1] == Request::DestroyPopup(PopupRole::Child));
        if app.has_effect {
            assert(all[0] == Request::DestroyEffect(Surface::ChildPopup));
        }
    }
    if app.parent_popup is Some {
        assert(all[child.len() + parent.len() - 1] == Request::DestroyPopup(PopupRole::Parent));
        if app.has_effect {
            assert(all[child.len() as int] == Request::DestroyEffect(Surface::ParentPopup));
        }
    }
}

/// The child popup is opened by the first configure event of its parent, and by nothing else.
pub proof fn law_child_waits_for_parent(
    app: App,
    popup: Option<PopupRole>,
    keysym: u32,
    event: PointerEvent,
)
    requires
        app.child_popup is None,
    ensures
        app.popup_configured(popup).child_popup is Some <==> popup == Some(PopupRole::Parent)
            && app.parent_popup is Some,
        app.popup_configured(popup).child_popup is Some ==> is_configured(
            app.popup_configured(popup).parent_popup,
        ),
        app.popup_done(popup).child_popup is None,
        app.pressed(keysym).child_popup is None,
        app.pointed(event).child_popup is None,
{
}

/// With no popup open, a parameter key sends nothing to the compositor.
pub proof fn law_keys_are_silent_without_popups(app: App, keysym: u32)
    requires
        app.parent_popup is None,
        app.popup.adjusted(keysym) is Some,
    ensures
        app.key_requests(keysym) == seq![
            Request::AnnounceSetting(app.popup.adjusted(keysym)->0),
        ],
{
    assert(app.key_requests(keysym) =~= seq![
        Request::AnnounceSetting(app.popup.adjusted(keysym)->0),
    ]);
}

/// The layers are stacked Background, Bottom, Top, Overlay: moving up and moving down undo each
/// other, and stop at the ends.
pub proof fn law_layer_moves(app: App)
    ensures
        app.above() matches Some(layer) ==> app.on_layer(layer).below() == Some(app.current_layer)
            && layer.height() == app.current_layer.height() + 1,
        app.below() matches Some(layer) ==> app.on_layer(layer).above() == Some(app.current_layer)
            && layer.height() == app.current_layer.height() - 1,
        app.above() is None <==> app.current_layer == Layer::Overlay,
        app.below() is None <==> app.current_layer == Layer::Background,
{
}

/// With no popup open, two left clicks open one and close it again, and only the click position
/// is left of them; two right clicks bring the subsurface's state back.
pub proof fn law_two_clicks_cancel(app: App, first: PointerEvent, second: PointerEvent)
    requires
        app.wf(),
    ensures
        first.is_press(BUTTON_LEFT) && second.is_press(BUTTON_LEFT) && app.parent_popup is None
            ==> app.pointed(first).pointed(second) == (App { click_pos: first.position, ..app }),
        first.is_press(BUTTON_RIGHT) && second.is_press(BUTTON_RIGHT) ==> app.pointed(
            first,
        ).pointed(second) == app,
{
}

/// The subsurface is centered at the click.
pub proof fn law_subsurface_is_centered(app: App, click_x: i32, click_y: i32)
    requires
        !app.subsurface,
        placeable(click_x, click_y),
    ensures
        app.create_subsurface_requests(click_x, click_y)[1] matches Request::SetSubsurfacePosition(
            x,
            y,
        ) && x + SUB_W / 2 == click_x && y + SUB_H / 2 == click_y,
{
}

/// All tints are premultiplied colors: no channel value is above the alpha value.
pub proof fn law_tints_are_premultiplied(
    surface: TintedSurface,
    params: PopupParams,
    px: u32,
    py: u32,
)
    ensures
        premultiplied(tint(surface)),
        premultiplied(params.color_at(px, py)),
{
}

/// Each key changes its own parameter by its step, as far as that goes, and no other one: W and S
/// the width by ten, E and D the height by ten, R and F the inset by five, T and G the scale by
/// one. A surface shrinks no further than to ten pixels of content, and grows with its inset only
/// as far as to keep these.
pub proof fn law_keys_step_their_parameter(params: PopupParams, keysym: u32)
    requires
        params.wf(),
        params.can_press(keysym),
    ensures
        ({
            let after = params.pressed(keysym);
            &&& after.wf()
            &&& after.surface_w != params.surface_w ==> keysym == KEY_W || keysym == KEY_S || keysym
                == KEY_R
            &&& after.surface_h != params.surface_h ==> keysym == KEY_E || keysym == KEY_D || keysym
                == KEY_R
            &&& after.inset != params.inset ==> keysym == KEY_R || keysym == KEY_F
            &&& after.scale != params.scale ==> keysym == KEY_T || keysym == KEY_G
            &&& keysym == KEY_W ==> after.surface_w == params.surface_w + 10 || after.surface_w
                == u32::MAX && params.surface_w + 10 > u32::MAX
            &&& keysym == KEY_E ==> after.surface_h == params.surface_h + 10 || after.surface_h
                == u32::MAX && params.surface_h + 10 > u32::MAX
            &&& keysym == KEY_S ==> shrinks(params.surface_w, after.surface_w, params.inset)
            &&& keysym == KEY_D ==> shrinks(params.surface_h, after.surface_h, params.inset)
            &&& keysym == KEY_R ==> {
                &&& after.inset == params.inset + 5
                &&& makes_room(params.surface_w, after.surface_w, after.inset)
                &&& makes_room(params.surface_h, after.surface_h, after.inset)
            }
            &&& keysym == KEY_F ==> after.inset + 5 == params.inset || params.inset < 5
                && after.inset == 0
            &&& keysym == KEY_T ==> after.scale == params.scale + 1 || params.scale == 4
                && after.scale == 4
            &&& keysym == KEY_G ==> after.scale + 1 == params.scale || params.scale == 1
                && after.scale == 1
        }),
{
}

/// A side goes down by ten, unless that would leave less than ten pixels of content: then it goes
/// down to just these.
pub open spec fn shrinks(before: u32, after: u32, inset: u32) -> bool {
    if before - 10 - 2 * inset >= 10 {
        after == before - 10
    } else {
        after - 2 * inset == 10
    }
}

/// A side stays, unless that would leave less than ten pixels of content: then it goes up to just
/// these.
pub open spec fn makes_room(before: u32, after: u32, inset: u32) -> bool {
    if before - 2 * inset >= 10 {
        after == before
    } else {
        after - 2 * inset == 10
    }
}

/// The shadow is equally wide on all four sides of the geometry.
pub proof fn law_shadow_is_even(params: PopupParams)
    requires
        params.wf(),
        params.surface_w <= i32::MAX,
        params.surface_h <= i32::MAX,
    ensures
        params.geometry().x == params.inset,
        params.geometry().y == params.inset,
        params.surface_w - (params.geometry().x + params.geometry().width) == params.inset,
        params.surface_h - (params.geometry().y + params.geometry().height) == params.inset,
{
}

/// A larger buffer scale shows the same popup: the pixel of a scaled buffer has the color of the
/// unscaled one that it belongs to.
pub proof fn law_scale_keeps_the_picture(params: PopupParams, px: u32, py: u32)
    requires
        params.wf(),
    ensures
        params.color_at(px, py) == (PopupParams { scale: 1, ..params }).color_at(
            px / params.scale,
            py / params.scale,
        ),
        params.scale == 1 ==> (params.color_at(px, py) == CONTENT_TINT <==> params.inset <= px
            < params.surface_w - params.inset && params.inset <= py < params.surface_h
            - params.inset),
{
}

/// The eight keys tell what became of their parameter, whether it has changed or not, and no other
/// key tells anything: what is told is the value that the parameter has now.
pub proof fn law_settings_are_told(app: App, keysym: u32)
    ensures
        ({
            let after = app.pressed(keysym).popup;
            let requests = app.key_requests(keysym);
            &&& keysym == KEY_W || keysym == KEY_S ==> requests[0] == Request::AnnounceSetting(
                Setting::SurfaceWidth(after.surface_w),
            )
            &&& keysym == KEY_E || keysym == KEY_D ==> requests[0] == Request::AnnounceSetting(
                Setting::SurfaceHeight(after.surface_h),
            )
            &&& keysym == KEY_R || keysym == KEY_F ==> requests[0] == Request::AnnounceSetting(
                Setting::GeometryInset(after.inset),
            )
            &&& keysym == KEY_T || keysym == KEY_G ==> requests[0] == Request::AnnounceSetting(
                Setting::BufferScale(after.scale),
            )
            &&& app.popup.adjusted(keysym) is None ==> {
                &&& after == app.popup
                &&& forall|i: int|
                    0 <= i < requests.len() ==> !(#[trigger] requests[i] is AnnounceSetting)
            }
            &&& app.popup.adjusted(keysym) is Some <==> {
                ||| keysym == KEY_W
                ||| keysym == KEY_S
                ||| keysym == KEY_E
                ||| keysym == KEY_D
                ||| keysym == KEY_R
                ||| keysym == KEY_F
                ||| keysym == KEY_T
                ||| keysym == KEY_G
            }
        }),
{
}

/// The request sets a buffer scale for the surface under which a buffer of this shape is `width` by
/// `height`.
pub open spec fn scales(
    request: Request,
    surface: Surface,
    shape: BufferShape,
    width: int,
    height: int,
) -> bool {
    request matches Request::SetBufferScale(scaled, factor) && scaled == surface && factor >= 1
        && shape.is_exact(width * factor, height * factor)
}

/// If the request paints a popup, then its buffer, divided by the scale that was set before, has
/// the popup's size.
pub open spec fn keeps_size(requests: Seq<Request>, i: int) -> bool {
    match requests[i] {
        Request::Paint(TintedSurface::ChildPopup, shape) => exists|j: int|
            0 <= j < i && scales(
                #[trigger] requests[j],
                Surface::ChildPopup,
                shape,
                CHILD_POPUP_W as int,
                CHILD_POPUP_H as int,
            ),
        Request::PaintParent(shape, params) => exists|j: int|
            0 <= j < i && scales(
                #[trigger] requests[j],
                Surface::ParentPopup,
                shape,
                params.surface_w as int,
                params.surface_h as int,
            ),
        _ => true,
    }
}

/// Every popup that the requests paint has its size.
pub open spec fn keep_sizes(requests: Seq<Request>) -> bool {
    forall|i: int| 0 <= i < requests.len() ==> #[trigger] keeps_size(requests, i)
}

proof fn lemma_concat_keeps_sizes(one: Seq<Request>, other: Seq<Request>)
    requires
        keep_sizes(one),
        keep_sizes(other),
    ensures
        keep_sizes(one + other),
{
    let all = one + other;
    assert forall|i: int| 0 <= i < all.len() implies #[trigger] keeps_size(all, i) by {
        if i < one.len() {
            assert(keeps_size(one, i));
            assert(all[i] == one[i]);
            match one[i] {
                Request::Paint(TintedSurface::ChildPopup, shape) => {
                    let j = choose|j: int|
                        0 <= j < i && scales(
                            #[trigger] one[j],
                            Surface::ChildPopup,
                            shape,
                            CHILD_POPUP_W as int,
                            CHILD_POPUP_H as int,
                        );
                    assert(all[j] == one[j]);
                },
                Request::PaintParent(shape, params) => {
                    let j = choose|j: int|
                        0 <= j < i && scales(
                            #[trigger] one[j],
                            Surface::ParentPopup,
                            shape,
                            params.surface_w as int,
                            params.surface_h as int,
                        );
                    assert(all[j] == one[j]);
                },
                _ => {},
            }
        } else {
            let k = i - one.len();
            assert(keeps_size(other, k));
            assert(all[i] == other[k]);
            match other[k] {
                Request::Paint(TintedSurface::ChildPopup, shape) => {
                    let j = choose|j: int|
                        0 <= j < k && scales(
                            #[trigger] other[j],
                            Surface::ChildPopup,
                            shape,
                            CHILD_POPUP_W as int,
                            CHILD_POPUP_H as int,
                        );
                    assert(all[one.len() + j] == other[j]);
                },
                Request::PaintParent(shape, params) => {
                    let j = choose|j: int|
                        0 <= j < k && scales(
                            #[trigger] other[j],
                            Surface::ParentPopup,
                            shape,
                            params.surface_w as int,
                            params.surface_h as int,
                        );
                    assert(all[one.len() + j] == other[j]);
                },
                _ => {},
            }
        }
    }
}

proof fn lemma_draws_keep_sizes(app: App)
    requires
        app.popup.wf(),
        app.popups_drawable(),
    ensures
        keep_sizes(app.draw_parent_requests()),
        keep_sizes(app.draw_child_requests()),
{
    let parent = app.draw_parent_requests();
    let child = app.draw_child_requests();
    if is_configured(app.parent_popup) {
        assert(scales(
            parent[1],
            Surface::ParentPopup,
            shape_of(
                (app.popup.surface_w * app.popup.scale) as u32,
                (app.popup.surface_h * app.popup.scale) as u32,
            ),
            app.popup.surface_w as int,
            app.popup.surface_h as int,
        )) by {
            assert(0 <= app.popup.surface_w * app.popup.scale) by (nonlinear_arith);
            assert(0 <= app.popup.surface_h * app.popup.scale) by (nonlinear_arith);
        }
    }
    if is_configured(app.child_popup) {
        assert(scales(
            child[0],
            Surface::ChildPopup,
            shape_of(
                (CHILD_POPUP_W * app.popup.scale) as u32,
                (CHILD_POPUP_H * app.popup.scale) as u32,
            ),
            CHILD_POPUP_W as int,
            CHILD_POPUP_H as int,
        ));
    }
}

/// Whenever a popup is painted, its buffer, divided by the buffer scale that was set before it in
/// the same requests, is the size of the popup's surface, at every scale; so a change of the scale
/// leaves the popups as large as they were.
pub proof fn law_popups_keep_their_size(app: App, keysym: u32, popup: Option<PopupRole>)
    requires
        app.wf(),
    ensures
        app.popups_drawable() ==> keep_sizes(app.update_requests()),
        app.accepts_key(keysym) ==> keep_sizes(app.key_requests(keysym)),
        app.popup.drawable() ==> keep_sizes(app.popup_configure_requests(popup)),
{
    if app.popups_drawable() {
        lemma_updates_keep_sizes(app);
    }
    if app.accepts_key(keysym) && app.popup.adjusted(keysym) is Some {
        law_keys_step_their_parameter(app.popup, keysym);
        lemma_updates_keep_sizes(app.pressed(keysym));
        let told: Seq<Request> = seq![
            Request::AnnounceSetting(app.popup.adjusted(keysym)->0),
        ];
        lemma_concat_keeps_sizes(told, app.pressed(keysym).update_requests());
    }
    if app.popup.drawable() {
        let parent = App { parent_popup: Some(PopupState { configured: true }), ..app };
        let child = App { child_popup: Some(PopupState { configured: true }), ..app };
        lemma_draws_keep_sizes(parent);
        lemma_draws_keep_sizes(child);
        let drop_parent: Seq<Request> = seq![Request::DropBuffer(Surface::ParentPopup)];
        let drop_child: Seq<Request> = seq![Request::DropBuffer(Surface::ChildPopup)];
        lemma_concat_keeps_sizes(drop_parent, parent.draw_parent_requests());
        lemma_concat_keeps_sizes(
            drop_parent + parent.draw_parent_requests(),
            parent.open_child_requests(),
        );
        lemma_concat_keeps_sizes(drop_child, child.draw_child_requests());
    }
}

proof fn lemma_updates_keep_sizes(app: App)
    requires
        app.popup.wf(),
        app.popups_drawable(),
    ensures
        keep_sizes(app.update_requests()),
{
    lemma_draws_keep_sizes(app);
    if app.parent_popup is Some {
        let blurs = given(
            app.has_effect,
            seq![Request::SetBlur(Surface::ParentPopup, app.popup.geometry())],
        ) + given(
            app.has_effect && app.child_popup is Some,
            seq![Request::SetBlur(Surface::ChildPopup, child_blur())],
        );
        assert(keep_sizes(blurs));
        lemma_concat_keeps_sizes(blurs, app.draw_parent_requests());
        lemma_concat_keeps_sizes(
            blurs + app.draw_parent_requests(),
            app.draw_child_requests(),
        );
    }
}

/// The requests show the parent popup with these parameters: its geometry without the shadow, its
/// scale, and a buffer of its size under that scale, painted, damaged as a whole, attached and
/// committed.
pub open spec fn shows_parent(requests: Seq<Request>, params: PopupParams) -> bool {
    let width = (params.surface_w * params.scale) as u32;
    let height = (params.surface_h * params.scale) as u32;
    &&& has_steps(
        requests,
        seq![
            Request::SetBufferScale(Surface::ParentPopup, params.scale as i32),
            Request::DropBuffer(Surface::ParentPopup),
            Request::PaintParent(shape_of(width, height), params),
            Request::Damage(Surface::ParentPopup, whole(width, height)),
            Request::Attach(Surface::ParentPopup),
            Request::Commit(Surface::ParentPopup),
        ],
    )
    &&& has_steps(
        requests,
        seq![
            Request::SetParentGeometry(without_shadow(params)),
            Request::Commit(Surface::ParentPopup),
        ],
    )
}

/// The requests show the child popup at this scale.
pub open spec fn shows_child(requests: Seq<Request>, scale: u32) -> bool {
    let width = (120 * scale) as u32;
    let height = (160 * scale) as u32;
    has_steps(
        requests,
        seq![
            Request::SetBufferScale(Surface::ChildPopup, scale as i32),
            Request::DropBuffer(Surface::ChildPopup),
            Request::Paint(TintedSurface::ChildPopup, shape_of(width, height)),
            Request::Damage(Surface::ChildPopup, whole(width, height)),
            Request::Attach(Surface::ChildPopup),
            Request::Commit(Surface::ChildPopup),
        ],
    )
}

/// What the shadow leaves of the parent popup's surface.
pub open spec fn without_shadow(params: PopupParams) -> Rect {
    Rect {
        x: params.inset as i32,
        y: params.inset as i32,
        width: (params.surface_w - 2 * params.inset) as i32,
        height: (params.surface_h - 2 * params.inset) as i32,
    }
}

proof fn lemma_parent_is_shown(requests: Seq<Request>, app: App, start: int)
    requires
        app.popup.wf(),
        is_configured(app.parent_popup),
        0 <= start,
        start + 7 <= requests.len(),
        requests.subrange(start, start + 7) == app.draw_parent_requests(),
    ensures
        shows_parent(requests, app.popup),
{
    let width = (app.popup.surface_w * app.popup.scale) as u32;
    let height = (app.popup.surface_h * app.popup.scale) as u32;
    let part = app.draw_parent_requests();
    assert forall|k: int| 0 <= k < 7 implies requests[start + k] == #[trigger] part[k] by {
        assert(requests.subrange(start, start + 7)[k] == requests[start + k]);
    }
    assert(part[0] == Request::SetParentGeometry(without_shadow(app.popup)));
    assert(stands_at(
        requests,
        seq![
            Request::SetBufferScale(Surface::ParentPopup, app.popup.scale as i32),
            Request::DropBuffer(Surface::ParentPopup),
            Request::PaintParent(shape_of(width, height), app.popup),
            Request::Damage(Surface::ParentPopup, whole(width, height)),
            Request::Attach(Surface::ParentPopup),
            Request::Commit(Surface::ParentPopup),
        ],
        seq![start + 1, start + 2, start + 3, start + 4, start + 5, start + 6],
    )) by {
        assert(requests[start + 1] == part[1]);
        assert(requests[start + 2] == part[2]);
        assert(requests[start + 3] == part[3]);
        assert(requests[start + 4] == part[4]);
        assert(requests[start + 5] == part[5]);
        assert(requests[start + 6] == part[6]);
    }
    assert(stands_at(
        requests,
        seq![
            Request::SetParentGeometry(without_shadow(app.popup)),
            Request::Commit(Surface::ParentPopup),
        ],
        seq![start + 0, start + 6],
    )) by {
        assert(requests[start + 0] == part[0]);
        assert(requests[start + 6] == part[6]);
    }
}

proof fn lemma_child_is_shown(requests: Seq<Request>, app: App, start: int)
    requires
        app.popup.wf(),
        is_configured(app.child_popup),
        0 <= start,
        start + 6 <= requests.len(),
        requests.subrange(start, start + 6) == app.draw_child_requests(),
    ensures
        shows_child(requests, app.popup.scale),
{
    let width = (120 * app.popup.scale) as u32;
    let height = (160 * app.popup.scale) as u32;
    let part = app.draw_child_requests();
    assert forall|k: int| 0 <= k < 6 implies requests[start + k] == #[trigger] part[k] by {
        assert(requests.subrange(start, start + 6)[k] == requests[start + k]);
    }
    assert(stands_at(
        requests,
        seq![
            Request::SetBufferScale(Surface::ChildPopup, app.popup.scale as i32),
            Request::DropBuffer(Surface::ChildPopup),
            Request::Paint(TintedSurface::ChildPopup, shape_of(width, height)),
            Request::Damage(Surface::ChildPopup, whole(width, height)),
            Request::Attach(Surface::ChildPopup),
            Request::Commit(Surface::ChildPopup),
        ],
        seq![start + 0, start + 1, start + 2, start + 3, start + 4, start + 5],
    )) by {
        assert(requests[start + 0] == part[0]);
        assert(requests[start + 1] == part[1]);
        assert(requests[start + 2] == part[2]);
        assert(requests[start + 3] == part[3]);
        assert(requests[start + 4] == part[4]);
        assert(requests[start + 5] == part[5]);
    }
}

/// A popup is shown as soon as it is configured, and never before: the parent with the present
/// parameters, and the child at the present scale.
pub proof fn law_configured_popups_are_shown(app: App)
    requires
        app.wf(),
    ensures
        app.parent_popup is Some ==> {
            &&& shows_parent(app.popup_configure_requests(Some(PopupRole::Parent)), app.popup)
            &&& is_configured(app.popup_configured(Some(PopupRole::Parent)).parent_popup)
        },
        app.child_popup is Some ==> {
            &&& shows_child(app.popup_configure_requests(Some(PopupRole::Child)), app.popup.scale)
            &&& is_configured(app.popup_configured(Some(PopupRole::Child)).child_popup)
        },
        app.parent_popup is None ==> app.popup_configure_requests(Some(PopupRole::Parent)).len()
            == 0,
        app.child_popup is None ==> app.popup_configure_requests(Some(PopupRole::Child)).len() == 0,
        app.popup_configure_requests(None).len() == 0,
        app.popup_configured(None) == app,
        forall|i: int|
            0 <= i < app.open_popups_requests().len() ==> !(
            #[trigger] app.open_popups_requests()[i] is PaintParent),
        forall|i: int|
            0 <= i < app.open_child_requests().len() ==> !(#[trigger] app.open_child_requests()[i]
                is Paint),
{
    if app.parent_popup is Some {
        let parent = App { parent_popup: Some(PopupState { configured: true }), ..app };
        let requests = app.popup_configure_requests(Some(PopupRole::Parent));
        assert(requests.subrange(1, 8) =~= parent.draw_parent_requests());
        lemma_parent_is_shown(requests, parent, 1);
    }
    if app.child_popup is Some {
        let child = App { child_popup: Some(PopupState { configured: true }), ..app };
        let requests = app.popup_configure_requests(Some(PopupRole::Child));
        assert(requests.subrange(1, 7) =~= child.draw_child_requests());
        lemma_child_is_shown(requests, child, 1);
    }
}

/// A parameter key shows the popups that are open and configured with the parameters that it leads
/// to. With effects, the blur of the parent is set to its new geometry, and that of the child is
/// set too, before they are shown.
#[verifier::spinoff_prover]
pub proof fn law_parameter_keys_show_the_popups(app: App, keysym: u32)
    requires
        app.wf(),
        app.accepts_key(keysym),
        app.popup.adjusted(keysym) is Some,
    ensures
        ({
            let after = app.pressed(keysym);
            let requests = app.key_requests(keysym);
            &&& is_configured(app.parent_popup) ==> shows_parent(requests, after.popup)
            &&& is_configured(app.child_popup) ==> shows_child(requests, after.popup.scale)
            &&& app.parent_popup is Some && app.has_effect ==> requests[1] == Request::SetBlur(
                Surface::ParentPopup,
                without_shadow(after.popup),
            )
            &&& app.child_popup is Some && app.has_effect ==> requests[2] == Request::SetBlur(
                Surface::ChildPopup,
                child_blur(),
            )
            &&& forall|i: int|
                0 <= i < requests.len() && (#[trigger] requests[i] is PaintParent)
                    ==> is_configured(app.parent_popup)
            &&& forall|i: int|
                0 <= i < requests.len() && (#[trigger] requests[i] is Paint) ==> is_configured(
                    app.child_popup,
                )
            &&& forall|i: int|
                0 <= i < requests.len() && (#[trigger] requests[i] is SetBlur) ==> app.has_effect
            &&& after.parent_popup == app.parent_popup
            &&& after.child_popup == app.child_popup
            &&& requests.len() <= 16
            &&& app.child_popup is None ==> requests.len() <= 9
        }),
{
    let after = app.pressed(keysym);
    let requests = app.key_requests(keysym);
    law_keys_step_their_parameter(app.popup, keysym);
    if app.parent_popup is Some {
        let blurs: int = if !app.has_effect {
            0
        } else if app.child_popup is Some {
            2
        } else {
            1
        };
        let start = 1 + blurs;
        if app.has_effect {
            assert(requests[1] == Request::SetBlur(
                Surface::ParentPopup,
                after.popup.geometry(),
            ));
        }
        let drawn: int = if is_configured(app.parent_popup) {
            7
        } else {
            0
        };
        if is_configured(app.parent_popup) {
            assert(requests.subrange(start, start + 7) =~= after.draw_parent_requests());
            lemma_parent_is_shown(requests, after, start);
        }
        if is_configured(app.child_popup) {
            assert(requests.subrange(start + drawn, start + drawn + 6)
                =~= after.draw_child_requests());
            lemma_child_is_shown(requests, after, start + drawn);
        }
    }
}

/// A left press on the layer surface opens the parent popup where none is open: above the click, of
/// the size of its geometry, as a popup of the layer surface, at its scale, with a geometry without
/// the shadow and, with effects, blur on just that. This is committed, so that the popup gets
/// configured.
#[verifier::spinoff_prover]
pub proof fn law_left_clicks_open_the_parent(app: App, event: PointerEvent)
    requires
        app.wf(),
        app.parent_popup is None,
        event.is_press(BUTTON_LEFT),
    ensures
        ({
            let after = app.pointed(event);
            let requests = app.event_requests(event);
            let area = without_shadow(app.popup);
            &&& after.parent_popup == Some(PopupState { configured: false })
            &&& after.click_pos == event.position
            &&& after == App {
                parent_popup: after.parent_popup,
                click_pos: after.click_pos,
                ..app
            }
            &&& has_steps(
                requests,
                seq![
                    Request::CreateParentPopup(
                        Positioner {
                            width: area.width,
                            height: area.height,
                            anchor_rect: Rect {
                                x: event.position.0,
                                y: event.position.1,
                                width: 1,
                                height: 1,
                            },
                            anchor: Edge::Top,
                            gravity: Edge::Top,
                            constraint_adjustment: 0xF,
                        },
                    ),
                    Request::AssignParentPopup,
                    Request::SetParentGeometry(area),
                    Request::SetBufferScale(Surface::ParentPopup, app.popup.scale as i32),
                    Request::Commit(Surface::ParentPopup),
                ],
            )
            &&& app.has_effect ==> has_steps(
                requests,
                seq![
                    Request::CreateEffect(Surface::ParentPopup),
                    Request::SetBlur(Surface::ParentPopup, area),
                    Request::Commit(Surface::ParentPopup),
                ],
            )
            &&& !app.has_effect ==> !requests.contains(Request::CreateEffect(Surface::ParentPopup))
            &&& once(requests, Request::Commit(Surface::ParentPopup))
            &&& requests.len() == if app.has_effect {
                8int
            } else {
                6
            }
            &&& requests.last() == Request::AnnounceParentPopup {
                params: app.popup,
                content_w: (app.popup.surface_w - 2 * app.popup.inset) as u32,
                content_h: (app.popup.surface_h - 2 * app.popup.inset) as u32,
            }
        }),
{
    let requests = app.event_requests(event);
    let area = without_shadow(app.popup);
    assert(area == app.popup.geometry());
    let shift: int = if app.has_effect {
        2
    } else {
        0
    };
    assert(requests[4 + shift] == Request::Commit(Surface::ParentPopup));
    assert(stands_at(
        requests,
        seq![
            Request::CreateParentPopup(
                Positioner {
                    width: area.width,
                    height: area.height,
                    anchor_rect: Rect {
                        x: event.position.0,
                        y: event.position.1,
                        width: 1,
                        height: 1,
                    },
                    anchor: Edge::Top,
                    gravity: Edge::Top,
                    constraint_adjustment: 0xF,
                },
            ),
            Request::AssignParentPopup,
            Request::SetParentGeometry(area),
            Request::SetBufferScale(Surface::ParentPopup, app.popup.scale as i32),
            Request::Commit(Surface::ParentPopup),
        ],
        seq![0, 1, 2, 3, 4 + shift],
    ));
    if app.has_effect {
        assert(stands_at(
            requests,
            seq![
                Request::CreateEffect(Surface::ParentPopup),
                Request::SetBlur(Surface::ParentPopup, area),
                Request::Commit(Surface::ParentPopup),
            ],
            seq![4, 5, 6],
        ));
    }
}

/// The child popup opens, with the first configure event of its parent, to the top right of a point
/// that lies inside the parent's content: ten pixels and half of the inset from the right side, and
/// a third of the height from the top. It has its own size, the scale of the parent, and, with
/// effects, blur that reaches 50 pixels beyond it on every side.
pub proof fn law_child_opens_at_the_parents_side(app: App)
    requires
        app.wf(),
        app.parent_popup is Some,
        app.child_popup is None,
        app.popup.drawable(),
    ensures
        ({
            let after = app.popup_configured(Some(PopupRole::Parent));
            let requests = app.popup_configure_requests(Some(PopupRole::Parent));
            let content_w = app.popup.surface_w - 2 * app.popup.inset;
            let content_h = app.popup.surface_h - 2 * app.popup.inset;
            &&& after.child_popup == Some(PopupState { configured: false })
            &&& requests[8] matches Request::CreateChildPopup(placed) && {
                &&& placed.width == 120
                &&& placed.height == 160
                &&& placed.anchor == Edge::TopRight
                &&& placed.gravity == Edge::TopRight
                &&& placed.constraint_adjustment == 0xF
                &&& placed.anchor_rect.width == 1
                &&& placed.anchor_rect.height == 1
                &&& 0 <= app.popup.inset - 2 * (content_w - 10 - placed.anchor_rect.x) <= 1
                &&& 0 <= content_h - 3 * placed.anchor_rect.y <= 2
            }
            &&& requests[9] == Request::SetBufferScale(
                Surface::ChildPopup,
                app.popup.scale as i32,
            )
            &&& app.has_effect ==> has_steps(
                requests,
                seq![
                    Request::CreateEffect(Surface::ChildPopup),
                    Request::SetBlur(Surface::ChildPopup, child_blur()),
                ],
            )
            &&& !app.has_effect ==> !requests.contains(Request::CreateEffect(Surface::ChildPopup))
            &&& requests.last() == Request::AnnounceChildPopup { scale: app.popup.scale }
            &&& requests.len() == if app.has_effect {
                13int
            } else {
                11
            }
        }),
{
    lemma_scaled_sides(app.popup);
    let requests = app.popup_configure_requests(Some(PopupRole::Parent));
    if app.has_effect {
        assert(stands_at(
            requests,
            seq![
                Request::CreateEffect(Surface::ChildPopup),
                Request::SetBlur(Surface::ChildPopup, child_blur()),
            ],
            seq![10, 11],
        ));
    }
}

/// A left press on the layer surface closes whatever popups are open, and tells so; a dismissed
/// parent takes its child with it, a dismissed child goes alone, and the dismissal of a popup that
/// is not open does nothing. Nothing else changes.
pub proof fn law_popups_are_closed(app: App, event: PointerEvent)
    requires
        app.wf(),
    ensures
        event.is_press(BUTTON_LEFT) && app.parent_popup is Some ==> {
            &&& app.pointed(event).parent_popup is None
            &&& app.pointed(event).child_popup is None
            &&& app.event_requests(event).contains(Request::DestroyPopup(PopupRole::Parent))
            &&& app.child_popup is Some <==> app.event_requests(event).contains(
                Request::DestroyPopup(PopupRole::Child),
            )
            &&& app.event_requests(event).last() == Request::AnnounceClosed
            &&& app.pointed(event) == App { parent_popup: None, child_popup: None, ..app }
        },
        app.popup_done(Some(PopupRole::Parent)).parent_popup is None,
        app.popup_done(Some(PopupRole::Parent)).child_popup is None,
        app.popup_done(Some(PopupRole::Child)) == (App { child_popup: None, ..app }),
        app.popup_done(Some(PopupRole::Parent)) == (App {
            parent_popup: None,
            child_popup: None,
            ..app
        }),
        app.popup_done(None) == app,
        app.popup_done_requests(None).len() == 0,
        app.parent_popup is Some <==> app.popup_done_requests(Some(PopupRole::Parent)).contains(
            Request::DestroyPopup(PopupRole::Parent),
        ),
        app.child_popup is Some <==> app.popup_done_requests(Some(PopupRole::Child)).contains(
            Request::DestroyPopup(PopupRole::Child),
        ),
        app.child_popup is Some ==> app.popup_done_requests(Some(PopupRole::Parent)).contains(
            Request::DestroyPopup(PopupRole::Child),
        ),
        !app.popup_done_requests(Some(PopupRole::Child)).contains(
            Request::DestroyPopup(PopupRole::Parent),
        ),
{
    law_closing_destroys_what_is_open(app);
    let child = app.popup_done_requests(Some(PopupRole::Child));
    if app.child_popup is Some {
        assert(child[child.len() - 1] == Request::DestroyPopup(PopupRole::Child));
    }
}

/// An effect is destroyed before the popup it belongs to, and exactly where there are effects.
pub proof fn law_effects_go_first(app: App)
    ensures
        app.child_popup is Some && app.has_effect ==> has_steps(
            app.close_requests(),
            seq![
                Request::DestroyEffect(Surface::ChildPopup),
                Request::DestroyPopup(PopupRole::Child),
            ],
        ),
        app.parent_popup is Some && app.has_effect ==> has_steps(
            app.close_requests(),
            seq![
                Request::DestroyEffect(Surface::ParentPopup),
                Request::DestroyPopup(PopupRole::Parent),
            ],
        ),
        app.subsurface && app.has_effect ==> has_steps(
            app.destroy_subsurface_requests(),
            seq![Request::DestroyEffect(Surface::Subsurface), Request::DestroySubsurface],
        ),
{
    let all = app.close_requests();
    let child = app.close_child_requests();
    if app.child_popup is Some && app.has_effect {
        assert(stands_at(
            all,
            seq![
                Request::DestroyEffect(Surface::ChildPopup),
                Request::DestroyPopup(PopupRole::Child),
            ],
            seq![0, 1],
        ));
    }
    if app.parent_popup is Some && app.has_effect {
        let start = child.len() as int;
        assert(stands_at(
            all,
            seq![
                Request::DestroyEffect(Surface::ParentPopup),
                Request::DestroyPopup(PopupRole::Parent),
            ],
            seq![start, start + 1],
        ));
    }
    if app.subsurface && app.has_effect {
        assert(stands_at(
            app.destroy_subsurface_requests(),
            seq![Request::DestroyEffect(Surface::Subsurface), Request::DestroySubsurface],
            seq![0, 1],
        ));
    }
}

/// A right press on the layer surface creates a subsurface where there is none, and removes the one
/// that is there. A new one has the click in its center, is independent, is shown as a whole, and
/// is committed before the layer surface; a removed one loses its role before its surface, and the
/// layer surface is committed after that.
#[verifier::spinoff_prover]
pub proof fn law_right_clicks_toggle_the_subsurface(app: App, event: PointerEvent)
    requires
        app.accepts(event),
        event.is_press(BUTTON_RIGHT),
    ensures
        ({
            let after = app.pointed(event);
            let requests = app.event_requests(event);
            let x = (event.position.0 - 100) as i32;
            let y = (event.position.1 - 100) as i32;
            &&& after.subsurface != app.subsurface
            &&& after == App { subsurface: after.subsurface, ..app }
            &&& once(requests, Request::Commit(Surface::Layer))
            &&& !app.subsurface ==> requests.len() == if app.has_effect {
                11int
            } else {
                9
            }
            &&& app.subsurface ==> requests.len() == if app.has_effect {
                5int
            } else {
                4
            }
            &&& !app.subsurface ==> {
                &&& x + 100 == event.position.0
                &&& y + 100 == event.position.1
                &&& has_steps(
                    requests,
                    seq![
                        Request::CreateSubsurface,
                        Request::SetSubsurfacePosition(x, y),
                        Request::DesyncSubsurface,
                        Request::Paint(TintedSurface::Subsurface, shape_of(200, 200)),
                        Request::Damage(Surface::Subsurface, whole(200, 200)),
                        Request::Attach(Surface::Subsurface),
                        Request::Commit(Surface::Subsurface),
                        Request::Commit(Surface::Layer),
                        Request::AnnounceSubsurface(x, y),
                    ],
                )
                &&& app.has_effect ==> has_steps(
                    requests,
                    seq![
                        Request::CreateEffect(Surface::Subsurface),
                        Request::SetBlur(Surface::Subsurface, whole(200, 200)),
                        Request::Commit(Surface::Subsurface),
                    ],
                )
                &&& !app.has_effect ==> !requests.contains(
                    Request::CreateEffect(Surface::Subsurface),
                )
            }
            &&& app.subsurface ==> has_steps(
                requests,
                seq![
                    Request::DestroySubsurface,
                    Request::DestroySubsurfaceSurface,
                    Request::Commit(Surface::Layer),
                    Request::AnnounceSubsurfaceDestroyed,
                ],
            )
        }),
{
    let requests = app.event_requests(event);
    let x = (event.position.0 - 100) as i32;
    let y = (event.position.1 - 100) as i32;
    if app.subsurface {
        let shift: int = if app.has_effect {
            1
        } else {
            0
        };
        assert(requests[2 + shift] == Request::Commit(Surface::Layer));
        assert(stands_at(
            requests,
            seq![
                Request::DestroySubsurface,
                Request::DestroySubsurfaceSurface,
                Request::Commit(Surface::Layer),
                Request::AnnounceSubsurfaceDestroyed,
            ],
            seq![shift + 0, shift + 1, shift + 2, shift + 3],
        ));
    } else {
        let shift: int = if app.has_effect {
            2
        } else {
            0
        };
        assert(requests[7 + shift] == Request::Commit(Surface::Layer));
        assert(stands_at(
            requests,
            seq![
                Request::CreateSubsurface,
                Request::SetSubsurfacePosition(x, y),
                Request::DesyncSubsurface,
                Request::Paint(TintedSurface::Subsurface, shape_of(200, 200)),
                Request::Damage(Surface::Subsurface, whole(200, 200)),
                Request::Attach(Surface::Subsurface),
                Request::Commit(Surface::Subsurface),
                Request::Commit(Surface::Layer),
                Request::AnnounceSubsurface(x, y),
            ],
            seq![
                0,
                1,
                2,
                3 + shift,
                4 + shift,
                5 + shift,
                6 + shift,
                7 + shift,
                8 + shift,
            ],
        ));
        if app.has_effect {
            assert(stands_at(
                requests,
                seq![
                    Request::CreateEffect(Surface::Subsurface),
                    Request::SetBlur(Surface::Subsurface, whole(200, 200)),
                    Request::Commit(Surface::Subsurface),
                ],
                seq![3, 4, 8],
            ));
        }
    }
}

/// Events that are no left or right press on the layer surface do nothing.
pub proof fn law_other_events_do_nothing(app: App, event: PointerEvent)
    requires
        !event.is_press(BUTTON_LEFT),
        !event.is_press(BUTTON_RIGHT),
    ensures
        app.pointed(event) == app,
        app.event_requests(event).len() == 0,
{
}

/// Page Up moves the layer surface one layer up and Page Down one layer down, in the order
/// Background, Bottom, Top, Overlay, and neither moves it beyond the ends. A move is sent,
/// committed and told; where there is none, nothing happens.
pub proof fn law_page_keys_move_the_layer(app: App)
    ensures
        ({
            let up = app.pressed(KEY_PAGE_UP).current_layer;
            &&& app.current_layer == Layer::Background ==> up == Layer::Bottom
            &&& app.current_layer == Layer::Bottom ==> up == Layer::Top
            &&& app.current_layer == Layer::Top ==> up == Layer::Overlay
            &&& app.current_layer == Layer::Overlay ==> up == Layer::Overlay
            &&& up != app.current_layer ==> moves_to(app.key_requests(KEY_PAGE_UP), up)
            &&& up == app.current_layer ==> app.key_requests(KEY_PAGE_UP).len() == 0
        }),
        app.pressed(KEY_PAGE_UP).current_layer != app.current_layer ==> app.pressed(
            KEY_PAGE_UP,
        ).pressed(KEY_PAGE_DOWN) == app,
        app.pressed(KEY_PAGE_DOWN).current_layer != app.current_layer ==> app.pressed(
            KEY_PAGE_DOWN,
        ).pressed(KEY_PAGE_UP) == app,
        app.pressed(KEY_PAGE_DOWN).current_layer != app.current_layer ==> moves_to(
            app.key_requests(KEY_PAGE_DOWN),
            app.pressed(KEY_PAGE_DOWN).current_layer,
        ),
        app.pressed(KEY_PAGE_DOWN).current_layer == app.current_layer ==> {
            &&& app.current_layer == Layer::Background
            &&& app.key_requests(KEY_PAGE_DOWN).len() == 0
        },
{
    let up = app.pressed(KEY_PAGE_UP).current_layer;
    if up != app.current_layer {
        assert(stands_at(
            app.key_requests(KEY_PAGE_UP),
            seq![
                Request::SetLayer(up),
                Request::Commit(Surface::Layer),
                Request::AnnounceLayer(up),
            ],
            seq![0, 1, 2],
        ));
    }
    let down = app.pressed(KEY_PAGE_DOWN).current_layer;
    if down != app.current_layer {
        assert(stands_at(
            app.key_requests(KEY_PAGE_DOWN),
            seq![
                Request::SetLayer(down),
                Request::Commit(Surface::Layer),
                Request::AnnounceLayer(down),
            ],
            seq![0, 1, 2],
        ));
    }
}

/// The requests move the layer surface to another layer, and tell so.
pub open spec fn moves_to(requests: Seq<Request>, layer: Layer) -> bool {
    requests.len() == 3 && has_steps(
        requests,
        seq![
            Request::SetLayer(layer),
            Request::Commit(Surface::Layer),
            Request::AnnounceLayer(layer),
        ],
    )
}

/// A key press changes nothing but the parameters, the layer, and, for a quit key, that the client
/// ends; a quit key asks for nothing.
pub proof fn law_keys_have_one_effect(app: App, keysym: u32)
    ensures
        ({
            let after = app.pressed(keysym);
            &&& after.exit <==> app.exit || quits(keysym)
            &&& after.current_layer != app.current_layer ==> keysym == KEY_PAGE_UP || keysym
                == KEY_PAGE_DOWN
            &&& after.popup != app.popup ==> app.popup.adjusted(keysym) is Some
            &&& after == App {
                exit: after.exit,
                current_layer: after.current_layer,
                popup: after.popup,
                ..app
            }
            &&& quits(keysym) ==> app.key_requests(keysym).len() == 0
        }),
{
}

/// A configure event of the layer surface settles on the sides it gives, and on the client's own
/// ones where they are zero; it changes nothing but the size. If that changes what is known of the
/// size, the old buffer is dropped, the whole of the new size is blurred where there are effects,
/// and a buffer of just that size is painted, damaged, attached and committed; otherwise nothing
/// happens.
pub proof fn law_new_sizes_are_shown(app: App, new_size: (u32, u32))
    ensures
        ({
            let after = app.configured(new_size);
            let requests = app.configure_requests(new_size);
            let (width, height) = (after.size.width, after.size.height);
            &&& new_size.0 > 0 ==> width == new_size.0
            &&& new_size.1 > 0 ==> height == new_size.1
            &&& new_size.0 == 0 ==> width == LAYER_W
            &&& new_size.1 == 0 ==> height == LAYER_H
            &&& !after.size.first_configure
            &&& after == App { size: after.size, ..app }
            &&& requests.len() > 0 <==> app.size != after.size
            &&& requests.len() > 0 ==> {
                &&& requests.len() == if app.has_effect {
                    6int
                } else {
                    5
                }
                &&& requests.last() == Request::Commit(Surface::Layer)
                &&& has_steps(
                    requests,
                    seq![
                        Request::DropBuffer(Surface::Layer),
                        Request::Paint(TintedSurface::Layer, shape_of(width, height)),
                        Request::Damage(Surface::Layer, whole(width, height)),
                        Request::Attach(Surface::Layer),
                        Request::Commit(Surface::Layer),
                    ],
                )
                &&& app.has_effect ==> has_steps(
                    requests,
                    seq![
                        Request::SetBlur(Surface::Layer, whole(width, height)),
                        Request::Commit(Surface::Layer),
                    ],
                )
                &&& forall|i: int|
                    0 <= i < requests.len() && (#[trigger] requests[i] is SetBlur)
                        ==> app.has_effect
            }
        }),
{
    let after = app.configured(new_size);
    let requests = app.configure_requests(new_size);
    let (width, height) = (after.size.width, after.size.height);
    if requests.len() > 0 {
        let shift: int = if app.has_effect {
            1
        } else {
            0
        };
        assert(stands_at(
            requests,
            seq![
                Request::DropBuffer(Surface::Layer),
                Request::Paint(TintedSurface::Layer, shape_of(width, height)),
                Request::Damage(Surface::Layer, whole(width, height)),
                Request::Attach(Surface::Layer),
                Request::Commit(Surface::Layer),
            ],
            seq![0, 1 + shift, 2 + shift, 3 + shift, 4 + shift],
        ));
        if app.has_effect {
            assert(stands_at(
                requests,
                seq![
                    Request::SetBlur(Surface::Layer, whole(width, height)),
                    Request::Commit(Surface::Layer),
                ],
                seq![1, 5],
            ));
        }
    }
}

/// The surfaces that have one color have different ones.
pub proof fn law_tints_tell_surfaces_apart(one: TintedSurface, other: TintedSurface)
    ensures
        one != other ==> tint(one) != tint(other),
        CONTENT_TINT != SHADOW_TINT,
{
}

/// The client starts on the top layer, without popups and without a subsurface, at a scale of one,
/// and goes on until it is asked to end.
pub proof fn law_start_and_end(app: App, has_effect: bool)
    ensures
        App::initial(has_effect).current_layer == Layer::Top,
        App::initial(has_effect).parent_popup is None,
        App::initial(has_effect).child_popup is None,
        !App::initial(has_effect).subsurface,
        !App::initial(has_effect).exit,
        App::initial(has_effect).has_effect == has_effect,
        App::initial(has_effect).popup.scale == 1,
        App::initial(has_effect).popup.wf(),
        App::initial(has_effect).size.first_configure,
        app.ending().exit,
        app.ending() == (App { exit: app.ending().exit, ..app }),
{
}

/// A group of pointer events is handled event by event, in order: a single event is handled as
/// such, and of two groups the second finds the client as the first has left it.
pub proof fn law_groups_are_handled_in_order(
    app: App,
    event: PointerEvent,
    first: Seq<PointerEvent>,
    second: Seq<PointerEvent>,
)
    ensures
        app.pointed_all(Seq::empty()) == app,
        app.events_requests(Seq::empty()) == Seq::<Request>::empty(),
        app.pointed_all(seq![event]) == app.pointed(event),
        app.events_requests(seq![event]) == app.event_requests(event),
        app.pointed_all(first + second) == app.pointed_all(first).pointed_all(second),
        app.events_requests(first + second) == app.events_requests(first) + app.pointed_all(
            first,
        ).events_requests(second),
    decreases second.len(),
{
    assert(app.pointed_all(Seq::empty()) == app);
    assert(app.events_requests(Seq::empty()) =~= Seq::<Request>::empty());
    assert(seq![event].drop_last() =~= Seq::<PointerEvent>::empty());
    assert(app.pointed_all(seq![event]) == app.pointed(event));
    assert(app.events_requests(seq![event]) =~= app.event_requests(event));
    if second.len() == 0 {
        assert(first + second =~= first);
        assert(app.events_requests(first) + app.pointed_all(first).events_requests(second)
            =~= app.events_requests(first));
    } else {
        law_groups_are_handled_in_order(app, event, first, second.drop_last());
        assert((first + second).drop_last() =~= first + second.drop_last());
        assert((first + second).last() == second.last());
        assert(app.events_requests(first + second) =~= app.events_requests(first)
            + app.pointed_all(first).events_requests(second));
    }
}

/// Every pixel of the parent popup's painted buffer has the color of its place, in rows of the
/// scaled width; every pixel of another surface has that surface's tint.
pub proof fn law_pixels_have_their_place(
    params: PopupParams,
    surface: TintedSurface,
    before: Seq<u8>,
    after: Seq<u8>,
    px: u32,
    py: u32,
)
    requires
        px < params.surface_w * params.scale <= u32::MAX,
        4 * (py * (params.surface_w * params.scale) + px) + 4 <= before.len(),
        py * (params.surface_w * params.scale) + px <= u32::MAX,
    ensures
        parent_painted(params, before, after) ==> pixel_at(
            after,
            py * (params.surface_w * params.scale) + px,
        ) == params.color_at(px, py),
        tint_painted(surface, before, after) ==> pixel_at(
            after,
            py * (params.surface_w * params.scale) + px,
        ) == tint(surface),
{
    let width = (params.surface_w * params.scale) as u32;
    law_row_and_column_of_index(px as int, py as int, width);
    assert(0 <= py * width + px < pixel_count(before));
}

/// The parameters can be drawn exactly if there is a shape of the scaled surface; a key is refused
/// for what it leads to only where that has no such shape and the parent popup is to be drawn, or
/// where a wider inset leaves no representable surface.
pub proof fn law_only_excess_is_refused(app: App, keysym: u32)
    requires
        app.wf(),
    ensures
        app.popup.drawable() <==> exists|shape: BufferShape| #[trigger]
            shape.is_exact(
                app.popup.surface_w * app.popup.scale,
                app.popup.surface_h * app.popup.scale,
            ),
        !app.accepts_key(keysym) ==> {
            ||| keysym == KEY_R && 2 * (app.popup.inset + 5) + 10 > u32::MAX
            ||| is_configured(app.parent_popup) && !app.pressed(keysym).popup.drawable()
        },
        app.popup.adjusted(keysym) is None ==> app.accepts_key(keysym),
{
    let width = app.popup.surface_w * app.popup.scale;
    let height = app.popup.surface_h * app.popup.scale;
    assert(0 <= width && 0 <= height) by (nonlinear_arith)
        requires
            width == app.popup.surface_w * app.popup.scale,
            height == app.popup.surface_h * app.popup.scale,
    ;
    if app.popup.drawable() {
        assert(shape_of(width as u32, height as u32).is_exact(width, height));
    }
}

/// A subsurface can be placed exactly if there is a position with the click in its center.
pub proof fn law_placeable_clicks(click_x: i32, click_y: i32)
    ensures
        placeable(click_x, click_y) <==> exists|x: i32, y: i32| #[trigger]
            is_centered(x, y, click_x, click_y),
{
    if placeable(click_x, click_y) {
        assert(is_centered((click_x - 100) as i32, (click_y - 100) as i32, click_x, click_y));
    }
}

/// A subsurface at this position has the click in its center.
pub open spec fn is_centered(x: i32, y: i32, click_x: i32, click_y: i32) -> bool {
    &&& click_x - x == x + 200 - click_x
    &&& click_y - y == y + 200 - click_y
}

/// A parent popup that is configured again is shown again, but its child is not opened again. A
/// configure event changes nothing but the popups.
pub proof fn law_children_open_once(app: App, popup: Option<PopupRole>)
    ensures
        ({
            let after = app.popup_configured(popup);
            let requests = app.popup_configure_requests(popup);
            &&& app.child_popup is Some ==> {
                &&& forall|i: int|
                    0 <= i < requests.len() ==> !(#[trigger] requests[i] is CreateChildPopup)
                &&& after.child_popup is Some
                &&& popup != Some(PopupRole::Child) ==> after.child_popup == app.child_popup
            }
            &&& popup != Some(PopupRole::Parent) ==> after.parent_popup == app.parent_popup
            &&& after.parent_popup is Some <==> app.parent_popup is Some
            &&& after == App {
                parent_popup: after.parent_popup,
                child_popup: after.child_popup,
                ..app
            }
        }),
{
}

/// Opening what is open, creating what is there and destroying what is not there ask for nothing
/// and change nothing, and a child popup is never opened without a parent.
pub proof fn law_nothing_is_done_twice(app: App, x: i32, y: i32)
    ensures
        app.parent_popup is Some ==> app.open_popups_requests().len() == 0 && app.parent_opened()
            == app,
        app.parent_popup is None ==> app.open_popups_requests().len() > 0
            && app.parent_opened().parent_popup is Some,
        app.child_popup is Some || app.parent_popup is None ==> app.open_child_requests().len() == 0
            && app.child_opened() == app,
        app.child_popup is None && app.parent_popup is Some ==> app.open_child_requests().len() > 0
            && app.child_opened().child_popup is Some,
        app.subsurface ==> app.create_subsurface_requests(x, y).len() == 0,
        !app.subsurface ==> app.destroy_subsurface_requests().len() == 0,
        app.parent_popup is None && app.child_popup is None ==> app.close_requests() == seq![
            Request::AnnounceClosed,
        ],
        app.closed_popups().closed_popups() == app.closed_popups(),
        app.parent_popup is None ==> app.update_requests().len() == 0,
{
    if app.parent_popup is None && app.child_popup is None {
        assert(app.close_requests() =~= seq![Request::AnnounceClosed]);
    }
}

} // verus!
