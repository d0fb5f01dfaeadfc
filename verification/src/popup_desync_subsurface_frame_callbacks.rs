//! A popup whose desynchronized subsurface animates on its own frame callbacks. After the setup
//! nothing but the subsurface is committed. A left click or Space opens and closes the popup.

use vstd::arithmetic::div_mod::lemma_add_mod_noop;
use vstd::prelude::*;

use crate::canvas::{
    column, law_row_and_column_of_index, painted, pixel_at, pixel_count, put_pixel, row, same_rest,
};
use crate::geometry::{
    buffer_shape, shape_of, side_or, whole, whole_rect, BufferShape, Rect, SurfaceSize,
};
use crate::keys::{BUTTON_LEFT, KEY_ESCAPE, KEY_Q, KEY_SPACE};
use crate::positioner::{placed_at, Edge, Positioner};
use crate::seat::{Devices, PointerEvent};
use crate::steps::{has_steps, once, stands_at};

verus! {

pub const WINDOW_W: u32 = 400;

pub const WINDOW_H: u32 = 300;

pub const POPUP_W: u32 = 240;

pub const POPUP_H: u32 = 160;

pub const SUB_X: i32 = 20;

pub const SUB_Y: i32 = 20;

pub const SUB_W: u32 = 200;

pub const SUB_H: u32 = 120;

/// The width of the stripe that moves over the subsurface.
pub const STRIPE_W: u32 = 32;

/// The number of pixels by which the stripe moves with each frame.
pub const STRIPE_STEP: u32 = 3;

pub const WINDOW_DARK: u32 = 0xFF28_2828;

pub const WINDOW_LIGHT: u32 = 0xFF38_3838;

pub const POPUP_COLOR: u32 = 0xFFD0_D0D0;

pub const POPUP_HOLE_COLOR: u32 = 0xFF10_1010;

pub const STRIPE_COLOR: u32 = 0xFFFF_B020;

pub const SUB_DARK: u32 = 0xFF20_50A0;

pub const SUB_LIGHT: u32 = 0xFF30_70D0;

/// The field of a checkerboard at `(x, y)` has the color of the one at the origin.
pub open spec fn even_field(x: u32, y: u32, side: u32) -> bool {
    (x / side + y / side) % 2 == 0
}

/// The executable form of [`even_field`].
fn is_even_field(x: u32, y: u32, side: u32) -> (even: bool)
    requires
        side >= 2,
    ensures
        even == even_field(x, y, side),
{
    assert(x / side <= 0x7FFF_FFFF && y / side <= 0x7FFF_FFFF) by (nonlinear_arith)
        requires
            side >= 2,
    ;
    (x / side + y / side) % 2 == 0
}

/// The color of the window at `(x, y)`.
pub open spec fn window_color(x: u32, y: u32) -> u32 {
    if even_field(x, y, 32) {
        WINDOW_DARK
    } else {
        WINDOW_LIGHT
    }
}

/// Where the subsurface goes on the popup.
pub open spec fn sub_rect() -> Rect {
    Rect { x: SUB_X, y: SUB_Y, width: SUB_W as i32, height: SUB_H as i32 }
}

/// The color of the popup at `(x, y)`: there is a hole behind the subsurface.
pub open spec fn popup_color(x: u32, y: u32) -> u32 {
    if sub_rect().has_point(x as int, y as int) {
        POPUP_HOLE_COLOR
    } else {
        POPUP_COLOR
    }
}

/// The column in which the stripe of a frame begins.
pub open spec fn stripe_start(frame: u32) -> u32 {
    frame % SUB_W
}

/// The stripe of a frame covers column `x`. A stripe that leaves the subsurface on the right comes
/// in again on the left.
pub open spec fn in_stripe(x: u32, frame: u32) -> bool {
    (x + SUB_W - stripe_start(frame)) % (SUB_W as int) < STRIPE_W
}

/// The color of the subsurface at `(x, y)` in a frame.
pub open spec fn sub_color(x: u32, y: u32, frame: u32) -> u32 {
    if in_stripe(x, frame) {
        STRIPE_COLOR
    } else if even_field(x, y, 20) {
        SUB_DARK
    } else {
        SUB_LIGHT
    }
}

/// The window is painted in rows of `width` pixels.
pub open spec fn window_painted(before: Seq<u8>, after: Seq<u8>, width: u32) -> bool {
    painted(before, after, |i: int| window_color(column(i, width), row(i, width)))
}

/// The popup is painted.
pub open spec fn popup_painted(before: Seq<u8>, after: Seq<u8>) -> bool {
    painted(before, after, |i: int| popup_color(column(i, POPUP_W), row(i, POPUP_W)))
}

/// A frame of the subsurface is painted.
pub open spec fn frame_painted(before: Seq<u8>, after: Seq<u8>, frame: u32) -> bool {
    painted(before, after, |i: int| sub_color(column(i, SUB_W), row(i, SUB_W), frame))
}

/// Paints the window in rows of `width` pixels.
pub fn paint_window(canvas: &mut [u8], width: u32)
    requires
        width > 0 || old(canvas)@.len() < 4,
    ensures
        window_painted(old(canvas)@, final(canvas)@, width),
{
    let count: usize = canvas.len() / 4;
    let ghost before = canvas@;
    let mut i: usize = 0;
    while i < count
        invariant
            i <= count,
            count == pixel_count(before),
            count > 0 ==> width > 0,
            same_rest(before, canvas@),
            forall|k: int|
                0 <= k < i ==> #[trigger] pixel_at(canvas@, k) == window_color(
                    column(k, width),
                    row(k, width),
                ),
        decreases count - i,
    {
        let x: u32 = i as u32 % width;
        let y: u32 = i as u32 / width;
        let color: u32 = if is_even_field(x, y, 32) {
            WINDOW_DARK
        } else {
            WINDOW_LIGHT
        };
        put_pixel(canvas, i, color);
        i += 1;
    }
}

/// Paints the popup.
pub fn paint_popup(canvas: &mut [u8])
    ensures
        popup_painted(old(canvas)@, final(canvas)@),
{
    let count: usize = canvas.len() / 4;
    let ghost before = canvas@;
    let mut i: usize = 0;
    while i < count
        invariant
            i <= count,
            count == pixel_count(before),
            same_rest(before, canvas@),
            forall|k: int|
                0 <= k < i ==> #[trigger] pixel_at(canvas@, k) == popup_color(
                    column(k, POPUP_W),
                    row(k, POPUP_W),
                ),
        decreases count - i,
    {
        let x: u32 = i as u32 % POPUP_W;
        let y: u32 = i as u32 / POPUP_W;
        let in_child = x >= SUB_X as u32 && x < SUB_X as u32 + SUB_W && y >= SUB_Y as u32 && y
            < SUB_Y as u32 + SUB_H;
        let color: u32 = if in_child {
            POPUP_HOLE_COLOR
        } else {
            POPUP_COLOR
        };
        put_pixel(canvas, i, color);
        i += 1;
    }
}

/// Paints a frame of the subsurface.
pub fn paint_subsurface(canvas: &mut [u8], frame: u32)
    ensures
        frame_painted(old(canvas)@, final(canvas)@, frame),
{
    let count: usize = canvas.len() / 4;
    let stripe_x: u32 = frame % SUB_W;
    let ghost before = canvas@;
    let mut i: usize = 0;
    while i < count
        invariant
            i <= count,
            count == pixel_count(before),
            stripe_x == stripe_start(frame),
            same_rest(before, canvas@),
            forall|k: int|
                0 <= k < i ==> #[trigger] pixel_at(canvas@, k) == sub_color(
                    column(k, SUB_W),
                    row(k, SUB_W),
                    frame,
                ),
        decreases count - i,
    {
        let x: u32 = i as u32 % SUB_W;
        let y: u32 = i as u32 / SUB_W;
        let stripe_distance: u32 = (x + SUB_W - stripe_x) % SUB_W;
        let color: u32 = if stripe_distance < STRIPE_W {
            STRIPE_COLOR
        } else if is_even_field(x, y, 20) {
            SUB_DARK
        } else {
            SUB_LIGHT
        };
        put_pixel(canvas, i, color);
        i += 1;
    }
}

/// What there is to say about the popup.
#[derive(Clone, Copy, Debug, PartialEq, Eq, Structural)]
pub enum Notice {
    Opened,
    Configured,
    Closed,
}

/// What the client asks of the compositor, and of its buffer pool, in order.
#[derive(Clone, Copy, Debug, PartialEq, Eq, Structural)]
pub enum Request {
    /// Forget the window's buffer, whose size is out of date.
    DropWindowBuffer,
    /// Get a canvas of this shape and paint the window on it.
    PaintWindow(BufferShape),
    DamageWindow(Rect),
    AttachWindow,
    CommitWindow,
    /// Create a popup of the window.
    CreatePopup(Positioner),
    SetPopupGeometry(Rect),
    /// Get a canvas of this shape and paint the popup on it.
    PaintPopup(BufferShape),
    DamagePopup(Rect),
    AttachPopup,
    CommitPopup,
    DestroyPopup,
    /// Create a subsurface of the popup.
    CreateSubsurface,
    SetSubsurfacePosition(i32, i32),
    /// Let the subsurface commit independently of the popup.
    DesyncSubsurface,
    /// Get a canvas of this shape from one of the two buffers and paint a frame on it.
    PaintSubsurface { buffer: usize, shape: BufferShape, frame: u32 },
    /// Attach one of the two buffers.
    AttachSubsurface { buffer: usize },
    DamageSubsurface(Rect),
    /// Ask for a frame callback of the subsurface.
    FrameSubsurface,
    CommitSubsurface,
    /// Destroy the subsurface role object.
    DestroySubsurface,
    /// Destroy the surface that had the role.
    DestroySubsurfaceSurface,
    Announce(Notice),
}

/// The request changes the state of no surface but the subsurface.
pub open spec fn only_subsurface(request: Request) -> bool {
    ||| request is PaintSubsurface
    ||| request is AttachSubsurface
    ||| request is DamageSubsurface
    ||| request is FrameSubsurface
    ||| request is CommitSubsurface
}

/// The animation of the subsurface.
#[derive(Clone, Copy, Debug, PartialEq, Eq, Structural)]
pub struct AnimatedSubsurface {
    /// The one of the two buffers that the next frame goes to.
    pub current_buffer: usize,
    /// The position of the animation, which wraps around.
    pub frame: u32,
}

impl AnimatedSubsurface {
    pub open spec fn initial() -> AnimatedSubsurface {
        AnimatedSubsurface { current_buffer: 0, frame: 0 }
    }

    /// There are two buffers.
    pub open spec fn wf(self) -> bool {
        self.current_buffer < 2
    }

    /// The animation after a frame was submitted.
    pub open spec fn advanced(self) -> AnimatedSubsurface {
        AnimatedSubsurface {
            current_buffer: (1 - self.current_buffer) as usize,
            frame: self.frame.wrapping_add(STRIPE_STEP),
        }
    }

    /// The animation after `count` frames were submitted.
    pub open spec fn advanced_by(self, count: nat) -> AnimatedSubsurface
        decreases count,
    {
        if count == 0 {
            self
        } else {
            self.advanced_by((count - 1) as nat).advanced()
        }
    }

    /// What submits a frame.
    pub open spec fn submit_requests(self) -> Seq<Request> {
        seq![
            Request::PaintSubsurface {
                buffer: self.current_buffer,
                shape: shape_of(SUB_W, SUB_H),
                frame: self.frame,
            },
            Request::AttachSubsurface { buffer: self.current_buffer },
            Request::DamageSubsurface(whole(SUB_W, SUB_H)),
            Request::FrameSubsurface,
            Request::CommitSubsurface,
        ]
    }
}

/// An open popup.
#[derive(Clone, Copy, Debug, PartialEq, Eq, Structural)]
pub struct PopupState {
    /// The subsurface, once the popup has been configured.
    pub subsurface: Option<AnimatedSubsurface>,
}

#[derive(Clone, Copy, Debug, PartialEq, Eq)]
pub struct App {
    pub exit: bool,
    pub size: SurfaceSize,
    pub devices: Devices,
    /// Where the next popup opens: the last pointer position on the window.
    pub popup_position: (i32, i32),
    pub popup: Option<PopupState>,
}

impl App {
    /// The client before any event.
    pub open spec fn initial() -> App {
        App {
            exit: false,
            size: SurfaceSize::initial(WINDOW_W, WINDOW_H),
            devices: Devices::none(),
            popup_position: ((WINDOW_W / 2) as i32, (WINDOW_H / 2) as i32),
            popup: None,
        }
    }

    /// The window's size is one that can be drawn, and an animation is in a valid state.
    pub open spec fn wf(self) -> bool {
        &&& self.size.is_drawable()
        &&& self.animates() ==> self.animation().wf()
    }

    /// There is an animated subsurface.
    pub open spec fn animates(self) -> bool {
        self.popup is Some && self.popup->0.subsurface is Some
    }

    pub open spec fn animation(self) -> AnimatedSubsurface {
        self.popup->0.subsurface->0
    }

    /// The client with an animated subsurface on its popup.
    pub open spec fn with_animation(self, animation: AnimatedSubsurface) -> App {
        App { popup: Some(PopupState { subsurface: Some(animation) }), ..self }
    }

    pub open spec fn draw_window_requests(self) -> Seq<Request> {
        let width = self.size.width;
        let height = self.size.height;
        seq![
            Request::PaintWindow(shape_of(width, height)),
            Request::DamageWindow(whole(width, height)),
            Request::AttachWindow,
            Request::CommitWindow,
        ]
    }

    /// The client with the size that a configure event leads to.
    pub open spec fn configured(self, suggested: (Option<u32>, Option<u32>)) -> App {
        App {
            size: SurfaceSize::settled(
                side_or(suggested.0, WINDOW_W),
                side_or(suggested.1, WINDOW_H),
            ),
            ..self
        }
    }

    pub open spec fn configure_requests(self, suggested: (Option<u32>, Option<u32>)) -> Seq<
        Request,
    > {
        let settled = self.configured(suggested);
        if self.size.calls_for_redraw(settled.size.width, settled.size.height) {
            seq![Request::DropWindowBuffer] + settled.draw_window_requests()
        } else {
            seq![]
        }
    }

    pub open spec fn open_requests(self) -> Seq<Request> {
        seq![
            Request::CreatePopup(
                placed_at(
                    POPUP_W as i32,
                    POPUP_H as i32,
                    self.popup_position.0,
                    self.popup_position.1,
                    Edge::Bottom,
                ),
            ),
            Request::SetPopupGeometry(whole(POPUP_W, POPUP_H)),
            Request::Announce(Notice::Opened),
        ]
    }

    /// The client with a popup that waits for its configure event.
    pub open spec fn opened(self) -> App {
        App { popup: Some(PopupState { subsurface: None }), ..self }
    }

    /// What closes the popup, if there is one.
    pub open spec fn close_requests(self) -> Seq<Request> {
        if self.popup is Some {
            (if self.animates() {
                seq![Request::DestroySubsurface, Request::DestroySubsurfaceSurface]
            } else {
                seq![]
            }) + seq![Request::Announce(Notice::Closed), Request::DestroyPopup]
        } else {
            seq![]
        }
    }

    pub open spec fn closed(self) -> App {
        App { popup: None, ..self }
    }

    pub open spec fn toggle_requests(self) -> Seq<Request> {
        if self.popup is Some {
            self.close_requests()
        } else {
            self.open_requests()
        }
    }

    pub open spec fn toggled(self) -> App {
        if self.popup is Some {
            self.closed()
        } else {
            self.opened()
        }
    }

    pub open spec fn draw_popup_requests() -> Seq<Request> {
        seq![
            Request::PaintPopup(shape_of(POPUP_W, POPUP_H)),
            Request::DamagePopup(whole(POPUP_W, POPUP_H)),
            Request::AttachPopup,
            Request::CommitPopup,
        ]
    }

    pub open spec fn create_requests() -> Seq<Request> {
        seq![
            Request::CreateSubsurface,
            Request::SetSubsurfacePosition(SUB_X, SUB_Y),
            Request::DesyncSubsurface,
        ] + AnimatedSubsurface::initial().submit_requests()
    }

    /// What sets the popup up. Its last commit is the one that applies the subsurface's position.
    pub open spec fn setup_requests() -> Seq<Request> {
        App::draw_popup_requests() + App::create_requests() + seq![
            Request::CommitPopup,
            Request::Announce(Notice::Configured),
        ]
    }

    /// The client with the popup set up and its first frame submitted.
    pub open spec fn set_up(self) -> App {
        self.with_animation(AnimatedSubsurface::initial().advanced())
    }

    /// A configure event of the popup sets it up: it is the popup that is open, and it has not been
    /// set up before.
    pub open spec fn needs_setup(self, own_popup: bool) -> bool {
        own_popup && self.popup is Some && !self.animates()
    }

    pub open spec fn popup_configured(self, own_popup: bool) -> App {
        if self.needs_setup(own_popup) {
            self.set_up()
        } else {
            self
        }
    }

    pub open spec fn configure_popup_requests(self, own_popup: bool) -> Seq<Request> {
        if self.needs_setup(own_popup) {
            App::setup_requests()
        } else {
            seq![]
        }
    }

    /// The client after a frame callback.
    pub open spec fn framed(self, own_subsurface: bool) -> App {
        if own_subsurface && self.animates() {
            self.with_animation(self.animation().advanced())
        } else {
            self
        }
    }

    pub open spec fn frame_requests(self, own_subsurface: bool) -> Seq<Request> {
        if own_subsurface && self.animates() {
            self.animation().submit_requests()
        } else {
            seq![]
        }
    }

    /// The client after a key press.
    pub open spec fn pressed(self, keysym: u32) -> App {
        if keysym == KEY_SPACE {
            self.toggled()
        } else if keysym == KEY_Q || keysym == KEY_ESCAPE {
            App { exit: true, ..self }
        } else {
            self
        }
    }

    pub open spec fn key_requests(self, keysym: u32) -> Seq<Request> {
        if keysym == KEY_SPACE {
            self.toggle_requests()
        } else {
            seq![]
        }
    }

    /// The client with the pointer's position, if it is on the window.
    pub open spec fn followed(self, event: PointerEvent) -> App {
        if event.own_surface {
            App { popup_position: event.position, ..self }
        } else {
            self
        }
    }

    /// The client after a pointer event.
    pub open spec fn pointed(self, event: PointerEvent) -> App {
        if event.is_press(BUTTON_LEFT) {
            self.followed(event).toggled()
        } else {
            self.followed(event)
        }
    }

    pub open spec fn event_requests(self, event: PointerEvent) -> Seq<Request> {
        if event.is_press(BUTTON_LEFT) {
            self.followed(event).toggle_requests()
        } else {
            seq![]
        }
    }

    /// The client after a sequence of pointer events.
    pub open spec fn pointed_all(self, events: Seq<PointerEvent>) -> App
        decreases events.len(),
    {
        if events.len() == 0 {
            self
        } else {
            self.pointed_all(events.drop_last()).pointed(events.last())
        }
    }

    pub open spec fn events_requests(self, events: Seq<PointerEvent>) -> Seq<Request>
        decreases events.len(),
    {
        if events.len() == 0 {
            seq![]
        } else {
            self.events_requests(events.drop_last()) + self.pointed_all(
                events.drop_last(),
            ).event_requests(events.last())
        }
    }

    /// The client after the compositor dismissed a popup.
    pub open spec fn dismissed(self, own_popup: bool) -> App {
        if own_popup {
            self.closed()
        } else {
            self
        }
    }

    pub open spec fn dismiss_requests(self, own_popup: bool) -> Seq<Request> {
        if own_popup {
            self.close_requests()
        } else {
            seq![]
        }
    }

    /// The client that is to end.
    pub open spec fn ending(self) -> App {
        App { exit: true, ..self }
    }

    pub fn new() -> (app: App)
        ensures
            app == App::initial(),
            app.wf(),
    {
        App {
            exit: false,
            size: SurfaceSize::new(WINDOW_W, WINDOW_H),
            devices: Devices::new(),
            popup_position: (WINDOW_W as i32 / 2, WINDOW_H as i32 / 2),
            popup: None,
        }
    }

    /// Paints and shows the whole window.
    pub fn draw_window(&self, requests: &mut Vec<Request>)
        requires
            self.wf(),
        ensures
            final(requests)@ == old(requests)@ + self.draw_window_requests(),
    {
        let width: u32 = self.size.width;
        let height: u32 = self.size.height;
        requests.push(Request::PaintWindow(buffer_shape(width, height)));
        requests.push(Request::DamageWindow(whole_rect(width, height)));
        requests.push(Request::AttachWindow);
        requests.push(Request::CommitWindow);
    }

    /// Closes the popup, or opens one.
    pub fn toggle_popup(&mut self, requests: &mut Vec<Request>)
        requires
            old(self).wf(),
        ensures
            final(self).wf(),
            *final(self) == old(self).toggled(),
            final(requests)@ == old(requests)@ + old(self).toggle_requests(),
    {
        if self.popup.is_some() {
            self.close_popup(requests);
        } else {
            self.open_popup(requests);
        }
    }

    /// Opens a popup below the last pointer position.
    pub fn open_popup(&mut self, requests: &mut Vec<Request>)
        ensures
            *final(self) == old(self).opened(),
            final(requests)@ == old(requests)@ + old(self).open_requests(),
    {
        let positioner = Positioner::at_point(
            POPUP_W as i32,
            POPUP_H as i32,
            self.popup_position.0,
            self.popup_position.1,
            Edge::Bottom,
        );
        requests.push(Request::CreatePopup(positioner));
        requests.push(Request::SetPopupGeometry(whole_rect(POPUP_W, POPUP_H)));
        self.popup = Some(PopupState { subsurface: None });
        requests.push(Request::Announce(Notice::Opened));
    }

    /// Sets the popup up and submits the first frame of its subsurface.
    pub fn configure_popup(&mut self, requests: &mut Vec<Request>)
        requires
            old(self).wf(),
            old(self).popup is Some,
        ensures
            final(self).wf(),
            *final(self) == old(self).set_up(),
            final(requests)@ == old(requests)@ + App::setup_requests(),
    {
        self.draw_popup_once(requests);
        self.create_animated_subsurface(requests);
        // Apply the new subsurface's position. After this setup commit, the popup
        // parent is never committed again; animation commits only the desync child.
        requests.push(Request::CommitPopup);
        requests.push(Request::Announce(Notice::Configured));
    }

    /// Paints and shows the popup.
    pub fn draw_popup_once(&self, requests: &mut Vec<Request>)
        ensures
            final(requests)@ == old(requests)@ + App::draw_popup_requests(),
    {
        requests.push(Request::PaintPopup(buffer_shape(POPUP_W, POPUP_H)));
        requests.push(Request::DamagePopup(whole_rect(POPUP_W, POPUP_H)));
        requests.push(Request::AttachPopup);
        requests.push(Request::CommitPopup);
    }

    /// Creates the popup's subsurface and submits its first frame.
    pub fn create_animated_subsurface(&mut self, requests: &mut Vec<Request>)
        requires
            old(self).wf(),
            old(self).popup is Some,
        ensures
            final(self).wf(),
            *final(self) == old(self).set_up(),
            final(requests)@ == old(requests)@ + App::create_requests(),
    {
        requests.push(Request::CreateSubsurface);
        requests.push(Request::SetSubsurfacePosition(SUB_X, SUB_Y));
        requests.push(Request::DesyncSubsurface);
        self.popup =
        Some(PopupState { subsurface: Some(AnimatedSubsurface { current_buffer: 0, frame: 0 }) });
        self.submit_subsurface_frame(requests);
    }

    /// Submits the next frame of the subsurface and asks for the callback after which the one that
    /// follows is due.
    pub fn submit_subsurface_frame(&mut self, requests: &mut Vec<Request>)
        requires
            old(self).wf(),
            old(self).animates(),
        ensures
            final(self).wf(),
            *final(self) == old(self).with_animation(old(self).animation().advanced()),
            final(requests)@ == old(requests)@ + old(self).animation().submit_requests(),
    {
        if let Some(popup) = self.popup {
            if let Some(child) = popup.subsurface {
                let buffer: usize = child.current_buffer;
                requests.push(
                    Request::PaintSubsurface {
                        buffer,
                        shape: buffer_shape(SUB_W, SUB_H),
                        frame: child.frame,
                    },
                );
                requests.push(Request::AttachSubsurface { buffer });
                requests.push(Request::DamageSubsurface(whole_rect(SUB_W, SUB_H)));
                requests.push(Request::FrameSubsurface);
                requests.push(Request::CommitSubsurface);
                let advanced = AnimatedSubsurface {
                    current_buffer: 1 - buffer,
                    frame: child.frame.wrapping_add(STRIPE_STEP),
                };
                self.popup = Some(PopupState { subsurface: Some(advanced) });
            }
        }
    }

    /// Closes the popup, if there is one.
    pub fn close_popup(&mut self, requests: &mut Vec<Request>)
        ensures
            *final(self) == old(self).closed(),
            final(requests)@ == old(requests)@ + old(self).close_requests(),
    {
        if let Some(popup) = self.popup {
            if popup.subsurface.is_some() {
                requests.push(Request::DestroySubsurface);
                requests.push(Request::DestroySubsurfaceSurface);
            }
            requests.push(Request::Announce(Notice::Closed));
            requests.push(Request::DestroyPopup);
            self.popup = None;
        }
    }

    /// Handles a frame callback, of which only those of the present subsurface count.
    pub fn frame(&mut self, own_subsurface: bool) -> (requests: Vec<Request>)
        requires
            old(self).wf(),
        ensures
            final(self).wf(),
            *final(self) == old(self).framed(own_subsurface),
            requests@ == old(self).frame_requests(own_subsurface),
    {
        let mut requests: Vec<Request> = Vec::new();
        let animates = match self.popup {
            Some(popup) => popup.subsurface.is_some(),
            None => false,
        };
        if own_subsurface && animates {
            self.submit_subsurface_frame(&mut requests);
        }
        requests
    }

    /// The compositor asks the window to close.
    pub fn request_close(&mut self)
        ensures
            *final(self) == old(self).ending(),
    {
        self.exit = true;
    }

    /// Handles a configure event of the window, which is drawn again on the first one and on a new
    /// size.
    pub fn configure(&mut self, suggested: (Option<u32>, Option<u32>)) -> (requests: Vec<Request>)
        requires
            old(self).configured(suggested).wf(),
        ensures
            final(self).wf(),
            *final(self) == old(self).configured(suggested),
            requests@ == old(self).configure_requests(suggested),
    {
        let mut requests: Vec<Request> = Vec::new();
        if self.size.configure(suggested, (WINDOW_W, WINDOW_H)) {
            requests.push(Request::DropWindowBuffer);
            self.draw_window(&mut requests);
        }
        requests
    }

    /// Handles a configure event of a popup: the open popup is set up once.
    pub fn popup_configure(&mut self, own_popup: bool) -> (requests: Vec<Request>)
        requires
            old(self).wf(),
        ensures
            final(self).wf(),
            *final(self) == old(self).popup_configured(own_popup),
            requests@ == old(self).configure_popup_requests(own_popup),
    {
        let mut requests: Vec<Request> = Vec::new();
        let needs_setup = match self.popup {
            Some(popup) => own_popup && popup.subsurface.is_none(),
            None => false,
        };
        if needs_setup {
            self.configure_popup(&mut requests);
        }
        requests
    }

    /// The compositor dismisses a popup.
    pub fn done(&mut self, own_popup: bool) -> (requests: Vec<Request>)
        ensures
            *final(self) == old(self).dismissed(own_popup),
            requests@ == old(self).dismiss_requests(own_popup),
    {
        let mut requests: Vec<Request> = Vec::new();
        if own_popup {
            self.close_popup(&mut requests);
        }
        requests
    }

    /// Handles a key press.
    pub fn press_key(&mut self, keysym: u32) -> (requests: Vec<Request>)
        requires
            old(self).wf(),
        ensures
            final(self).wf(),
            *final(self) == old(self).pressed(keysym),
            requests@ == old(self).key_requests(keysym),
    {
        let mut requests: Vec<Request> = Vec::new();
        match keysym {
            KEY_SPACE => self.toggle_popup(&mut requests),
            KEY_Q | KEY_ESCAPE => self.exit = true,
            _ => {},
        }
        requests
    }

    /// Handles a group of pointer events: the popup's position follows the pointer on the window,
    /// and a left click toggles the popup.
    pub fn pointer_frame(&mut self, events: &[PointerEvent]) -> (requests: Vec<Request>)
        requires
            old(self).wf(),
        ensures
            final(self).wf(),
            *final(self) == old(self).pointed_all(events@),
            requests@ == old(self).events_requests(events@),
    {
        let ghost start = *self;
        let mut requests: Vec<Request> = Vec::new();
        let mut i: usize = 0;
        while i < events.len()
            invariant
                i <= events@.len(),
                self.wf(),
                *self == start.pointed_all(events@.take(i as int)),
                requests@ == start.events_requests(events@.take(i as int)),
            decreases events@.len() - i,
        {
            let event = &events[i];
            assert(events@.take(i + 1).drop_last() =~= events@.take(i as int));
            if event.own_surface {
                self.popup_position = event.position;
            }
            if let Some(button) = event.pressed_button() {
                assert(event.is_press(button));
                if button == BUTTON_LEFT {
                    self.toggle_popup(&mut requests);
                }
            }
            i += 1;
        }
        assert(events@.take(i as int) =~= events@);
        requests
    }
}

/// Once the popup has been set up, only the subsurface is committed: frame callbacks touch no other
/// surface, and further configure events of the popup do nothing.
pub proof fn law_only_the_subsurface_is_committed(app: App, own: bool, request: Request)
    requires
        app.animates(),
    ensures
        app.frame_requests(own).contains(request) ==> only_subsurface(request),
        app.configure_popup_requests(own) =~= seq![],
        app.popup_configured(own) == app,
        app.framed(own).animates(),
{
}

/// Nothing but the setup commits the popup: no frame callback, key press, pointer event, configure
/// event of the window or dismissal does, whatever the state of the client.
pub proof fn law_only_the_setup_commits_the_popup(
    app: App,
    own: bool,
    keysym: u32,
    event: PointerEvent,
    suggested: (Option<u32>, Option<u32>),
)
    ensures
        !app.frame_requests(own).contains(Request::CommitPopup),
        !app.key_requests(keysym).contains(Request::CommitPopup),
        !app.event_requests(event).contains(Request::CommitPopup),
        !app.configure_requests(suggested).contains(Request::CommitPopup),
        !app.close_requests().contains(Request::CommitPopup),
        app.configure_popup_requests(own).contains(Request::CommitPopup) <==> app.needs_setup(own),
{
    if app.needs_setup(own) {
        assert(app.configure_popup_requests(own)[3] == Request::CommitPopup);
    }
}

/// The last commit of the setup is the popup's, after its subsurface was positioned and had its
/// first frame.
pub proof fn law_setup_ends_with_the_parent()
    ensures
        App::setup_requests().len() == 14,
        App::setup_requests()[5] == Request::SetSubsurfacePosition(SUB_X, SUB_Y),
        App::setup_requests()[11] == Request::CommitSubsurface,
        App::setup_requests()[12] == Request::CommitPopup,
{
}

/// Every callback of the subsurface leads to a commit of it and to a request for the next callback,
/// so the animation goes on.
pub proof fn law_animation_goes_on(app: App)
    requires
        app.animates(),
    ensures
        app.frame_requests(true).contains(Request::FrameSubsurface),
        app.frame_requests(true).last() == Request::CommitSubsurface,
{
    assert(app.frame_requests(true)[3] == Request::FrameSubsurface);
}

proof fn lemma_next_frame(frame: u32, total: int)
    requires
        total >= 0,
        frame == total % 0x1_0000_0000,
    ensures
        frame.wrapping_add(STRIPE_STEP) == (total + STRIPE_STEP) % 0x1_0000_0000,
{
    lemma_add_mod_noop(total, STRIPE_STEP as int, 0x1_0000_0000);
}

/// After any number of frames the buffers have alternated and the animation is that many steps
/// further, up to the range of its counter.
pub proof fn law_frames_count(animation: AnimatedSubsurface, count: nat)
    requires
        animation.wf(),
    ensures
        animation.advanced_by(count).wf(),
        animation.advanced_by(count).current_buffer == (animation.current_buffer + count) % 2,
        animation.advanced_by(count).frame == (animation.frame + STRIPE_STEP * count) % 0x1_0000_0000,
    decreases count,
{
    if count > 0 {
        let before = (count - 1) as nat;
        law_frames_count(animation, before);
        lemma_next_frame(
            animation.advanced_by(before).frame,
            animation.frame + STRIPE_STEP * before,
        );
        assert(animation.frame + STRIPE_STEP * before + STRIPE_STEP == animation.frame + STRIPE_STEP
            * count);
    }
}

/// Two frames in a row never go to the same buffer.
pub proof fn law_frames_alternate_buffers(animation: AnimatedSubsurface)
    requires
        animation.wf(),
    ensures
        animation.advanced().wf(),
        animation.advanced().current_buffer != animation.current_buffer,
        animation.advanced().advanced().current_buffer == animation.current_buffer,
{
}

/// The hole in the popup is what the subsurface covers, and it lies within the popup.
pub proof fn law_hole_is_covered(x: u32, y: u32)
    ensures
        popup_color(x, y) == POPUP_HOLE_COLOR <==> sub_rect().has_point(x as int, y as int),
        sub_rect().has_point(x as int, y as int) ==> x < POPUP_W && y < POPUP_H,
{
}

/// From one frame to the next the stripe moves to the right by its step, and around the edge of the
/// subsurface.
#[verifier::spinoff_prover]
pub proof fn law_stripe_moves(x: u32, frame: u32)
    requires
        x < SUB_W,
        frame + STRIPE_STEP <= u32::MAX,
    ensures
        in_stripe(((x + STRIPE_STEP) % SUB_W as int) as u32, (frame + STRIPE_STEP) as u32)
            <==> in_stripe(x, frame),
{
    assert(stripe_start((frame + STRIPE_STEP) as u32) == (stripe_start(frame) + STRIPE_STEP)
        % SUB_W as int);
}

/// The stripe has the same width in every frame: it begins in its first column, and the columns
/// that it covers are those at most its width to the right of it, around the edge.
#[verifier::spinoff_prover]
pub proof fn law_stripe_columns(frame: u32, offset: u32)
    requires
        offset < SUB_W,
    ensures
        in_stripe(((stripe_start(frame) + offset) % SUB_W as int) as u32, frame) <==> offset
            < STRIPE_W,
{
}

/// Toggling twice leaves no popup where there was none, and a fresh one where there was one.
pub proof fn law_toggle_twice(app: App)
    ensures
        app.popup is None ==> app.toggled().toggled() == app,
        app.popup is Some ==> app.toggled().toggled() == app.opened(),
{
}

/// Closing a popup destroys whatever was created for it, the subsurface before its parent.
pub proof fn law_closing_undoes_opening(app: App)
    requires
        app.popup is Some,
    ensures
        app.close_requests().last() == Request::DestroyPopup,
        app.close_requests().contains(Request::DestroySubsurface) <==> app.animates(),
        app.close_requests().contains(Request::DestroySubsurfaceSurface) <==> app.animates(),
{
    if app.animates() {
        assert(app.close_requests()[0] == Request::DestroySubsurface);
        assert(app.close_requests()[1] == Request::DestroySubsurfaceSurface);
    }
}

/// A left press on the window opens a popup where there is none and closes the one that is there,
/// and so does Space; no other event or key does either.
pub proof fn law_clicks_and_space_toggle_the_popup(app: App, event: PointerEvent, keysym: u32)
    ensures
        ({
            let after = app.pointed(event);
            let requests = app.event_requests(event);
            let clicked = event.is_press(BUTTON_LEFT);
            &&& clicked ==> (after.popup is Some <==> app.popup is None)
            &&& !clicked ==> after.popup == app.popup && requests.len() == 0
            &&& requests.contains(Request::DestroyPopup) <==> clicked && app.popup is Some
            &&& (exists|i: int|
                0 <= i < requests.len() && #[trigger] requests[i] is CreatePopup) <==> clicked
                && app.popup is None
        }),
        ({
            let after = app.pressed(keysym);
            let requests = app.key_requests(keysym);
            &&& keysym == KEY_SPACE ==> (after.popup is Some <==> app.popup is None)
            &&& keysym != KEY_SPACE ==> after.popup == app.popup && requests.len() == 0
            &&& requests.contains(Request::DestroyPopup) <==> keysym == KEY_SPACE && app.popup
                is Some
            &&& (exists|i: int|
                0 <= i < requests.len() && #[trigger] requests[i] is CreatePopup) <==> keysym
                == KEY_SPACE && app.popup is None
        }),
{
    let clicks = app.event_requests(event);
    let keys = app.key_requests(keysym);
    if event.is_press(BUTTON_LEFT) {
        if app.popup is Some {
            assert(clicks[clicks.len() - 1] == Request::DestroyPopup);
        } else {
            assert(clicks[0] is CreatePopup);
        }
    }
    if keysym == KEY_SPACE {
        if app.popup is Some {
            assert(keys[keys.len() - 1] == Request::DestroyPopup);
        } else {
            assert(keys[0] is CreatePopup);
        }
    }
}

/// Two left clicks leave no popup where there was none, and a popup that waits to be set up where
/// there was one.
pub proof fn law_two_clicks(app: App, first: PointerEvent, second: PointerEvent)
    requires
        first.is_press(BUTTON_LEFT),
        second.is_press(BUTTON_LEFT),
    ensures
        app.popup is None ==> app.pointed(first).pointed(second).popup is None,
        app.popup is Some ==> {
            let after = app.pointed(first).pointed(second);
            after.popup is Some && !after.animates()
        },
{
}

/// A click opens the popup at the click, and Space at the last place of the pointer on the window:
/// of its own size, below that point, and with a geometry that is all of it. It is not shown before
/// it is configured.
pub proof fn law_popups_open_at_the_pointer(app: App, event: PointerEvent)
    requires
        app.popup is None,
    ensures
        event.is_press(BUTTON_LEFT) ==> opens_at(
            app.event_requests(event),
            event.position.0,
            event.position.1,
        ),
        event.own_surface ==> opens_at(
            app.followed(event).key_requests(KEY_SPACE),
            event.position.0,
            event.position.1,
        ),
        opens_at(app.key_requests(KEY_SPACE), app.popup_position.0, app.popup_position.1),
        !app.pressed(KEY_SPACE).animates(),
{
    lemma_opens(app);
    if event.own_surface {
        lemma_opens(app.followed(event));
    }
}

/// The requests open a popup below the point, and do no more.
pub open spec fn opens_at(requests: Seq<Request>, x: i32, y: i32) -> bool {
    &&& requests.len() == 3
    &&& has_steps(
        requests,
        seq![
            Request::CreatePopup(
                Positioner {
                    width: 240,
                    height: 160,
                    anchor_rect: Rect { x, y, width: 1, height: 1 },
                    anchor: Edge::Bottom,
                    gravity: Edge::Bottom,
                    constraint_adjustment: 0xF,
                },
            ),
            Request::SetPopupGeometry(Rect { x: 0, y: 0, width: 240, height: 160 }),
        ],
    )
    &&& requests.contains(Request::Announce(Notice::Opened))
    &&& forall|i: int|
        0 <= i < requests.len() ==> !(#[trigger] requests[i] is PaintPopup) && !(requests[i]
            is AttachPopup)
}

proof fn lemma_opens(app: App)
    ensures
        opens_at(app.open_requests(), app.popup_position.0, app.popup_position.1),
{
    let requests = app.open_requests();
    assert(requests[2] == Request::Announce(Notice::Opened));
    assert(stands_at(
        requests,
        seq![
            Request::CreatePopup(
                Positioner {
                    width: 240,
                    height: 160,
                    anchor_rect: Rect {
                        x: app.popup_position.0,
                        y: app.popup_position.1,
                        width: 1,
                        height: 1,
                    },
                    anchor: Edge::Bottom,
                    gravity: Edge::Bottom,
                    constraint_adjustment: 0xF,
                },
            ),
            Request::SetPopupGeometry(Rect { x: 0, y: 0, width: 240, height: 160 }),
        ],
        seq![0, 1],
    ));
}

/// Every pointer event on the window, and none on another surface, tells where the next popup goes;
/// what it tells is where it is. The rest of the client follows from clicks alone.
pub proof fn law_position_follows_the_pointer(app: App, event: PointerEvent)
    ensures
        event.own_surface ==> app.pointed(event).popup_position == event.position,
        !event.own_surface ==> app.pointed(event) == app,
        app.pointed(event).size == app.size,
        app.pointed(event).exit == app.exit,
        app.pointed(event).devices == app.devices,
{
}

/// The first configure event of the open popup shows it as a whole, creates its subsurface at its
/// place, independent of the popup, with its first frame, and commits the popup after that. Any
/// other configure event does nothing.
#[verifier::spinoff_prover]
pub proof fn law_popups_are_set_up_once(app: App, own_popup: bool)
    ensures
        ({
            let after = app.popup_configured(own_popup);
            let requests = app.configure_popup_requests(own_popup);
            let first = own_popup && app.popup is Some && !app.animates();
            &&& requests.len() > 0 <==> first
            &&& !first ==> after == app
            &&& first ==> {
                &&& after.animates()
                &&& after.animation().wf()
                &&& after == App { popup: after.popup, ..app }
                &&& has_steps(
                    requests,
                    seq![
                        Request::PaintPopup(shape_of(240, 160)),
                        Request::DamagePopup(whole(240, 160)),
                        Request::AttachPopup,
                        Request::CommitPopup,
                        Request::CreateSubsurface,
                        Request::SetSubsurfacePosition(20, 20),
                        Request::DesyncSubsurface,
                        Request::FrameSubsurface,
                        Request::CommitSubsurface,
                        Request::CommitPopup,
                        Request::Announce(Notice::Configured),
                    ],
                )
                &&& requests.len() == 14
                &&& once(requests, Request::CreateSubsurface)
                &&& once(requests, Request::CommitSubsurface)
                &&& submits(requests, 0, 0)
                &&& after.animation().current_buffer == 1
                &&& after.animation().frame == STRIPE_STEP
                &&& after.configure_popup_requests(own_popup).len() == 0
            }
        }),
{
    let requests = app.configure_popup_requests(own_popup);
    if app.needs_setup(own_popup) {
        assert(requests[4] == Request::CreateSubsurface);
        assert(requests[11] == Request::CommitSubsurface);
        assert(stands_at(
            requests,
            seq![
                Request::PaintPopup(shape_of(240, 160)),
                Request::DamagePopup(whole(240, 160)),
                Request::AttachPopup,
                Request::CommitPopup,
                Request::CreateSubsurface,
                Request::SetSubsurfacePosition(20, 20),
                Request::DesyncSubsurface,
                Request::FrameSubsurface,
                Request::CommitSubsurface,
                Request::CommitPopup,
                Request::Announce(Notice::Configured),
            ],
            seq![0, 1, 2, 3, 4, 5, 6, 10, 11, 12, 13],
        ));
        assert(stands_at(requests, submission(0, 0), seq![7, 8, 9, 11]));
        assert(stands_at(
            requests,
            seq![Request::FrameSubsurface, Request::CommitSubsurface],
            seq![10, 11],
        ));
    }
}

/// What puts a frame on the subsurface: the frame is painted on the buffer that is attached, in the
/// subsurface's size, and all of it is damaged and committed.
pub open spec fn submission(buffer: usize, frame: u32) -> Seq<Request> {
    seq![
        Request::PaintSubsurface { buffer, shape: shape_of(200, 120), frame },
        Request::AttachSubsurface { buffer },
        Request::DamageSubsurface(whole(200, 120)),
        Request::CommitSubsurface,
    ]
}

/// The requests put a frame on the subsurface, and ask for the callback of that commit.
pub open spec fn submits(requests: Seq<Request>, buffer: usize, frame: u32) -> bool {
    &&& has_steps(requests, submission(buffer, frame))
    &&& has_steps(requests, seq![Request::FrameSubsurface, Request::CommitSubsurface])
}

/// Every callback of the subsurface puts its next frame on it, on the buffer that the last frame
/// left free, three pixels further than the last one; other callbacks do nothing. The popup stays
/// open, and nothing but the animation changes.
pub proof fn law_callbacks_put_the_next_frame(app: App, own_subsurface: bool)
    requires
        app.wf(),
    ensures
        ({
            let after = app.framed(own_subsurface);
            let requests = app.frame_requests(own_subsurface);
            &&& requests.len() > 0 <==> own_subsurface && app.animates()
            &&& requests.len() == 0 ==> after == app
            &&& requests.len() > 0 ==> {
                &&& submits(requests, app.animation().current_buffer, app.animation().frame)
                &&& requests.len() == 5
                &&& once(requests, Request::CommitSubsurface)
                &&& after == App { popup: after.popup, ..app }
                &&& after.animates()
                &&& after.animation().current_buffer + app.animation().current_buffer == 1
                &&& after.animation().frame == (app.animation().frame + 3) % 0x1_0000_0000
            }
        }),
{
    let requests = app.frame_requests(own_subsurface);
    if own_subsurface && app.animates() {
        let animation = app.animation();
        assert(requests[4] == Request::CommitSubsurface);
        assert(stands_at(
            requests,
            submission(animation.current_buffer, animation.frame),
            seq![0, 1, 2, 4],
        ));
        assert(stands_at(
            requests,
            seq![Request::FrameSubsurface, Request::CommitSubsurface],
            seq![3, 4],
        ));
        lemma_next_frame(animation.frame, animation.frame as int);
    }
}

/// A dismissed popup is closed, and the dismissal of another one does nothing. Closing destroys the
/// subsurface's role before its surface, and both before the popup, and tells so.
pub proof fn law_dismissal_closes_the_popup(app: App, own_popup: bool)
    ensures
        own_popup ==> app.dismissed(own_popup).popup is None,
        !own_popup ==> app.dismissed(own_popup) == app && app.dismiss_requests(own_popup).len()
            == 0,
        app.dismissed(own_popup) == (App { popup: app.dismissed(own_popup).popup, ..app }),
        own_popup && app.popup is Some ==> has_steps(
            app.dismiss_requests(own_popup),
            seq![Request::Announce(Notice::Closed), Request::DestroyPopup],
        ),
        own_popup && app.animates() ==> has_steps(
            app.dismiss_requests(own_popup),
            seq![
                Request::DestroySubsurface,
                Request::DestroySubsurfaceSurface,
                Request::DestroyPopup,
            ],
        ),
        app.popup is None ==> app.dismiss_requests(own_popup).len() == 0,
        own_popup && app.popup is Some ==> app.dismiss_requests(own_popup).len() == (
        if app.animates() {
            4int
        } else {
            2
        }),
{
    let requests = app.dismiss_requests(own_popup);
    if own_popup && app.popup is Some {
        let last = requests.len() - 1;
        assert(stands_at(
            requests,
            seq![Request::Announce(Notice::Closed), Request::DestroyPopup],
            seq![last - 1, last],
        ));
        if app.animates() {
            assert(stands_at(
                requests,
                seq![
                    Request::DestroySubsurface,
                    Request::DestroySubsurfaceSurface,
                    Request::DestroyPopup,
                ],
                seq![0, 1, 3],
            ));
        }
    }
}

/// The window is a checkerboard of fields of 32 pixels: a field further to the right or further
/// down the color is the other one, and it is the same within the first field.
pub proof fn law_window_is_a_checkerboard(x: u32, y: u32)
    requires
        x + 32 <= u32::MAX,
        y + 32 <= u32::MAX,
    ensures
        window_color((x + 32) as u32, y) != window_color(x, y),
        window_color(x, (y + 32) as u32) != window_color(x, y),
        x < 32 && y < 32 ==> window_color(x, y) == WINDOW_DARK,
        window_color(x, y) == WINDOW_DARK || window_color(x, y) == WINDOW_LIGHT,
{
    lemma_next_field(x, y, 32);
}

/// The subsurface is a checkerboard of fields of 20 pixels where the stripe does not cover it, the
/// same one in every frame, and has the stripe's color where it does.
#[verifier::spinoff_prover]
pub proof fn law_subsurface_is_a_striped_checkerboard(x: u32, y: u32, frame: u32, other: u32)
    requires
        x + 20 <= u32::MAX - SUB_W,
        y + 20 <= u32::MAX,
    ensures
        sub_color(x, y, frame) == STRIPE_COLOR <==> in_stripe(x, frame),
        !in_stripe(x, frame) ==> sub_color(x, (y + 20) as u32, frame) != sub_color(x, y, frame),
        !in_stripe(x, frame) && !in_stripe((x + 20) as u32, frame) ==> sub_color(
            (x + 20) as u32,
            y,
            frame,
        ) != sub_color(x, y, frame),
        !in_stripe(x, frame) && !in_stripe(x, other) ==> sub_color(x, y, frame) == sub_color(
            x,
            y,
            other,
        ),
        !in_stripe(x, frame) && x < 20 && y < 20 ==> sub_color(x, y, frame) == SUB_DARK,
        !in_stripe(x, frame) ==> sub_color(x, y, frame) == SUB_DARK || sub_color(x, y, frame)
            == SUB_LIGHT,
{
    lemma_next_field(x, y, 20);
}

/// One field further to the right or further down a checkerboard has the other color.
proof fn lemma_next_field(x: u32, y: u32, side: u32)
    requires
        side > 0,
        x + side <= u32::MAX,
        y + side <= u32::MAX,
    ensures
        even_field((x + side) as u32, y, side) != even_field(x, y, side),
        even_field(x, (y + side) as u32, side) != even_field(x, y, side),
{
    vstd::arithmetic::div_mod::lemma_div_plus_one(x as int, side as int);
    vstd::arithmetic::div_mod::lemma_div_plus_one(y as int, side as int);
}

/// The stripe begins in the column that the frame counts to, around the edge of the subsurface, and
/// covers 32 columns from there.
pub proof fn law_stripe_begins_at_the_frame(frame: u32, offset: u32)
    requires
        offset < 200,
    ensures
        in_stripe(((frame + offset) % 200) as u32, frame) <==> offset < 32,
{
    lemma_add_mod_noop(frame as int, offset as int, 200);
    law_stripe_columns(frame, offset);
}

/// The hole in the popup is where its subsurface goes: as large as that, and at its position.
pub proof fn law_hole_is_where_the_subsurface_goes(x: u32, y: u32)
    ensures
        popup_color(x, y) == POPUP_HOLE_COLOR <==> 20 <= x < 220 && 20 <= y < 140,
        popup_color(x, y) == POPUP_COLOR <==> !(20 <= x < 220 && 20 <= y < 140),
{
}

/// A configure event of the window settles on the suggested sides, and on the client's own ones
/// where none are suggested; it changes nothing but the size. If that changes what is known of the
/// size, the old buffer is dropped, and a buffer of just that size is painted, damaged, attached
/// and committed; otherwise nothing happens.
pub proof fn law_new_sizes_are_shown(app: App, suggested: (Option<u32>, Option<u32>))
    ensures
        ({
            let after = app.configured(suggested);
            let requests = app.configure_requests(suggested);
            let (width, height) = (after.size.width, after.size.height);
            &&& suggested.0 matches Some(side) ==> width == side
            &&& suggested.1 matches Some(side) ==> height == side
            &&& suggested.0 is None ==> width == WINDOW_W
            &&& suggested.1 is None ==> height == WINDOW_H
            &&& !after.size.first_configure
            &&& after == App { size: after.size, ..app }
            &&& requests.len() > 0 <==> app.size != after.size
            &&& requests.len() > 0 ==> requests.len() == 5 && has_steps(
                requests,
                seq![
                    Request::DropWindowBuffer,
                    Request::PaintWindow(shape_of(width, height)),
                    Request::DamageWindow(whole(width, height)),
                    Request::AttachWindow,
                    Request::CommitWindow,
                ],
            )
        }),
{
    let after = app.configured(suggested);
    let requests = app.configure_requests(suggested);
    let (width, height) = (after.size.width, after.size.height);
    if requests.len() > 0 {
        assert(stands_at(
            requests,
            seq![
                Request::DropWindowBuffer,
                Request::PaintWindow(shape_of(width, height)),
                Request::DamageWindow(whole(width, height)),
                Request::AttachWindow,
                Request::CommitWindow,
            ],
            seq![0, 1, 2, 3, 4],
        ));
    }
}

/// The client starts without a popup, and with the place of the next one in the middle of the
/// window. It goes on until it is asked to end or a quit key is pressed; neither changes anything
/// else.
pub proof fn law_start_and_end(app: App, keysym: u32)
    ensures
        App::initial().popup is None,
        2 * App::initial().popup_position.0 == App::initial().size.width,
        2 * App::initial().popup_position.1 == App::initial().size.height,
        App::initial().size.first_configure,
        !App::initial().exit,
        app.ending().exit,
        app.ending() == (App { exit: app.ending().exit, ..app }),
        app.pressed(keysym).exit <==> app.exit || keysym == KEY_Q || keysym == KEY_ESCAPE,
        app.pressed(keysym) == (App {
            exit: app.pressed(keysym).exit,
            popup: app.pressed(keysym).popup,
            ..app
        }),
{
}

/// A group of pointer events is handled event by event, in order: a single event is handled as
/// such, and of two groups the second finds the client as the first has left it.
pub proof fn law_groups_are_handled_in_order(
    app: App,
    event: PointerEvent,
    first: Seq<PointerEvent>,
    second: Seq<PointerEvent>,
)
    ensures
        app.pointed_all(Seq::empty()) == app,
        app.events_requests(Seq::empty()) == Seq::<Request>::empty(),
        app.pointed_all(seq![event]) == app.pointed(event),
        app.events_requests(seq![event]) == app.event_requests(event),
        app.pointed_all(first + second) == app.pointed_all(first).pointed_all(second),
        app.events_requests(first + second) == app.events_requests(first) + app.pointed_all(
            first,
        ).events_requests(second),
    decreases second.len(),
{
    assert(app.pointed_all(Seq::empty()) == app);
    assert(app.events_requests(Seq::empty()) =~= Seq::<Request>::empty());
    assert(seq![event].drop_last() =~= Seq::<PointerEvent>::empty());
    assert(app.pointed_all(seq![event]) == app.pointed(event));
    assert(app.events_requests(seq![event]) =~= app.event_requests(event));
    if second.len() == 0 {
        assert(first + second =~= first);
        assert(app.events_requests(first) + app.pointed_all(first).events_requests(second)
            =~= app.events_requests(first));
    } else {
        law_groups_are_handled_in_order(app, event, first, second.drop_last());
        assert((first + second).drop_last() =~= first + second.drop_last());
        assert((first + second).last() == second.last());
        assert(app.events_requests(first + second) =~= app.events_requests(first)
            + app.pointed_all(first).events_requests(second));
    }
}

/// Every pixel of a painted canvas has the color of its place: in rows of the window's width, of
/// 240 pixels for the popup, and of 200 pixels for the subsurface.
pub proof fn law_pixels_have_their_place(
    before: Seq<u8>,
    after: Seq<u8>,
    width: u32,
    frame: u32,
    x: u32,
    y: u32,
)
    requires
        x < width,
        4 * (y * width + x) + 4 <= before.len(),
        y * width + x <= u32::MAX,
    ensures
        window_painted(before, after, width) ==> pixel_at(after, y * width + x) == window_color(
            x,
            y,
        ),
        popup_painted(before, after) && width == 240 ==> pixel_at(after, y * width + x)
            == popup_color(x, y),
        frame_painted(before, after, frame) && width == 200 ==> pixel_at(after, y * width + x)
            == sub_color(x, y, frame),
{
    law_row_and_column_of_index(x as int, y as int, width);
    assert(0 <= y * width + x < pixel_count(before));
}

} // verus!
