//! A window without a window geometry, with blur over its whole surface. A click creates a
//! subsurface centered at the pointer, which may stick out of the window; the next click removes
//! it.

use vstd::prelude::*;

use crate::canvas::{fill, painted, premultiplied};
use crate::geometry::{
    buffer_shape, shape_of, side_or, whole, whole_rect, BufferShape, Rect, SurfaceSize,
};
use crate::keys::{is_quit_key, quits, BUTTON_LEFT};
use crate::seat::{Devices, PointerEvent};
use crate::steps::{has_steps, once, stands_at};

verus! {

pub const WINDOW_W: u32 = 400;

pub const WINDOW_H: u32 = 300;

pub const SUB_W: u32 = 200;

pub const SUB_H: u32 = 200;

/// Semitransparent white, so that the blur is visible through it.
pub const WINDOW_TINT: u32 = 0x6060_6060;

/// Semitransparent green.
pub const SUBSURFACE_TINT: u32 = 0x6000_6000;

/// What the client asks of the compositor, and of its buffer pool, in order.
#[derive(Clone, Copy, Debug, PartialEq, Eq, Structural)]
pub enum Request {
    /// Forget the window's buffer, whose size is out of date.
    DropWindowBuffer,
    /// Replace the blur region of the window by one rectangle.
    SetWindowBlur(Rect),
    /// Get a canvas of this shape and paint the window on it.
    PaintWindow(BufferShape),
    DamageWindow(Rect),
    AttachWindow,
    /// Commit the window's surface.
    CommitWindow,
    /// Create a subsurface of the window.
    CreateSubsurface,
    SetSubsurfacePosition(i32, i32),
    /// Let the subsurface commit independently of the window.
    DesyncSubsurface,
    /// Tell where the subsurface is, and whether it sticks out of the window.
    AnnounceCreated { x: i32, y: i32, extends_outside: bool },
    /// Create the subsurface's background effect.
    CreateSubsurfaceEffect,
    SetSubsurfaceBlur(Rect),
    /// Get a canvas of this shape and paint the subsurface on it.
    PaintSubsurface(BufferShape),
    DamageSubsurface(Rect),
    AttachSubsurface,
    CommitSubsurface,
    DestroySubsurfaceEffect,
    /// Destroy the subsurface role object.
    DestroySubsurface,
    /// Destroy the surface that had the role.
    DestroySubsurfaceSurface,
    /// Tell that the subsurface is gone.
    AnnounceDestroyed,
}

/// Where a subsurface goes that is centered at a click.
pub open spec fn centered(click_x: int, click_y: int) -> (int, int) {
    (click_x - SUB_W / 2, click_y - SUB_H / 2)
}

/// A subsurface centered at the click has a position of the protocol's integer type, and so have
/// those of its far edges that have to be known to tell whether it sticks out of a window of this
/// width. The right edge counts only if the position is not negative, and the lower one only if the
/// right one does not stick out.
pub open spec fn placeable(click_x: int, click_y: int, width: u32) -> bool {
    let (x, y) = centered(click_x, click_y);
    &&& i32::MIN <= x
    &&& i32::MIN <= y
    &&& x >= 0 && y >= 0 ==> x + SUB_W <= i32::MAX
    &&& x >= 0 && y >= 0 && x + SUB_W <= width ==> y + SUB_H <= i32::MAX
}

/// The executable form of [`placeable`].
pub fn is_placeable(click_x: i32, click_y: i32, width: u32) -> (fits: bool)
    ensures
        fits == placeable(click_x as int, click_y as int, width),
{
    let x: i64 = click_x as i64 - SUB_W as i64 / 2;
    let y: i64 = click_y as i64 - SUB_H as i64 / 2;
    if x < i32::MIN as i64 || y < i32::MIN as i64 {
        return false;
    }
    if x < 0 || y < 0 {
        return true;
    }
    let right: i64 = x + SUB_W as i64;
    right <= i32::MAX as i64 && (right > width as i64 || y + SUB_H as i64 <= i32::MAX as i64)
}

/// A subsurface at `(x, y)` is not contained in a window of this size.
pub open spec fn sticks_out(x: int, y: int, width: u32, height: u32) -> bool {
    x < 0 || y < 0 || x + SUB_W > width || y + SUB_H > height
}

/// Paints the window.
pub fn paint_window(canvas: &mut [u8])
    ensures
        painted(old(canvas)@, final(canvas)@, |i: int| WINDOW_TINT),
{
    fill(canvas, WINDOW_TINT);
}

/// Paints the subsurface.
pub fn paint_subsurface(canvas: &mut [u8])
    ensures
        painted(old(canvas)@, final(canvas)@, |i: int| SUBSURFACE_TINT),
{
    fill(canvas, SUBSURFACE_TINT);
}

#[derive(Clone, Copy, Debug, PartialEq, Eq, Structural)]
pub struct App {
    pub exit: bool,
    pub size: SurfaceSize,
    /// The compositor offers background effects.
    pub has_effect: bool,
    pub devices: Devices,
    /// The window has a subsurface.
    pub subsurface: bool,
}

impl App {
    /// The client before any event.
    pub open spec fn initial(has_effect: bool) -> App {
        App {
            exit: false,
            size: SurfaceSize::initial(WINDOW_W, WINDOW_H),
            has_effect,
            devices: Devices::none(),
            subsurface: false,
        }
    }

    /// The window's size is one that can be drawn.
    pub open spec fn wf(self) -> bool {
        self.size.is_drawable()
    }

    pub open spec fn draw_requests(self) -> Seq<Request> {
        let width = self.size.width;
        let height = self.size.height;
        seq![
            Request::PaintWindow(shape_of(width, height)),
            Request::DamageWindow(whole(width, height)),
            Request::AttachWindow,
            Request::CommitWindow,
        ]
    }

    pub open spec fn blur_requests(self) -> Seq<Request> {
        if self.has_effect {
            seq![Request::SetWindowBlur(whole(self.size.width, self.size.height))]
        } else {
            seq![]
        }
    }

    /// The client with the size that a configure event leads to.
    pub open spec fn configured(self, suggested: (Option<u32>, Option<u32>)) -> App {
        App {
            size: SurfaceSize::settled(
                side_or(suggested.0, WINDOW_W),
                side_or(suggested.1, WINDOW_H),
            ),
            ..self
        }
    }

    pub open spec fn configure_requests(self, suggested: (Option<u32>, Option<u32>)) -> Seq<
        Request,
    > {
        let settled = self.configured(suggested);
        if self.size.calls_for_redraw(settled.size.width, settled.size.height) {
            seq![Request::DropWindowBuffer] + settled.blur_requests() + settled.draw_requests()
        } else {
            seq![]
        }
    }

    /// What creates a subsurface centered at a click. The window is committed last, which is what
    /// makes the new subsurface appear.
    pub open spec fn create_requests(self, click_x: int, click_y: int) -> Seq<Request> {
        let (x, y) = centered(click_x, click_y);
        seq![
            Request::CreateSubsurface,
            Request::SetSubsurfacePosition(x as i32, y as i32),
            Request::DesyncSubsurface,
            Request::AnnounceCreated {
                x: x as i32,
                y: y as i32,
                extends_outside: sticks_out(x, y, self.size.width, self.size.height),
            },
        ] + (if self.has_effect {
            seq![Request::CreateSubsurfaceEffect, Request::SetSubsurfaceBlur(whole(SUB_W, SUB_H))]
        } else {
            seq![]
        }) + seq![
            Request::PaintSubsurface(shape_of(SUB_W, SUB_H)),
            Request::DamageSubsurface(whole(SUB_W, SUB_H)),
            Request::AttachSubsurface,
            Request::CommitSubsurface,
            Request::CommitWindow,
        ]
    }

    /// What removes the subsurface, if there is one.
    pub open spec fn destroy_requests(self) -> Seq<Request> {
        if self.subsurface {
            (if self.has_effect {
                seq![Request::DestroySubsurfaceEffect]
            } else {
                seq![]
            }) + seq![
                Request::DestroySubsurface,
                Request::DestroySubsurfaceSurface,
                Request::CommitWindow,
                Request::AnnounceDestroyed,
            ]
        } else {
            seq![]
        }
    }

    pub open spec fn toggle_requests(self, click_x: int, click_y: int) -> Seq<Request> {
        if self.subsurface {
            self.destroy_requests()
        } else {
            self.create_requests(click_x, click_y)
        }
    }

    /// The client after the subsurface was toggled.
    pub open spec fn toggled(self) -> App {
        App { subsurface: !self.subsurface, ..self }
    }

    /// The client after a pointer event.
    pub open spec fn pointed(self, event: PointerEvent) -> App {
        if event.is_press(BUTTON_LEFT) {
            self.toggled()
        } else {
            self
        }
    }

    pub open spec fn event_requests(self, event: PointerEvent) -> Seq<Request> {
        if event.is_press(BUTTON_LEFT) {
            self.toggle_requests(event.position.0 as int, event.position.1 as int)
        } else {
            seq![]
        }
    }

    /// A click that is to create a subsurface is where one can be placed.
    pub open spec fn accepts(self, event: PointerEvent) -> bool {
        event.is_press(BUTTON_LEFT) && !self.subsurface ==> placeable(
            event.position.0 as int,
            event.position.1 as int,
            self.size.width,
        )
    }

    /// The client after a sequence of pointer events.
    pub open spec fn pointed_all(self, events: Seq<PointerEvent>) -> App
        decreases events.len(),
    {
        if events.len() == 0 {
            self
        } else {
            self.pointed_all(events.drop_last()).pointed(events.last())
        }
    }

    pub open spec fn events_requests(self, events: Seq<PointerEvent>) -> Seq<Request>
        decreases events.len(),
    {
        if events.len() == 0 {
            seq![]
        } else {
            self.events_requests(events.drop_last()) + self.pointed_all(
                events.drop_last(),
            ).event_requests(events.last())
        }
    }

    pub open spec fn accepts_all(self, events: Seq<PointerEvent>) -> bool {
        forall|i: int|
            0 <= i < events.len() ==> self.pointed_all(events.take(i)).accepts(#[trigger] events[i])
    }

    /// The client that is to end.
    pub open spec fn ending(self) -> App {
        App { exit: true, ..self }
    }

    /// The client after a key press.
    pub open spec fn pressed(self, keysym: u32) -> App {
        App { exit: self.exit || quits(keysym), ..self }
    }

    pub fn new(has_effect: bool) -> (app: App)
        ensures
            app == App::initial(has_effect),
            app.wf(),
    {
        App {
            exit: false,
            size: SurfaceSize::new(WINDOW_W, WINDOW_H),
            has_effect,
            devices: Devices::new(),
            subsurface: false,
        }
    }

    /// Paints and shows the whole window.
    pub fn draw_window(&self, requests: &mut Vec<Request>)
        requires
            self.wf(),
        ensures
            final(requests)@ == old(requests)@ + self.draw_requests(),
    {
        let width: u32 = self.size.width;
        let height: u32 = self.size.height;
        requests.push(Request::PaintWindow(buffer_shape(width, height)));
        requests.push(Request::DamageWindow(whole_rect(width, height)));
        requests.push(Request::AttachWindow);
        requests.push(Request::CommitWindow);
    }

    /// Sets the window's blur region to its whole surface.
    pub fn update_window_blur_region(&self, requests: &mut Vec<Request>)
        ensures
            final(requests)@ == old(requests)@ + self.blur_requests(),
    {
        if self.has_effect {
            requests.push(Request::SetWindowBlur(whole_rect(self.size.width, self.size.height)));
        }
    }

    /// Removes the subsurface, or creates one centered at the click.
    pub fn toggle_subsurface(&mut self, click_x: i32, click_y: i32, requests: &mut Vec<Request>)
        requires
            old(self).wf(),
            !old(self).subsurface ==> placeable(
                click_x as int,
                click_y as int,
                old(self).size.width,
            ),
        ensures
            final(self).wf(),
            *final(self) == old(self).toggled(),
            final(requests)@ == old(requests)@ + old(self).toggle_requests(
                click_x as int,
                click_y as int,
            ),
    {
        if self.subsurface {
            self.destroy_subsurface(requests);
        } else {
            self.create_subsurface(click_x, click_y, requests);
        }
    }

    /// Creates a subsurface centered at the click.
    pub fn create_subsurface(&mut self, click_x: i32, click_y: i32, requests: &mut Vec<Request>)
        requires
            old(self).wf(),
            placeable(click_x as int, click_y as int, old(self).size.width),
        ensures
            final(self).wf(),
            *final(self) == (App { subsurface: true, ..*old(self) }),
            final(requests)@ == old(requests)@ + old(self).create_requests(
                click_x as int,
                click_y as int,
            ),
    {
        requests.push(Request::CreateSubsurface);
        // Center the subsurface at the click position.
        // This may place it partially or fully outside the main surface.
        let x: i32 = click_x - (SUB_W as i32) / 2;
        let y: i32 = click_y - (SUB_H as i32) / 2;
        requests.push(Request::SetSubsurfacePosition(x, y));
        requests.push(Request::DesyncSubsurface);
        let extends_outside = x < 0 || y < 0 || x + SUB_W as i32 > self.size.width as i32 || y
            + SUB_H as i32 > self.size.height as i32;
        requests.push(Request::AnnounceCreated { x, y, extends_outside });
        if self.has_effect {
            requests.push(Request::CreateSubsurfaceEffect);
            requests.push(Request::SetSubsurfaceBlur(whole_rect(SUB_W, SUB_H)));
        }
        requests.push(Request::PaintSubsurface(buffer_shape(SUB_W, SUB_H)));
        requests.push(Request::DamageSubsurface(whole_rect(SUB_W, SUB_H)));
        requests.push(Request::AttachSubsurface);
        requests.push(Request::CommitSubsurface);
        self.subsurface = true;
        // Commit the parent to pick up the new subsurface.
        requests.push(Request::CommitWindow);
    }

    /// Removes the subsurface, if there is one.
    pub fn destroy_subsurface(&mut self, requests: &mut Vec<Request>)
        ensures
            *final(self) == (App { subsurface: false, ..*old(self) }),
            final(requests)@ == old(requests)@ + old(self).destroy_requests(),
    {
        if self.subsurface {
            self.subsurface = false;
            if self.has_effect {
                requests.push(Request::DestroySubsurfaceEffect);
            }
            requests.push(Request::DestroySubsurface);
            requests.push(Request::DestroySubsurfaceSurface);
            // Commit the parent to apply the removal.
            requests.push(Request::CommitWindow);
            requests.push(Request::AnnounceDestroyed);
        }
    }

    /// The compositor asks the window to close.
    pub fn request_close(&mut self)
        ensures
            *final(self) == old(self).ending(),
    {
        self.exit = true;
    }

    /// Handles a configure event: the window is drawn again on the first one and on a new size.
    pub fn configure(&mut self, suggested: (Option<u32>, Option<u32>)) -> (requests: Vec<Request>)
        requires
            old(self).configured(suggested).wf(),
        ensures
            final(self).wf(),
            *final(self) == old(self).configured(suggested),
            requests@ == old(self).configure_requests(suggested),
    {
        let mut requests: Vec<Request> = Vec::new();
        if self.size.configure(suggested, (WINDOW_W, WINDOW_H)) {
            requests.push(Request::DropWindowBuffer);
            self.update_window_blur_region(&mut requests);
            self.draw_window(&mut requests);
        }
        requests
    }

    /// Handles a key press.
    pub fn press_key(&mut self, keysym: u32)
        ensures
            *final(self) == old(self).pressed(keysym),
    {
        if is_quit_key(keysym) {
            self.exit = true;
        }
    }

    /// Handles a group of pointer events: a left click on the window toggles the subsurface.
    pub fn pointer_frame(&mut self, events: &[PointerEvent]) -> (requests: Vec<Request>)
        requires
            old(self).wf(),
            old(self).accepts_all(events@),
        ensures
            final(self).wf(),
            *final(self) == old(self).pointed_all(events@),
            requests@ == old(self).events_requests(events@),
    {
        let ghost start = *self;
        let mut requests: Vec<Request> = Vec::new();
        let mut i: usize = 0;
        while i < events.len()
            invariant
                i <= events@.len(),
                self.wf(),
                start.accepts_all(events@),
                *self == start.pointed_all(events@.take(i as int)),
                requests@ == start.events_requests(events@.take(i as int)),
            decreases events@.len() - i,
        {
            let event = &events[i];
            assert(events@.take(i + 1).drop_last() =~= events@.take(i as int));
            assert(start.pointed_all(events@.take(i as int)).accepts(events@[i as int]));
            if let Some(button) = event.pressed_button() {
                assert(event.is_press(button));
                if button == BUTTON_LEFT {
                    self.toggle_subsurface(event.position.0, event.position.1, &mut requests);
                }
            }
            i += 1;
        }
        assert(events@.take(i as int) =~= events@);
        requests
    }
}

/// The center of a new subsurface is the click position.
pub proof fn law_subsurface_is_centered(click_x: int, click_y: int)
    ensures
        centered(click_x, click_y).0 + SUB_W / 2 == click_x,
        centered(click_x, click_y).1 + SUB_H / 2 == click_y,
        centered(click_x, click_y).0 + SUB_W - click_x == click_x - centered(click_x, click_y).0,
        centered(click_x, click_y).1 + SUB_H - click_y == click_y - centered(click_x, click_y).1,
{
}

/// A subsurface sticks out of the window exactly when one of its pixels is none of the window's.
pub proof fn law_sticking_out(x: int, y: int, width: u32, height: u32)
    ensures
        sticks_out(x, y, width, height) <==> exists|px: int, py: int|
            #![trigger in_box(x, y, SUB_W as int, SUB_H as int, px, py)]
            in_box(x, y, SUB_W as int, SUB_H as int, px, py) && !in_box(
                0,
                0,
                width as int,
                height as int,
                px,
                py,
            ),
{
    if sticks_out(x, y, width, height) {
        let px = if x < 0 {
            x
        } else {
            x + SUB_W - 1
        };
        let py = if y < 0 {
            y
        } else {
            y + SUB_H - 1
        };
        assert(in_box(x, y, SUB_W as int, SUB_H as int, px, py));
    }
}

/// The point `(px, py)` lies in the box with this corner and these sides.
pub open spec fn in_box(x: int, y: int, width: int, height: int, px: int, py: int) -> bool {
    x <= px < x + width && y <= py < y + height
}

/// Two clicks bring the client back to where it was.
pub proof fn law_two_clicks_cancel(app: App, first: PointerEvent, second: PointerEvent)
    requires
        first.is_press(BUTTON_LEFT),
        second.is_press(BUTTON_LEFT),
    ensures
        app.pointed(first).pointed(second) == app,
        app.pointed(first) != app,
{
}

/// Whatever a click creates, the next click destroys: the effect exactly when one was created, and
/// before the subsurface it belongs to.
pub proof fn law_removal_matches_creation(app: App, click_x: int, click_y: int)
    requires
        !app.subsurface,
    ensures
        app.create_requests(click_x, click_y).contains(Request::CreateSubsurfaceEffect)
            <==> app.toggled().destroy_requests().contains(Request::DestroySubsurfaceEffect),
        app.toggled().destroy_requests().contains(Request::DestroySubsurface),
        app.toggled().destroy_requests().contains(Request::DestroySubsurfaceSurface),
        app.has_effect ==> app.toggled().destroy_requests()[0] == Request::DestroySubsurfaceEffect,
{
    let created = app.create_requests(click_x, click_y);
    let destroyed = app.toggled().destroy_requests();
    if app.has_effect {
        assert(created[4] == Request::CreateSubsurfaceEffect);
        assert(destroyed[0] == Request::DestroySubsurfaceEffect);
        assert(destroyed[1] == Request::DestroySubsurface);
        assert(destroyed[2] == Request::DestroySubsurfaceSurface);
    } else {
        assert(destroyed[0] == Request::DestroySubsurface);
        assert(destroyed[1] == Request::DestroySubsurfaceSurface);
    }
}

/// Both tints are premultiplied colors.
pub proof fn law_tints_are_premultiplied()
    ensures
        premultiplied(WINDOW_TINT),
        premultiplied(SUBSURFACE_TINT),
{
}

/// A left press on the window creates a subsurface where there is none and removes the one that is
/// there; no other event does anything.
pub proof fn law_left_clicks_toggle_the_subsurface(app: App, event: PointerEvent)
    ensures
        ({
            let after = app.pointed(event);
            let requests = app.event_requests(event);
            let clicked = event.is_press(BUTTON_LEFT);
            &&& after.subsurface != app.subsurface <==> clicked
            &&& after == App { subsurface: after.subsurface, ..app }
            &&& requests.len() > 0 <==> clicked
            &&& requests.contains(Request::CreateSubsurface) <==> clicked && !app.subsurface
            &&& requests.contains(Request::DestroySubsurface) <==> clicked && app.subsurface
        }),
{
    let requests = app.event_requests(event);
    if event.is_press(BUTTON_LEFT) {
        if !app.subsurface {
            assert(requests[0] == Request::CreateSubsurface);
        } else if app.has_effect {
            assert(requests[1] == Request::DestroySubsurface);
        } else {
            assert(requests[0] == Request::DestroySubsurface);
        }
    }
}

/// A new subsurface is put where the click is its center, is made independent of the window, is
/// painted, damaged and attached as a whole, and is committed before the window is, once each. It
/// is told whether it sticks out.
pub proof fn law_new_subsurfaces_are_shown(app: App, event: PointerEvent)
    requires
        app.wf(),
        !app.subsurface,
        event.is_press(BUTTON_LEFT),
        app.accepts(event),
    ensures
        ({
            let requests = app.event_requests(event);
            let x = (event.position.0 - SUB_W / 2) as i32;
            let y = (event.position.1 - SUB_H / 2) as i32;
            let extends_outside = exists|px: int, py: int|
                #![trigger in_box(x as int, y as int, SUB_W as int, SUB_H as int, px, py)]
                in_box(x as int, y as int, SUB_W as int, SUB_H as int, px, py) && !(0 <= px
                    < app.size.width && 0 <= py < app.size.height);
            &&& x + SUB_W / 2 == event.position.0
            &&& y + SUB_H / 2 == event.position.1
            &&& has_steps(
                requests,
                seq![
                    Request::CreateSubsurface,
                    Request::SetSubsurfacePosition(x, y),
                    Request::DesyncSubsurface,
                    Request::PaintSubsurface(shape_of(SUB_W, SUB_H)),
                    Request::DamageSubsurface(whole(SUB_W, SUB_H)),
                    Request::AttachSubsurface,
                    Request::CommitSubsurface,
                    Request::CommitWindow,
                ],
            )
            &&& once(requests, Request::CommitSubsurface)
            &&& once(requests, Request::CommitWindow)
            &&& requests.len() == if app.has_effect {
                11int
            } else {
                9
            }
            &&& requests.contains(Request::AnnounceCreated { x, y, extends_outside })
            &&& app.has_effect ==> has_steps(
                requests,
                seq![
                    Request::CreateSubsurface,
                    Request::CreateSubsurfaceEffect,
                    Request::SetSubsurfaceBlur(whole(SUB_W, SUB_H)),
                    Request::CommitSubsurface,
                ],
            )
            &&& !app.has_effect ==> !requests.contains(Request::CreateSubsurfaceEffect)
        }),
{
    let requests = app.event_requests(event);
    let x = (event.position.0 - SUB_W / 2) as i32;
    let y = (event.position.1 - SUB_H / 2) as i32;
    law_sticking_out(x as int, y as int, app.size.width, app.size.height);
    let extends_outside = sticks_out(x as int, y as int, app.size.width, app.size.height);
    assert(requests[3] == Request::AnnounceCreated { x, y, extends_outside });
    let shift: int = if app.has_effect {
        2
    } else {
        0
    };
    assert(requests[7 + shift] == Request::CommitSubsurface);
    assert(requests[8 + shift] == Request::CommitWindow);
    assert(stands_at(
        requests,
        seq![
            Request::CreateSubsurface,
            Request::SetSubsurfacePosition(x, y),
            Request::DesyncSubsurface,
            Request::PaintSubsurface(shape_of(SUB_W, SUB_H)),
            Request::DamageSubsurface(whole(SUB_W, SUB_H)),
            Request::AttachSubsurface,
            Request::CommitSubsurface,
            Request::CommitWindow,
        ],
        seq![0, 1, 2, 4 + shift, 5 + shift, 6 + shift, 7 + shift, 8 + shift],
    ));
    if app.has_effect {
        assert(stands_at(
            requests,
            seq![
                Request::CreateSubsurface,
                Request::CreateSubsurfaceEffect,
                Request::SetSubsurfaceBlur(whole(SUB_W, SUB_H)),
                Request::CommitSubsurface,
            ],
            seq![0, 4, 5, 9],
        ));
    }
}

/// A subsurface is removed by destroying its effect, if it has one, then its role and then its
/// surface; the window is committed after that, once.
pub proof fn law_removal_is_committed(app: App, event: PointerEvent)
    requires
        app.subsurface,
        event.is_press(BUTTON_LEFT),
    ensures
        ({
            let requests = app.event_requests(event);
            &&& has_steps(
                requests,
                seq![
                    Request::DestroySubsurface,
                    Request::DestroySubsurfaceSurface,
                    Request::CommitWindow,
                    Request::AnnounceDestroyed,
                ],
            )
            &&& once(requests, Request::CommitWindow)
            &&& requests.len() == if app.has_effect {
                5int
            } else {
                4
            }
            &&& app.has_effect ==> has_steps(
                requests,
                seq![Request::DestroySubsurfaceEffect, Request::DestroySubsurface],
            )
            &&& !app.has_effect ==> !requests.contains(Request::DestroySubsurfaceEffect)
        }),
{
    let requests = app.event_requests(event);
    let shift: int = if app.has_effect {
        1
    } else {
        0
    };
    assert(requests[2 + shift] == Request::CommitWindow);
    assert(stands_at(
        requests,
        seq![
            Request::DestroySubsurface,
            Request::DestroySubsurfaceSurface,
            Request::CommitWindow,
            Request::AnnounceDestroyed,
        ],
        seq![0 + shift, 1 + shift, 2 + shift, 3 + shift],
    ));
    if app.has_effect {
        assert(stands_at(
            requests,
            seq![Request::DestroySubsurfaceEffect, Request::DestroySubsurface],
            seq![0, 1],
        ));
    }
}

/// A configure event settles on the suggested sides, and on the client's own ones where none are
/// suggested; it changes nothing but the size.
pub proof fn law_configure_settles_the_size(app: App, suggested: (Option<u32>, Option<u32>))
    ensures
        ({
            let after = app.configured(suggested);
            &&& suggested.0 matches Some(width) ==> after.size.width == width
            &&& suggested.1 matches Some(height) ==> after.size.height == height
            &&& suggested.0 is None ==> after.size.width == WINDOW_W
            &&& suggested.1 is None ==> after.size.height == WINDOW_H
            &&& !after.size.first_configure
            &&& after == App { size: after.size, ..app }
        }),
{
}

/// A configure event that changes what is known of the size drops the old buffer, blurs the whole
/// of the new size where there are effects, and paints, damages, attaches and commits a buffer of
/// just that size. Any other one does nothing.
pub proof fn law_new_sizes_are_shown(app: App, suggested: (Option<u32>, Option<u32>))
    ensures
        ({
            let after = app.configured(suggested);
            let requests = app.configure_requests(suggested);
            let (width, height) = (after.size.width, after.size.height);
            &&& requests.len() > 0 <==> app.size != after.size
            &&& requests.len() > 0 ==> {
                &&& requests.len() == if app.has_effect {
                    6int
                } else {
                    5
                }
                &&& requests.last() == Request::CommitWindow
                &&& has_steps(
                    requests,
                    seq![
                        Request::DropWindowBuffer,
                        Request::PaintWindow(shape_of(width, height)),
                        Request::DamageWindow(whole(width, height)),
                        Request::AttachWindow,
                        Request::CommitWindow,
                    ],
                )
                &&& app.has_effect ==> has_steps(
                    requests,
                    seq![Request::SetWindowBlur(whole(width, height)), Request::CommitWindow],
                )
                &&& forall|i: int|
                    0 <= i < requests.len() && #[trigger] requests[i] is SetWindowBlur
                        ==> app.has_effect
            }
        }),
{
    let after = app.configured(suggested);
    let requests = app.configure_requests(suggested);
    let (width, height) = (after.size.width, after.size.height);
    if requests.len() > 0 {
        let shift: int = if app.has_effect {
            1
        } else {
            0
        };
        assert(stands_at(
            requests,
            seq![
                Request::DropWindowBuffer,
                Request::PaintWindow(shape_of(width, height)),
                Request::DamageWindow(whole(width, height)),
                Request::AttachWindow,
                Request::CommitWindow,
            ],
            seq![0, 1 + shift, 2 + shift, 3 + shift, 4 + shift],
        ));
        if app.has_effect {
            assert(stands_at(
                requests,
                seq![Request::SetWindowBlur(whole(width, height)), Request::CommitWindow],
                seq![1, 5],
            ));
        }
    }
}

/// The client starts without a subsurface, and goes on until it is asked to end or a quit key is
/// pressed; neither changes anything else.
pub proof fn law_start_and_end(app: App, has_effect: bool, keysym: u32)
    ensures
        !App::initial(has_effect).subsurface,
        !App::initial(has_effect).exit,
        App::initial(has_effect).has_effect == has_effect,
        App::initial(has_effect).size.first_configure,
        app.ending().exit,
        app.ending() == (App { exit: app.ending().exit, ..app }),
        app.pressed(keysym).exit <==> app.exit || quits(keysym),
        app.pressed(keysym) == (App { exit: app.pressed(keysym).exit, ..app }),
{
}

/// A group of pointer events is handled event by event, in order: a single event is handled as
/// such, and of two groups the second finds the client as the first has left it.
pub proof fn law_groups_are_handled_in_order(
    app: App,
    event: PointerEvent,
    first: Seq<PointerEvent>,
    second: Seq<PointerEvent>,
)
    ensures
        app.pointed_all(Seq::empty()) == app,
        app.events_requests(Seq::empty()) == Seq::<Request>::empty(),
        app.pointed_all(seq![event]) == app.pointed(event),
        app.events_requests(seq![event]) == app.event_requests(event),
        app.pointed_all(first + second) == app.pointed_all(first).pointed_all(second),
        app.events_requests(first + second) == app.events_requests(first) + app.pointed_all(
            first,
        ).events_requests(second),
    decreases second.len(),
{
    assert(app.pointed_all(Seq::empty()) == app);
    assert(app.events_requests(Seq::empty()) =~= Seq::<Request>::empty());
    assert(seq![event].drop_last() =~= Seq::<PointerEvent>::empty());
    assert(app.pointed_all(seq![event]) == app.pointed(event));
    assert(app.events_requests(seq![event]) =~= app.event_requests(event));
    if second.len() == 0 {
        assert(first + second =~= first);
        assert(app.events_requests(first) + app.pointed_all(first).events_requests(second)
            =~= app.events_requests(first));
    } else {
        law_groups_are_handled_in_order(app, event, first, second.drop_last());
        assert((first + second).drop_last() =~= first + second.drop_last());
        assert((first + second).last() == second.last());
        assert(app.events_requests(first + second) =~= app.events_requests(first)
            + app.pointed_all(first).events_requests(second));
    }
}

/// A click whose position is far from the ends of its type can always be placed, and a click that
/// can be placed has a representable position for its subsurface.
pub proof fn law_placeable_clicks(click_x: i32, click_y: i32, width: u32)
    ensures
        -0x4000_0000 <= click_x <= 0x4000_0000 && -0x4000_0000 <= click_y <= 0x4000_0000
            ==> placeable(click_x as int, click_y as int, width),
        placeable(click_x as int, click_y as int, width) ==> {
            &&& i32::MIN <= click_x - 100
            &&& i32::MIN <= click_y - 100
        },
{
}

/// Without a subsurface there is nothing to destroy.
pub proof fn law_nothing_is_destroyed_twice(app: App)
    ensures
        app.destroy_requests().len() > 0 <==> app.subsurface,
{
}

} // verus!
