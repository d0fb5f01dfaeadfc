//! A window with background blur on one half. Space moves the blur to the other half; only the
//! blur region changes then, and the buffer stays as it is.

use vstd::prelude::*;

use crate::canvas::{fill, painted, premultiplied};
use crate::geometry::{
    buffer_shape, shape_of, side_or, whole, whole_rect, BufferShape, Rect, SurfaceSize,
};
use crate::keys::{is_quit_key, quits, KEY_SPACE};
use crate::seat::Devices;
use crate::steps::{has_steps, stands_at};

verus! {

pub const WINDOW_W: u32 = 400;

pub const WINDOW_H: u32 = 300;

/// Semitransparent white, so that the blur is visible through it.
pub const TINT: u32 = 0x6060_6060;

/// Which half of the surface is covered by blur.
#[derive(Clone, Copy, Debug, PartialEq, Eq, Structural)]
pub enum BlurHalf {
    Left,
    Right,
}

impl BlurHalf {
    /// The other half.
    pub open spec fn other(self) -> BlurHalf {
        match self {
            BlurHalf::Left => BlurHalf::Right,
            BlurHalf::Right => BlurHalf::Left,
        }
    }

    /// Moves on to the other half.
    pub fn toggle(self) -> (half: BlurHalf)
        ensures
            half == self.other(),
    {
        match self {
            BlurHalf::Left => BlurHalf::Right,
            BlurHalf::Right => BlurHalf::Left,
        }
    }

    /// The name of the half.
    pub fn label(self) -> (name: &'static str)
        ensures
            name@ == match self {
                BlurHalf::Left => "left"@,
                BlurHalf::Right => "right"@,
            },
    {
        match self {
            BlurHalf::Left => "left",
            BlurHalf::Right => "right",
        }
    }
}

/// What the client asks of the compositor, and of its buffer pool, in order.
#[derive(Clone, Copy, Debug, PartialEq, Eq, Structural)]
pub enum Request {
    /// Forget the buffer, whose size is out of date.
    DropBuffer,
    /// Replace the blur region by one rectangle.
    SetBlurRegion(Rect),
    /// Get a canvas of this shape and paint it.
    Paint(BufferShape),
    /// Damage part of the buffer.
    Damage(Rect),
    /// Attach the painted buffer.
    Attach,
    /// Commit the surface.
    Commit,
    /// Say which half has the blur now.
    Announce(BlurHalf),
}

/// The part of a `width` by `height` surface that the blur covers.
pub open spec fn blur_rect(half: BlurHalf, width: u32, height: u32) -> Rect {
    let half_w = width as int / 2;
    match half {
        BlurHalf::Left => Rect { x: 0, y: 0, width: half_w as i32, height: height as i32 },
        BlurHalf::Right => Rect {
            x: half_w as i32,
            y: 0,
            width: (width - half_w) as i32,
            height: height as i32,
        },
    }
}

/// Paints the window.
pub fn paint_window(canvas: &mut [u8])
    ensures
        painted(old(canvas)@, final(canvas)@, |i: int| TINT),
{
    fill(canvas, TINT);
}

#[derive(Clone, Copy, Debug, PartialEq, Eq, Structural)]
pub struct App {
    pub exit: bool,
    pub size: SurfaceSize,
    /// The compositor offers background effects.
    pub has_effect: bool,
    pub devices: Devices,
    pub blur_half: BlurHalf,
}

impl App {
    /// The client before any event.
    pub open spec fn initial(has_effect: bool) -> App {
        App {
            exit: false,
            size: SurfaceSize::initial(WINDOW_W, WINDOW_H),
            has_effect,
            devices: Devices::none(),
            blur_half: BlurHalf::Left,
        }
    }

    /// The window's size is one that can be drawn.
    pub open spec fn wf(self) -> bool {
        self.size.is_drawable()
    }

    pub open spec fn draw_requests(self) -> Seq<Request> {
        let width = self.size.width;
        let height = self.size.height;
        seq![
            Request::Paint(shape_of(width, height)),
            Request::Damage(whole(width, height)),
            Request::Attach,
            Request::Commit,
        ]
    }

    pub open spec fn blur_requests(self) -> Seq<Request> {
        if self.has_effect {
            seq![
                Request::SetBlurRegion(
                    blur_rect(self.blur_half, self.size.width, self.size.height),
                ),
            ]
        } else {
            seq![]
        }
    }

    /// The client with the size that a configure event leads to.
    pub open spec fn configured(self, suggested: (Option<u32>, Option<u32>)) -> App {
        App {
            size: SurfaceSize::settled(
                side_or(suggested.0, WINDOW_W),
                side_or(suggested.1, WINDOW_H),
            ),
            ..self
        }
    }

    pub open spec fn configure_requests(self, suggested: (Option<u32>, Option<u32>)) -> Seq<
        Request,
    > {
        let settled = self.configured(suggested);
        if self.size.calls_for_redraw(settled.size.width, settled.size.height) {
            seq![Request::DropBuffer] + settled.blur_requests() + settled.draw_requests()
        } else {
            seq![]
        }
    }

    /// The client after a key press.
    pub open spec fn pressed(self, keysym: u32) -> App {
        if quits(keysym) {
            App { exit: true, ..self }
        } else if keysym == KEY_SPACE {
            App { blur_half: self.blur_half.other(), ..self }
        } else {
            self
        }
    }

    pub open spec fn key_requests(self, keysym: u32) -> Seq<Request> {
        if keysym == KEY_SPACE {
            let switched = self.pressed(keysym);
            seq![Request::Announce(switched.blur_half)] + switched.blur_requests() + seq![
                Request::Commit,
            ]
        } else {
            seq![]
        }
    }

    /// The client that is to end.
    pub open spec fn ending(self) -> App {
        App { exit: true, ..self }
    }

    pub fn new(has_effect: bool) -> (app: App)
        ensures
            app == App::initial(has_effect),
            app.wf(),
    {
        App {
            exit: false,
            size: SurfaceSize::new(WINDOW_W, WINDOW_H),
            has_effect,
            devices: Devices::new(),
            blur_half: BlurHalf::Left,
        }
    }

    /// Paints and shows the whole window.
    pub fn draw_window(&self, requests: &mut Vec<Request>)
        requires
            self.wf(),
        ensures
            final(requests)@ == old(requests)@ + self.draw_requests(),
    {
        let width: u32 = self.size.width;
        let height: u32 = self.size.height;
        requests.push(Request::Paint(buffer_shape(width, height)));
        requests.push(Request::Damage(whole_rect(width, height)));
        requests.push(Request::Attach);
        requests.push(Request::Commit);
    }

    /// Sets the blur region to the half that has the blur.
    pub fn update_blur_region(&self, requests: &mut Vec<Request>)
        requires
            self.size.width <= i32::MAX,
            self.size.height <= i32::MAX,
        ensures
            final(requests)@ == old(requests)@ + self.blur_requests(),
    {
        if self.has_effect {
            let width: i32 = self.size.width as i32;
            let height: i32 = self.size.height as i32;
            let half_w: i32 = width / 2;
            let rect = match self.blur_half {
                BlurHalf::Left => Rect { x: 0, y: 0, width: half_w, height },
                BlurHalf::Right => Rect { x: half_w, y: 0, width: width - half_w, height },
            };
            requests.push(Request::SetBlurRegion(rect));
        }
    }

    /// The compositor asks the window to close.
    pub fn request_close(&mut self)
        ensures
            *final(self) == old(self).ending(),
    {
        self.exit = true;
    }

    /// Handles a configure event: the window is drawn again on the first one and on a new size.
    pub fn configure(&mut self, suggested: (Option<u32>, Option<u32>)) -> (requests: Vec<Request>)
        requires
            old(self).configured(suggested).wf(),
        ensures
            final(self).wf(),
            *final(self) == old(self).configured(suggested),
            requests@ == old(self).configure_requests(suggested),
    {
        let mut requests: Vec<Request> = Vec::new();
        if self.size.configure(suggested, (WINDOW_W, WINDOW_H)) {
            requests.push(Request::DropBuffer);
            self.update_blur_region(&mut requests);
            self.draw_window(&mut requests);
        }
        requests
    }

    /// Handles a key press.
    pub fn press_key(&mut self, keysym: u32) -> (requests: Vec<Request>)
        requires
            old(self).wf(),
        ensures
            final(self).wf(),
            *final(self) == old(self).pressed(keysym),
            requests@ == old(self).key_requests(keysym),
    {
        let mut requests: Vec<Request> = Vec::new();
        if is_quit_key(keysym) {
            self.exit = true;
        } else if keysym == KEY_SPACE {
            self.blur_half = self.blur_half.toggle();
            requests.push(Request::Announce(self.blur_half));
            self.update_blur_region(&mut requests);
            // The compositor must repaint the blur from the region change alone.
            requests.push(Request::Commit);
        }
        requests
    }
}

/// Toggling twice comes back to the same half, and toggling once never does.
pub proof fn law_toggle_twice(half: BlurHalf)
    ensures
        half.other().other() == half,
        half.other() != half,
{
}

/// A key press never paints, damages or attaches a buffer: switching halves changes nothing but
/// the blur region.
pub proof fn law_switching_leaves_the_buffer(app: App, keysym: u32, i: int)
    requires
        0 <= i < app.key_requests(keysym).len(),
    ensures
        !(app.key_requests(keysym)[i] is Paint),
        !(app.key_requests(keysym)[i] is Damage),
        !(app.key_requests(keysym)[i] is Attach),
        !(app.key_requests(keysym)[i] is DropBuffer),
{
}

/// Switching halves is always committed, once and last.
pub proof fn law_switching_is_committed(app: App)
    ensures
        app.key_requests(KEY_SPACE).last() == Request::Commit,
        forall|i: int|
            0 <= i < app.key_requests(KEY_SPACE).len() - 1 ==> #[trigger] app.key_requests(
                KEY_SPACE,
            )[i] != Request::Commit,
{
}

/// The two halves do not overlap, and together they cover the window.
pub proof fn law_halves_partition_the_window(width: u32, height: u32, px: int, py: int)
    requires
        width <= i32::MAX,
        height <= i32::MAX,
    ensures
        whole(width, height).has_point(px, py) <==> blur_rect(
            BlurHalf::Left,
            width,
            height,
        ).has_point(px, py) || blur_rect(BlurHalf::Right, width, height).has_point(px, py),
        !(blur_rect(BlurHalf::Left, width, height).has_point(px, py) && blur_rect(
            BlurHalf::Right,
            width,
            height,
        ).has_point(px, py)),
{
}

/// The tint is a premultiplied color.
pub proof fn law_tint_is_premultiplied()
    ensures
        premultiplied(TINT),
{
}

/// The two halves are as wide as each other, up to one pixel that the right one has more, and both
/// are as high as the window.
pub proof fn law_halves_are_even(width: u32, height: u32)
    requires
        width <= i32::MAX,
        height <= i32::MAX,
    ensures
        ({
            let left = blur_rect(BlurHalf::Left, width, height);
            let right = blur_rect(BlurHalf::Right, width, height);
            &&& 0 <= right.width - left.width <= 1
            &&& left.width + right.width == width
            &&& left.x == 0
            &&& right.x == left.width
            &&& left.y == 0
            &&& right.y == 0
            &&& left.height == height
            &&& right.height == height
        }),
{
}

/// The left half has the columns that end within the first half of the width, and the right half
/// has the others.
pub proof fn law_blur_covers_its_half(half: BlurHalf, width: u32, height: u32, px: int, py: int)
    requires
        width <= i32::MAX,
        height <= i32::MAX,
        0 <= px < width,
        0 <= py < height,
    ensures
        blur_rect(half, width, height).has_point(px, py) <==> (half == BlurHalf::Left <==> 2 * (px
            + 1) <= width),
{
}

/// With background effects, the blur region is set to the present half of the present size, and it
/// is set to nothing else; without them, it is never set.
pub proof fn law_blur_is_set_with_effects_only(app: App, rect: Rect)
    ensures
        app.blur_requests().contains(Request::SetBlurRegion(rect)) <==> app.has_effect && rect
            == blur_rect(app.blur_half, app.size.width, app.size.height),
        forall|i: int|
            0 <= i < app.blur_requests().len() ==> #[trigger] app.blur_requests()[i]
                is SetBlurRegion,
        app.blur_requests().len() <= 1,
{
    if app.has_effect {
        assert(app.blur_requests()[0] is SetBlurRegion);
    }
}

/// Space moves the blur: a point of the window is blurred afterwards exactly if it was not before.
/// The new half is announced, its region is set, and the change is committed, in this order.
pub proof fn law_space_moves_the_blur(app: App, px: int, py: int)
    requires
        app.wf(),
        app.has_effect,
        0 <= px < app.size.width,
        0 <= py < app.size.height,
    ensures
        ({
            let after = app.pressed(KEY_SPACE);
            let old_rect = blur_rect(app.blur_half, app.size.width, app.size.height);
            let new_rect = blur_rect(after.blur_half, app.size.width, app.size.height);
            &&& new_rect.has_point(px, py) <==> !old_rect.has_point(px, py)
            &&& has_steps(
                app.key_requests(KEY_SPACE),
                seq![
                    Request::Announce(after.blur_half),
                    Request::SetBlurRegion(new_rect),
                    Request::Commit,
                ],
            )
        }),
{
    let after = app.pressed(KEY_SPACE);
    let new_rect = blur_rect(after.blur_half, app.size.width, app.size.height);
    assert(stands_at(
        app.key_requests(KEY_SPACE),
        seq![
            Request::Announce(after.blur_half),
            Request::SetBlurRegion(new_rect),
            Request::Commit,
        ],
        seq![0, 1, 2],
    ));
}

/// Space exchanges the halves and changes nothing else, a quit key ends the client and changes
/// nothing else, and any other key does nothing at all.
pub proof fn law_keys_have_one_effect(app: App, keysym: u32)
    ensures
        ({
            let after = app.pressed(keysym);
            &&& after.blur_half != app.blur_half <==> keysym == KEY_SPACE
            &&& after.exit <==> app.exit || quits(keysym)
            &&& after.size == app.size
            &&& after.has_effect == app.has_effect
            &&& after.devices == app.devices
            &&& app.key_requests(keysym).len() > 0 <==> keysym == KEY_SPACE
            &&& app.key_requests(KEY_SPACE).len() == if app.has_effect {
                3int
            } else {
                2
            }
            &&& app.key_requests(KEY_SPACE)[0] == Request::Announce(
                app.pressed(KEY_SPACE).blur_half,
            )
        }),
{
}

/// A configure event settles on the suggested sides, and on the client's own ones where none are
/// suggested; it changes nothing but the size.
pub proof fn law_configure_settles_the_size(app: App, suggested: (Option<u32>, Option<u32>))
    ensures
        ({
            let after = app.configured(suggested);
            &&& suggested.0 matches Some(width) ==> after.size.width == width
            &&& suggested.1 matches Some(height) ==> after.size.height == height
            &&& suggested.0 is None ==> after.size.width == WINDOW_W
            &&& suggested.1 is None ==> after.size.height == WINDOW_H
            &&& !after.size.first_configure
            &&& after == App { size: after.size, ..app }
        }),
{
}

/// A configure event that changes what is known of the size drops the old buffer, sets the blur
/// region for the new size, and paints, damages, attaches and commits a buffer of just that size,
/// and does no more. Any other one does nothing.
pub proof fn law_new_sizes_are_shown(app: App, suggested: (Option<u32>, Option<u32>))
    ensures
        ({
            let after = app.configured(suggested);
            let requests = app.configure_requests(suggested);
            let (width, height) = (after.size.width, after.size.height);
            &&& requests.len() > 0 <==> app.size != after.size
            &&& requests.len() > 0 ==> {
                &&& requests.len() == if app.has_effect {
                    6int
                } else {
                    5
                }
                &&& requests.last() == Request::Commit
                &&& has_steps(
                    requests,
                    seq![
                        Request::DropBuffer,
                        Request::Paint(shape_of(width, height)),
                        Request::Damage(whole(width, height)),
                        Request::Attach,
                        Request::Commit,
                    ],
                )
                &&& app.has_effect ==> has_steps(
                    requests,
                    seq![
                        Request::SetBlurRegion(blur_rect(app.blur_half, width, height)),
                        Request::Commit,
                    ],
                )
            }
        }),
{
    let after = app.configured(suggested);
    let requests = app.configure_requests(suggested);
    let (width, height) = (after.size.width, after.size.height);
    if requests.len() > 0 {
        let shift: int = if app.has_effect {
            1
        } else {
            0
        };
        assert(stands_at(
            requests,
            seq![
                Request::DropBuffer,
                Request::Paint(shape_of(width, height)),
                Request::Damage(whole(width, height)),
                Request::Attach,
                Request::Commit,
            ],
            seq![0, 1 + shift, 2 + shift, 3 + shift, 4 + shift],
        ));
        if app.has_effect {
            assert(stands_at(
                requests,
                seq![
                    Request::SetBlurRegion(blur_rect(app.blur_half, width, height)),
                    Request::Commit,
                ],
                seq![1, 5],
            ));
        }
    }
}

/// The client starts with the blur on the left half, goes on until it is asked to end, and draws on
/// its first configure event, whatever that suggests.
pub proof fn law_start_and_end(app: App, has_effect: bool, suggested: (Option<u32>, Option<u32>))
    ensures
        App::initial(has_effect).blur_half == BlurHalf::Left,
        App::initial(has_effect).has_effect == has_effect,
        !App::initial(has_effect).exit,
        App::initial(has_effect).configure_requests(suggested).contains(Request::Commit),
        app.ending().exit,
        app.ending() == (App { exit: app.ending().exit, ..app }),
{
    law_new_sizes_are_shown(App::initial(has_effect), suggested);
    let requests = App::initial(has_effect).configure_requests(suggested);
    assert(requests[requests.len() - 1] == Request::Commit);
}

} // verus!
