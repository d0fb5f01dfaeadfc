//! A fullscreen background layer surface that loops over frame callbacks. Two buffers, both painted
//! once, take turns, and each frame damages the left half of the surface only.

use vstd::prelude::*;

use crate::canvas::{
    law_row_and_column_of_index, painted, pixel_at, pixel_count, put_pixel, same_rest,
};
use crate::geometry::{
    buffer_shape, drawable, shape_of, whole, whole_rect, BufferShape, Rect, SurfaceSize,
};
use crate::steps::{has_steps, stands_at};

verus! {

/// Dark blue: the half that is damaged with each frame.
pub const LEFT_COLOR: u32 = 0xFF10_2040;

/// Dark red: the half that is never damaged again.
pub const RIGHT_COLOR: u32 = 0xFF40_1010;

/// The color of column `x` of a surface of this width.
pub open spec fn half_color(x: int, width: u32) -> u32 {
    if x < width as int / 2 {
        LEFT_COLOR
    } else {
        RIGHT_COLOR
    }
}

/// The left half of a surface.
pub open spec fn left_half(width: u32, height: u32) -> Rect {
    Rect { x: 0, y: 0, width: (width / 2) as i32, height: height as i32 }
}

/// The halves of a surface of this width are painted.
pub open spec fn halves_painted(before: Seq<u8>, after: Seq<u8>, width: u32) -> bool {
    painted(before, after, |i: int| half_color(i % width as int, width))
}

/// Paints the halves of a surface of this width, so that the damaged region is visually obvious.
pub fn paint_halves(canvas: &mut [u8], width: u32)
    requires
        width > 0 || old(canvas)@.len() < 4,
    ensures
        halves_painted(old(canvas)@, final(canvas)@, width),
{
    let count: usize = canvas.len() / 4;
    let half_w: usize = width as usize / 2;
    let ghost before = canvas@;
    let mut i: usize = 0;
    while i < count
        invariant
            i <= count,
            count == pixel_count(before),
            count > 0 ==> width > 0,
            half_w == width as int / 2,
            same_rest(before, canvas@),
            forall|k: int|
                0 <= k < i ==> #[trigger] pixel_at(canvas@, k) == half_color(
                    k % width as int,
                    width,
                ),
        decreases count - i,
    {
        let x: usize = i % width as usize;
        let color: u32 = if x < half_w {
            LEFT_COLOR
        } else {
            RIGHT_COLOR
        };
        put_pixel(canvas, i, color);
        i += 1;
    }
}

/// What the client asks of the compositor, and of its buffer pool, in order.
#[derive(Clone, Copy, Debug, PartialEq, Eq, Structural)]
pub enum Request {
    /// Forget both buffers, whose size is out of date.
    DropBuffers,
    /// Get a canvas of this shape for one of the two buffers and paint it.
    Paint { buffer: usize, shape: BufferShape },
    /// Tell the size that was settled on.
    AnnounceConfigured { width: u32, height: u32 },
    /// Attach one of the two buffers.
    Attach { buffer: usize },
    Damage(Rect),
    /// Ask for a frame callback.
    Frame,
    Commit,
}

/// What there is to say about a frame callback.
#[derive(Clone, Copy, Debug, PartialEq, Eq, Structural)]
pub struct FrameReport {
    /// The number of callbacks so far, this one included.
    pub count: u64,
    /// The nanoseconds since the last callback, if this is not the first one.
    pub since_last: Option<u64>,
}

#[derive(Clone, Copy, Debug, PartialEq, Eq, Structural)]
pub struct App {
    pub exit: bool,
    pub size: SurfaceSize,
    /// The one of the two buffers that the next frame shows.
    pub current_buf: usize,
    /// When the last frame callback came, in nanoseconds.
    pub last_frame: Option<u64>,
    pub frame_count: u64,
}

impl App {
    /// The client before any event. The compositor decides on the size.
    pub open spec fn initial() -> App {
        App {
            exit: false,
            size: SurfaceSize::initial(0, 0),
            current_buf: 0,
            last_frame: None,
            frame_count: 0,
        }
    }

    /// There are two buffers, of a size that can be drawn, which is not empty once there is one.
    pub open spec fn wf(self) -> bool {
        &&& self.size.is_drawable()
        &&& self.current_buf < 2
        &&& self.is_configured() ==> self.size.width > 0 && self.size.height > 0
    }

    /// The buffers have been painted.
    pub open spec fn is_configured(self) -> bool {
        !self.size.first_configure
    }

    /// The client with the other buffer next.
    pub open spec fn flipped(self) -> App {
        App { current_buf: (1 - self.current_buf) as usize, ..self }
    }

    /// What shows the current buffer with this damage.
    pub open spec fn show_requests(self, damage: Rect) -> Seq<Request> {
        seq![
            Request::Attach { buffer: self.current_buf },
            Request::Damage(damage),
            Request::Frame,
            Request::Commit,
        ]
    }

    pub open spec fn submit_requests(self) -> Seq<Request> {
        self.show_requests(left_half(self.size.width, self.size.height))
    }

    pub open spec fn render_requests(self) -> Seq<Request> {
        let shape = shape_of(self.size.width, self.size.height);
        seq![Request::Paint { buffer: 0, shape }, Request::Paint { buffer: 1, shape }]
    }

    /// The configure event leads to new contents: it has a size, and a new one or the first.
    pub open spec fn redraws(self, width: u32, height: u32) -> bool {
        width != 0 && height != 0 && self.size.calls_for_redraw(width, height)
    }

    /// The client with new buffers of this size, the first one next.
    pub open spec fn restarted(self, width: u32, height: u32) -> App {
        App { size: SurfaceSize::settled(width, height), current_buf: 0, ..self }
    }

    /// The client after a configure event, which shows the first of the new buffers.
    pub open spec fn configured(self, width: u32, height: u32) -> App {
        if self.redraws(width, height) {
            self.restarted(width, height).flipped()
        } else {
            self
        }
    }

    pub open spec fn configure_requests(self, width: u32, height: u32) -> Seq<Request> {
        if self.redraws(width, height) {
            let restarted = self.restarted(width, height);
            seq![Request::DropBuffers] + restarted.render_requests() + seq![
                Request::AnnounceConfigured { width, height },
            ] + restarted.show_requests(whole(width, height))
        } else {
            seq![]
        }
    }

    /// The client after a frame callback at `now`.
    pub open spec fn framed(self, now: u64) -> App {
        App {
            last_frame: Some(now),
            frame_count: (self.frame_count + 1) as u64,
            ..self.flipped()
        }
    }

    pub open spec fn report(self, now: u64) -> FrameReport {
        FrameReport {
            count: (self.frame_count + 1) as u64,
            since_last: match self.last_frame {
                Some(last) => Some(
                    if now >= last {
                        (now - last) as u64
                    } else {
                        0
                    },
                ),
                None => None,
            },
        }
    }

    /// The client that is to end.
    pub open spec fn ending(self) -> App {
        App { exit: true, ..self }
    }

    pub fn new() -> (app: App)
        ensures
            app == App::initial(),
            app.wf(),
    {
        App {
            exit: false,
            size: SurfaceSize::new(0, 0),
            current_buf: 0,
            last_frame: None,
            frame_count: 0,
        }
    }

    /// Paints both buffers.
    pub fn render_both_buffers(&self, requests: &mut Vec<Request>)
        requires
            self.wf(),
        ensures
            final(requests)@ == old(requests)@ + self.render_requests(),
    {
        let shape = buffer_shape(self.size.width, self.size.height);
        requests.push(Request::Paint { buffer: 0, shape });
        requests.push(Request::Paint { buffer: 1, shape });
    }

    /// Attach the current buffer, damage the left half, and commit with a frame callback.
    pub fn submit_frame(&mut self, requests: &mut Vec<Request>)
        requires
            old(self).wf(),
            old(self).is_configured(),
        ensures
            final(self).wf(),
            *final(self) == old(self).flipped(),
            final(requests)@ == old(requests)@ + old(self).submit_requests(),
    {
        requests.push(Request::Attach { buffer: self.current_buf });
        requests.push(
            Request::Damage(
                Rect {
                    x: 0,
                    y: 0,
                    width: self.size.width as i32 / 2,
                    height: self.size.height as i32,
                },
            ),
        );
        requests.push(Request::Frame);
        requests.push(Request::Commit);
        // Flip to the other buffer for next frame.
        self.current_buf = 1 - self.current_buf;
    }

    /// Handles a frame callback at `now`: reports it and submits the next frame.
    pub fn frame(&mut self, now: u64) -> (handled: (FrameReport, Vec<Request>))
        requires
            old(self).wf(),
            old(self).is_configured(),
            old(self).frame_count < u64::MAX,
        ensures
            final(self).wf(),
            *final(self) == old(self).framed(now),
            handled.0 == old(self).report(now),
            handled.1@ == old(self).submit_requests(),
    {
        let mut requests: Vec<Request> = Vec::new();
        self.frame_count = self.frame_count + 1;
        let since_last = match self.last_frame {
            Some(last) => Some(now.saturating_sub(last)),
            None => None,
        };
        let report = FrameReport { count: self.frame_count, since_last };
        self.last_frame = Some(now);
        self.submit_frame(&mut requests);
        (report, requests)
    }

    /// The compositor closes the surface.
    pub fn closed(&mut self)
        ensures
            *final(self) == old(self).ending(),
    {
        self.exit = true;
    }

    /// Handles a configure event. One without a size is ignored; on the first one and on a new size
    /// both buffers are painted and the first one is shown, with full damage.
    pub fn configure(&mut self, new_size: (u32, u32)) -> (requests: Vec<Request>)
        requires
            old(self).wf(),
            new_size.0 != 0 && new_size.1 != 0 ==> drawable(new_size.0, new_size.1),
        ensures
            final(self).wf(),
            *final(self) == old(self).configured(new_size.0, new_size.1),
            requests@ == old(self).configure_requests(new_size.0, new_size.1),
    {
        let mut requests: Vec<Request> = Vec::new();
        let (width, height) = new_size;
        if width == 0 || height == 0 {
            return requests;
        }
        if self.size.settle(width, height) {
            requests.push(Request::DropBuffers);
            self.current_buf = 0;
            self.render_both_buffers(&mut requests);
            requests.push(Request::AnnounceConfigured { width, height });
            // Attach with full damage for the initial frame.
            requests.push(Request::Attach { buffer: self.current_buf });
            requests.push(Request::Damage(whole_rect(width, height)));
            requests.push(Request::Frame);
            requests.push(Request::Commit);
            self.current_buf = 1 - self.current_buf;
        }
        requests
    }
}

/// What a frame damages is exactly the half that has the left color.
pub proof fn law_damage_is_the_left_half(app: App, x: int, y: int)
    requires
        app.wf(),
        app.is_configured(),
        0 <= x < app.size.width,
        0 <= y < app.size.height,
    ensures
        left_half(app.size.width, app.size.height).has_point(x, y) <==> half_color(
            x,
            app.size.width,
        ) == LEFT_COLOR,
        app.submit_requests().contains(
            Request::Damage(left_half(app.size.width, app.size.height)),
        ),
{
    assert(app.submit_requests()[1] == Request::Damage(
        left_half(app.size.width, app.size.height),
    ));
}

/// Two frames in a row never show the same buffer, and the frame after the initial one shows the
/// second buffer.
pub proof fn law_buffers_alternate(app: App, now: u64, width: u32, height: u32)
    requires
        app.wf(),
    ensures
        app.framed(now).current_buf != app.current_buf,
        app.redraws(width, height) ==> app.configure_requests(width, height).contains(
            Request::Attach { buffer: 0 },
        ) && app.configured(width, height).current_buf == 1,
{
    if app.redraws(width, height) {
        assert(app.configure_requests(width, height)[4] == Request::Attach { buffer: 0 });
    }
}

/// Every frame and every new size asks for the next callback before it commits, so the loop goes
/// on.
pub proof fn law_loop_goes_on(app: App, width: u32, height: u32)
    ensures
        app.submit_requests()[2] == Request::Frame,
        app.submit_requests().last() == Request::Commit,
        app.redraws(width, height) ==> {
            let requests = app.configure_requests(width, height);
            &&& requests[requests.len() - 2] == Request::Frame
            &&& requests.last() == Request::Commit
        },
{
}

/// Callbacks paint nothing: the buffers are painted once for each size.
pub proof fn law_frames_paint_nothing(app: App, buffer: usize, shape: BufferShape)
    ensures
        !app.submit_requests().contains(Request::Paint { buffer, shape }),
{
}

/// The reports of two callbacks in a row count up, and the second gives the time between them.
pub proof fn law_reports_follow_each_other(app: App, first: u64, second: u64)
    requires
        app.frame_count + 2 <= u64::MAX,
        first <= second,
    ensures
        app.framed(first).report(second).count == app.report(first).count + 1,
        app.framed(first).report(second).since_last == Some((second - first) as u64),
{
}

/// The columns that end within the first half of the width are blue and damaged with each frame,
/// and all others are red and not damaged.
pub proof fn law_halves_are_even(width: u32, height: u32, x: int, y: int)
    requires
        width <= i32::MAX,
        height <= i32::MAX,
        0 <= x < width,
        0 <= y < height,
    ensures
        2 * (x + 1) <= width ==> half_color(x, width) == LEFT_COLOR && left_half(
            width,
            height,
        ).has_point(x, y),
        2 * (x + 1) > width ==> half_color(x, width) == RIGHT_COLOR && !left_half(
            width,
            height,
        ).has_point(x, y),
        LEFT_COLOR != RIGHT_COLOR,
        left_half(width, height).x == 0,
        left_half(width, height).y == 0,
        left_half(width, height).height == height,
{
}

/// Every frame attaches the buffer that the last frame did not show, damages the left half and no
/// more, asks for the next callback, and commits once, at the end.
pub proof fn law_frames_show_the_other_buffer(app: App, now: u64)
    requires
        app.wf(),
    ensures
        ({
            let first = app.submit_requests();
            let second = app.framed(now).submit_requests();
            &&& first.len() == 4
            &&& first.contains(Request::Attach { buffer: app.current_buf })
            &&& second.contains(Request::Attach { buffer: (1 - app.current_buf) as usize })
            &&& !second.contains(Request::Attach { buffer: app.current_buf })
            &&& app.framed(now).framed(now).current_buf == app.current_buf
            &&& forall|i: int|
                0 <= i < first.len() ==> (#[trigger] first[i] matches Request::Damage(rect) ==> rect
                    == left_half(app.size.width, app.size.height))
            &&& has_steps(
                first,
                seq![
                    Request::Attach { buffer: app.current_buf },
                    Request::Damage(left_half(app.size.width, app.size.height)),
                    Request::Commit,
                ],
            )
            &&& has_steps(first, seq![Request::Frame, Request::Commit])
            &&& forall|i: int|
                0 <= i < first.len() && #[trigger] first[i] == Request::Commit ==> i == first.len()
                    - 1
        }),
{
    let first = app.submit_requests();
    let second = app.framed(now).submit_requests();
    assert(first[0] == Request::Attach { buffer: app.current_buf });
    assert(second[0] == Request::Attach { buffer: (1 - app.current_buf) as usize });
    assert(stands_at(
        first,
        seq![
            Request::Attach { buffer: app.current_buf },
            Request::Damage(left_half(app.size.width, app.size.height)),
            Request::Commit,
        ],
        seq![0, 1, 3],
    ));
    assert(stands_at(first, seq![Request::Frame, Request::Commit], seq![2, 3]));
}

/// A configure event with an empty side does nothing. One that changes what is known of the size
/// drops both buffers, paints both anew in just that size, and shows the first of them with the
/// whole surface damaged, and no more; any other one does nothing.
pub proof fn law_new_sizes_are_shown(app: App, width: u32, height: u32)
    ensures
        ({
            let after = app.configured(width, height);
            let requests = app.configure_requests(width, height);
            let shape = shape_of(width, height);
            &&& requests.len() > 0 <==> width > 0 && height > 0 && app.size
                != SurfaceSize::settled(width, height)
            &&& requests.len() == 0 ==> after == app
            &&& requests.len() > 0 ==> {
                &&& requests.len() == 8
                &&& after.size == SurfaceSize::settled(width, height)
                &&& after.exit == app.exit
                &&& after.frame_count == app.frame_count
                &&& after.last_frame == app.last_frame
                &&& has_steps(
                    requests,
                    seq![
                        Request::DropBuffers,
                        Request::Paint { buffer: 0, shape },
                        Request::Attach { buffer: 0 },
                        Request::Damage(whole(width, height)),
                        Request::Frame,
                        Request::Commit,
                    ],
                )
                &&& has_steps(
                    requests,
                    seq![
                        Request::DropBuffers,
                        Request::Paint { buffer: 1, shape },
                        Request::AnnounceConfigured { width, height },
                        Request::Commit,
                    ],
                )
                &&& after.submit_requests().contains(Request::Attach { buffer: 1 })
            }
        }),
{
    let after = app.configured(width, height);
    let requests = app.configure_requests(width, height);
    let shape = shape_of(width, height);
    if requests.len() > 0 {
        assert(stands_at(
            requests,
            seq![
                Request::DropBuffers,
                Request::Paint { buffer: 0, shape },
                Request::Attach { buffer: 0 },
                Request::Damage(whole(width, height)),
                Request::Frame,
                Request::Commit,
            ],
            seq![0, 1, 4, 5, 6, 7],
        ));
        assert(stands_at(
            requests,
            seq![
                Request::DropBuffers,
                Request::Paint { buffer: 1, shape },
                Request::AnnounceConfigured { width, height },
                Request::Commit,
            ],
            seq![0, 2, 3, 7],
        ));
        assert(after.submit_requests()[0] == Request::Attach { buffer: 1 });
    }
}

/// A callback counts one further, remembers its time, and leaves the size and the end of the client
/// alone. Its report gives the time since the last callback, if there was one, and no time where
/// the clock has gone back.
pub proof fn law_callbacks_are_counted_and_timed(app: App, now: u64)
    requires
        app.frame_count < u64::MAX,
    ensures
        app.framed(now).frame_count == app.frame_count + 1,
        app.framed(now).last_frame == Some(now),
        app.framed(now).size == app.size,
        app.framed(now).exit == app.exit,
        app.report(now).count == app.framed(now).frame_count,
        app.report(now).since_last is None <==> app.last_frame is None,
        app.last_frame matches Some(last) ==> {
            &&& last <= now ==> last + app.report(now).since_last->0 == now
            &&& last > now ==> app.report(now).since_last->0 == 0
        },
{
}

/// The client starts without a size, a callback or a buffer shown, and goes on until it is asked to
/// end.
pub proof fn law_start_and_end(app: App)
    ensures
        App::initial().size.first_configure,
        App::initial().frame_count == 0,
        App::initial().last_frame is None,
        !App::initial().exit,
        app.ending().exit,
        app.ending() == (App { exit: app.ending().exit, ..app }),
{
}

/// In every row of a painted buffer the columns that end within the first half of the width are
/// blue, and all others are red.
pub proof fn law_buffers_have_two_halves(
    before: Seq<u8>,
    after: Seq<u8>,
    width: u32,
    x: int,
    y: int,
)
    requires
        halves_painted(before, after, width),
        0 <= x < width,
        0 <= y,
        4 * (y * width + x) + 4 <= before.len(),
        y * width + x <= u32::MAX,
    ensures
        2 * (x + 1) <= width ==> pixel_at(after, y * width + x) == LEFT_COLOR,
        2 * (x + 1) > width ==> pixel_at(after, y * width + x) == RIGHT_COLOR,
        after.len() == before.len(),
{
    law_row_and_column_of_index(x, y, width);
    assert(0 <= y * width + x < pixel_count(before));
}

} // verus!
