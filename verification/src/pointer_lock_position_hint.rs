//! A window with a persistent pointer lock. A dot follows the pointer's relative motion, and every
//! update sets and commits a cursor position hint at once. A left click toggles the lock.
//!
//! Positions on the surface are counted in the protocol's fixed-point units, of which 256 make up
//! a pixel.

use vstd::prelude::*;

use crate::canvas::{
    law_row_and_column_of_index, painted, pixel_at, pixel_count, put_pixel, same_rest,
};
use crate::geometry::{
    buffer_shape, drawable, shape_of, side_or, whole, whole_rect, BufferShape, Rect,
};
use crate::keys::BUTTON_LEFT;
use crate::seat::Capability;
use crate::steps::{has_steps, once, stands_at};

verus! {

pub const WINDOW_W: u32 = 640;

pub const WINDOW_H: u32 = 480;

/// The fixed-point units in a pixel.
pub const UNITS: i64 = 256;

/// The radius of the dot, in pixels.
pub const DOT_RADIUS: i64 = 8;

/// The width of the ring around the dot, in pixels.
pub const RING_WIDTH: i64 = 2;

/// The width of the window's border, in pixels.
pub const BORDER_WIDTH: u32 = 4;

pub const DOT_COLOR: u32 = 0xFFFF_FFFF;

pub const RING_COLOR: u32 = 0xFFE0_3030;

pub const LOCKED_BORDER_COLOR: u32 = 0xFF30_C060;

pub const UNLOCKED_BORDER_COLOR: u32 = 0xFFD0_9020;

pub const BACKGROUND_COLOR: u32 = 0xFF18_2438;

/// A position in fixed-point units.
#[derive(Clone, Copy, Debug, PartialEq, Eq, Structural)]
pub struct Position {
    pub x: i64,
    pub y: i64,
}

/// The position of the last pixel of a side, or of the first where there is none.
pub open spec fn last_position(side: u32) -> int {
    if side == 0 {
        0
    } else {
        (side - 1) * UNITS
    }
}

/// The value nearest to `value` in the range from zero to `most`.
pub open spec fn clamped(value: int, most: int) -> int {
    if value < 0 {
        0
    } else if value > most {
        most
    } else {
        value
    }
}

fn clamp(value: i64, side: u32) -> (nearest: i64)
    ensures
        nearest == clamped(value as int, last_position(side)),
{
    let most: i64 = side.saturating_sub(1) as i64 * UNITS;
    if value < 0 {
        0
    } else if value > most {
        most
    } else {
        value
    }
}

/// A picture of the window.
#[derive(Clone, Copy, Debug, PartialEq, Eq, Structural)]
pub struct Picture {
    pub width: u32,
    pub height: u32,
    pub dot: Position,
    pub lock_active: bool,
}

/// The pixel `(x, y)` is at most `radius` pixels away from `center`.
pub open spec fn within(x: int, y: int, center: Position, radius: int) -> bool {
    let dx = x * UNITS - center.x;
    let dy = y * UNITS - center.y;
    dx * dx + dy * dy <= (radius * UNITS) * (radius * UNITS)
}

/// The difference, and zero where it would be negative.
pub open spec fn less_or_zero(a: int, b: int) -> int {
    if a >= b {
        a - b
    } else {
        0
    }
}

impl Picture {
    /// The pixel `(x, y)` belongs to the window's border.
    pub open spec fn on_border(self, x: int, y: int) -> bool {
        ||| x < BORDER_WIDTH
        ||| y < BORDER_WIDTH
        ||| x >= less_or_zero(self.width as int, BORDER_WIDTH as int)
        ||| y >= less_or_zero(self.height as int, BORDER_WIDTH as int)
    }

    /// The color of the pixel `(x, y)`: the dot lies on its ring, and both on the border.
    pub open spec fn color_at(self, x: int, y: int) -> u32 {
        if within(x, y, self.dot, DOT_RADIUS as int) {
            DOT_COLOR
        } else if within(x, y, self.dot, DOT_RADIUS + RING_WIDTH) {
            RING_COLOR
        } else if self.on_border(x, y) {
            if self.lock_active {
                LOCKED_BORDER_COLOR
            } else {
                UNLOCKED_BORDER_COLOR
            }
        } else {
            BACKGROUND_COLOR
        }
    }

    /// The executable form of [`Picture::color_at`].
    pub fn color(&self, x: usize, y: usize) -> (color: u32)
        ensures
            color == self.color_at(x as int, y as int),
    {
        if is_within(x, y, self.dot, DOT_RADIUS) {
            DOT_COLOR
        } else if is_within(x, y, self.dot, DOT_RADIUS + RING_WIDTH) {
            RING_COLOR
        } else if x < BORDER_WIDTH as usize || y < BORDER_WIDTH as usize || x
            >= self.width.saturating_sub(BORDER_WIDTH) as usize || y >= self.height.saturating_sub(
            BORDER_WIDTH,
        ) as usize {
            if self.lock_active {
                LOCKED_BORDER_COLOR
            } else {
                UNLOCKED_BORDER_COLOR
            }
        } else {
            BACKGROUND_COLOR
        }
    }

    /// The picture is painted.
    pub open spec fn is_painted(self, before: Seq<u8>, after: Seq<u8>) -> bool {
        painted(
            before,
            after,
            |i: int| self.color_at(i % self.width as int, i / self.width as int),
        )
    }

    /// Paints the picture.
    pub fn paint(&self, canvas: &mut [u8])
        requires
            self.width > 0 || old(canvas)@.len() < 4,
        ensures
            self.is_painted(old(canvas)@, final(canvas)@),
    {
        let count: usize = canvas.len() / 4;
        let width: usize = self.width as usize;
        let ghost before = canvas@;
        let mut i: usize = 0;
        while i < count
            invariant
                i <= count,
                count == pixel_count(before),
                count > 0 ==> width > 0,
                width == self.width,
                same_rest(before, canvas@),
                forall|k: int|
                    0 <= k < i ==> #[trigger] pixel_at(canvas@, k) == self.color_at(
                        k % width as int,
                        k / width as int,
                    ),
            decreases count - i,
        {
            let color: u32 = self.color(i % width, i / width);
            put_pixel(canvas, i, color);
            i += 1;
        }
    }
}

/// The executable form of [`within`].
fn is_within(x: usize, y: usize, center: Position, radius: i64) -> (near: bool)
    requires
        0 <= radius <= 1000,
    ensures
        near == within(x as int, y as int, center, radius as int),
{
    let dx: i128 = x as i128 * UNITS as i128 - center.x as i128;
    let dy: i128 = y as i128 * UNITS as i128 - center.y as i128;
    let reach: i128 = radius as i128 * UNITS as i128;
    if dx > reach || dx < -reach || dy > reach || dy < -reach {
        proof {
            lemma_square_grows(dx as int, reach as int);
            lemma_square_grows(dy as int, reach as int);
        }
        return false;
    }
    assert(0 <= dx * dx <= 256_000 * 256_000) by (nonlinear_arith)
        requires
            -256_000 <= dx <= 256_000,
    ;
    assert(0 <= dy * dy <= 256_000 * 256_000) by (nonlinear_arith)
        requires
            -256_000 <= dy <= 256_000,
    ;
    assert(0 <= reach * reach <= 256_000 * 256_000) by (nonlinear_arith)
        requires
            0 <= reach <= 256_000,
    ;
    dx * dx + dy * dy <= reach * reach
}

proof fn lemma_square_grows(d: int, reach: int)
    requires
        reach >= 0,
    ensures
        d * d >= 0,
        d > reach || d < -reach ==> d * d > reach * reach,
{
    assert(d * d >= 0) by (nonlinear_arith);
    if d > reach || d < -reach {
        assert(d * d > reach * reach) by (nonlinear_arith)
            requires
                d > reach || d < -reach,
                reach >= 0,
        ;
    }
}

/// What there is to say about the pointer lock.
#[derive(Clone, Copy, Debug, PartialEq, Eq, Structural)]
pub enum LockNotice {
    Requested,
    Disabled,
    Activated,
    Deactivated,
}

/// What the client asks of the compositor, and of its buffer pool, in order.
#[derive(Clone, Copy, Debug, PartialEq, Eq, Structural)]
pub enum Request {
    /// Forget the buffer, whose size is out of date.
    DropBuffer,
    /// Get a canvas of this shape and paint the picture on it.
    Paint(BufferShape, Picture),
    Damage(Rect),
    /// Attach the painted buffer.
    Attach,
    /// Ask for a frame callback.
    Frame,
    /// Set the cursor position hint of the pointer lock.
    SetHint(Position),
    Commit,
    GetPointer,
    GetRelativePointer,
    /// Lock the pointer, persistently.
    LockPointer,
    DestroyLock,
    DestroyRelativePointer,
    ReleasePointer,
    Announce(LockNotice),
}

/// What happened in a pointer event.
#[derive(Clone, Copy, Debug, PartialEq, Eq, Structural)]
pub enum PointerEventKind {
    Enter,
    Motion,
    /// The button with this number went down.
    Press { button: u32 },
    /// Anything else.
    Other,
}

/// A pointer event, at a position in fixed-point units.
#[derive(Clone, Copy, Debug, PartialEq, Eq, Structural)]
pub struct PointerEvent {
    pub kind: PointerEventKind,
    pub x: i32,
    pub y: i32,
}

#[derive(Clone, Copy, Debug, PartialEq, Eq, Structural)]
pub struct App {
    pub exit: bool,
    pub width: u32,
    pub height: u32,
    /// A frame callback has been asked for and has not come yet.
    pub frame_pending: bool,
    /// The window does not show the present state.
    pub dirty: bool,
    pub pointer: bool,
    pub relative_pointer: bool,
    /// A pointer lock exists; the compositor decides when it takes effect.
    pub locked_pointer: bool,
    /// The pointer lock is in effect.
    pub lock_active: bool,
    pub dot: Position,
}

impl App {
    /// The client before any event, with the dot in the middle.
    pub open spec fn initial() -> App {
        App {
            exit: false,
            width: WINDOW_W,
            height: WINDOW_H,
            frame_pending: false,
            dirty: true,
            pointer: false,
            relative_pointer: false,
            locked_pointer: false,
            lock_active: false,
            dot: Position { x: (WINDOW_W / 2 * UNITS) as i64, y: (WINDOW_H / 2 * UNITS) as i64 },
        }
    }

    /// The window can be drawn, the dot lies in it, and relative motion and locks come with a
    /// pointer.
    pub open spec fn wf(self) -> bool {
        &&& drawable(self.width, self.height)
        &&& 0 <= self.dot.x <= last_position(self.width)
        &&& 0 <= self.dot.y <= last_position(self.height)
        &&& self.relative_pointer == self.pointer
        &&& self.locked_pointer ==> self.pointer
    }

    /// The client with the dot moved to the nearest position in the window.
    pub open spec fn with_dot(self, x: int, y: int) -> App {
        App {
            dot: Position {
                x: clamped(x, last_position(self.width)) as i64,
                y: clamped(y, last_position(self.height)) as i64,
            },
            ..self
        }
    }

    pub open spec fn hint_requests(self) -> Seq<Request> {
        if self.locked_pointer {
            seq![Request::SetHint(self.dot)]
        } else {
            seq![]
        }
    }

    /// There is something to draw, and somewhere to draw it.
    pub open spec fn draws(self) -> bool {
        self.dirty && self.width != 0 && self.height != 0
    }

    pub open spec fn picture(self) -> Picture {
        Picture {
            width: self.width,
            height: self.height,
            dot: self.dot,
            lock_active: self.lock_active,
        }
    }

    pub open spec fn draw_requests(self) -> Seq<Request> {
        if self.draws() {
            seq![
                Request::Paint(shape_of(self.width, self.height), self.picture()),
                Request::Damage(whole(self.width, self.height)),
                Request::Attach,
                Request::Frame,
            ] + self.hint_requests() + seq![Request::Commit]
        } else {
            seq![]
        }
    }

    pub open spec fn drawn(self) -> App {
        if self.draws() {
            App { dirty: false, frame_pending: true, ..self }
        } else {
            self
        }
    }

    /// The client with something new to show.
    pub open spec fn soiled(self) -> App {
        App { dirty: true, ..self }
    }

    /// What follows a change: the hint goes out at once, and the window is drawn unless a frame
    /// callback is due, which will do it.
    pub open spec fn change_requests(self) -> Seq<Request> {
        self.hint_requests() + seq![Request::Commit] + if self.frame_pending {
            seq![]
        } else {
            self.soiled().draw_requests()
        }
    }

    pub open spec fn changed(self) -> App {
        if self.frame_pending {
            self.soiled()
        } else {
            self.soiled().drawn()
        }
    }

    pub open spec fn toggle_requests(self) -> Seq<Request> {
        if self.locked_pointer {
            seq![Request::DestroyLock] + self.unlocked_by_hand().change_requests() + seq![
                Request::Announce(LockNotice::Disabled),
            ]
        } else if self.pointer {
            seq![
                Request::LockPointer,
                Request::SetHint(self.dot),
                Request::Commit,
                Request::Announce(LockNotice::Requested),
            ]
        } else {
            seq![]
        }
    }

    /// The client without its pointer lock.
    pub open spec fn unlocked_by_hand(self) -> App {
        App { locked_pointer: false, lock_active: false, ..self }
    }

    pub open spec fn toggled(self) -> App {
        if self.locked_pointer {
            self.unlocked_by_hand().changed()
        } else if self.pointer {
            App { locked_pointer: true, ..self }
        } else {
            self
        }
    }

    /// A configure event with these suggestions changes the window's size.
    pub open spec fn resizes(self, suggested: (Option<u32>, Option<u32>)) -> bool {
        side_or(suggested.0, WINDOW_W) != self.width || side_or(suggested.1, WINDOW_H)
            != self.height
    }

    /// The client with the size that a configure event leads to.
    pub open spec fn resized(self, suggested: (Option<u32>, Option<u32>)) -> App {
        if self.resizes(suggested) {
            App {
                width: side_or(suggested.0, WINDOW_W),
                height: side_or(suggested.1, WINDOW_H),
                ..self
            }.with_dot(self.dot.x as int, self.dot.y as int)
        } else {
            self
        }
    }

    pub open spec fn configure_requests(self, suggested: (Option<u32>, Option<u32>)) -> Seq<
        Request,
    > {
        (if self.resizes(suggested) {
            seq![Request::DropBuffer]
        } else {
            seq![]
        }) + self.resized(suggested).change_requests()
    }

    /// The client after a pointer event.
    pub open spec fn pointed(self, event: PointerEvent) -> App {
        match event.kind {
            PointerEventKind::Enter | PointerEventKind::Motion => self.with_dot(
                event.x as int,
                event.y as int,
            ).changed(),
            PointerEventKind::Press { button } if button == BUTTON_LEFT => self.toggled(),
            _ => self,
        }
    }

    pub open spec fn event_requests(self, event: PointerEvent) -> Seq<Request> {
        match event.kind {
            PointerEventKind::Enter | PointerEventKind::Motion => self.with_dot(
                event.x as int,
                event.y as int,
            ).change_requests(),
            PointerEventKind::Press { button } if button == BUTTON_LEFT => self.toggle_requests(),
            _ => seq![],
        }
    }

    /// The client after a sequence of pointer events.
    pub open spec fn pointed_all(self, events: Seq<PointerEvent>) -> App
        decreases events.len(),
    {
        if events.len() == 0 {
            self
        } else {
            self.pointed_all(events.drop_last()).pointed(events.last())
        }
    }

    pub open spec fn events_requests(self, events: Seq<PointerEvent>) -> Seq<Request>
        decreases events.len(),
    {
        if events.len() == 0 {
            seq![]
        } else {
            self.events_requests(events.drop_last()) + self.pointed_all(
                events.drop_last(),
            ).event_requests(events.last())
        }
    }

    /// The pointer is to be got: a seat announces one, and none is held.
    pub open spec fn wants_pointer(self, capability: Capability) -> bool {
        capability == Capability::Pointer && !self.pointer
    }

    pub open spec fn new_capability_requests(self, capability: Capability) -> Seq<Request> {
        if self.wants_pointer(capability) {
            seq![
                Request::GetPointer,
                Request::GetRelativePointer,
                Request::LockPointer,
                Request::SetHint(self.dot),
                Request::Commit,
                Request::Announce(LockNotice::Requested),
            ]
        } else {
            seq![]
        }
    }

    pub open spec fn remove_capability_requests(self, capability: Capability) -> Seq<Request> {
        if capability == Capability::Pointer {
            (if self.locked_pointer {
                seq![Request::DestroyLock]
            } else {
                seq![]
            }) + (if self.relative_pointer {
                seq![Request::DestroyRelativePointer]
            } else {
                seq![]
            }) + (if self.pointer {
                seq![Request::ReleasePointer]
            } else {
                seq![]
            })
        } else {
            seq![]
        }
    }

    /// The client with its pointer, if a seat announces one and none is held.
    pub open spec fn with_capability(self, capability: Capability) -> App {
        if self.wants_pointer(capability) {
            App { pointer: true, relative_pointer: true, locked_pointer: true, ..self }
        } else {
            self
        }
    }

    /// The client without its pointer, if that is what is withdrawn.
    pub open spec fn without_capability(self, capability: Capability) -> App {
        if capability == Capability::Pointer {
            App {
                pointer: false,
                relative_pointer: false,
                locked_pointer: false,
                lock_active: false,
                ..self
            }
        } else {
            self
        }
    }

    /// The client once its frame callback has come, before it draws.
    pub open spec fn called_back(self) -> App {
        App { frame_pending: false, ..self }
    }

    /// The client after a frame callback.
    pub open spec fn framed(self) -> App {
        self.called_back().drawn()
    }

    pub open spec fn frame_requests(self) -> Seq<Request> {
        self.called_back().draw_requests()
    }

    /// The client with its pointer lock in effect or not.
    pub open spec fn with_lock(self, lock_active: bool) -> App {
        App { lock_active, ..self }
    }

    /// The client after its pointer lock took effect, or went out of effect.
    pub open spec fn lock_changed(self, lock_active: bool) -> App {
        self.with_lock(lock_active).changed()
    }

    pub open spec fn lock_requests(self, lock_active: bool) -> Seq<Request> {
        self.with_lock(lock_active).change_requests().push(
            Request::Announce(
                if lock_active {
                    LockNotice::Activated
                } else {
                    LockNotice::Deactivated
                },
            ),
        )
    }

    /// The client after a relative pointer motion.
    pub open spec fn moved(self, delta_x: int, delta_y: int) -> App {
        self.with_dot(self.dot.x + delta_x, self.dot.y + delta_y).changed()
    }

    pub open spec fn move_requests(self, delta_x: int, delta_y: int) -> Seq<Request> {
        self.with_dot(self.dot.x + delta_x, self.dot.y + delta_y).change_requests()
    }

    /// The client after a configure event.
    pub open spec fn configured(self, suggested: (Option<u32>, Option<u32>)) -> App {
        self.resized(suggested).changed()
    }

    /// The client that is to end.
    pub open spec fn ending(self) -> App {
        App { exit: true, ..self }
    }

    pub fn new() -> (app: App)
        ensures
            app == App::initial(),
            app.wf(),
    {
        App {
            exit: false,
            width: WINDOW_W,
            height: WINDOW_H,
            frame_pending: false,
            dirty: true,
            pointer: false,
            relative_pointer: false,
            locked_pointer: false,
            lock_active: false,
            dot: Position { x: WINDOW_W as i64 / 2 * UNITS, y: WINDOW_H as i64 / 2 * UNITS },
        }
    }

    /// Moves the dot to the nearest position in the window.
    pub fn clamp_dot(&mut self)
        ensures
            *final(self) == old(self).with_dot(old(self).dot.x as int, old(self).dot.y as int),
    {
        self.dot = Position { x: clamp(self.dot.x, self.width), y: clamp(self.dot.y, self.height) };
    }

    /// Hints at the dot's position, if there is a pointer lock.
    pub fn set_cursor_position_hint(&self, requests: &mut Vec<Request>)
        ensures
            final(requests)@ == old(requests)@ + self.hint_requests(),
    {
        if self.locked_pointer {
            requests.push(Request::SetHint(self.dot));
        }
    }

    /// Removes the pointer lock, or asks for one if there is a pointer.
    pub fn toggle_pointer_lock(&mut self, requests: &mut Vec<Request>)
        requires
            old(self).wf(),
        ensures
            final(self).wf(),
            *final(self) == old(self).toggled(),
            final(requests)@ == old(requests)@ + old(self).toggle_requests(),
    {
        if self.locked_pointer {
            self.locked_pointer = false;
            requests.push(Request::DestroyLock);
            self.lock_active = false;
            self.visual_changed(requests);
            requests.push(Request::Announce(LockNotice::Disabled));
            return ;
        }
        if !self.pointer {
            return ;
        }
        requests.push(Request::LockPointer);
        self.locked_pointer = true;
        self.set_cursor_position_hint(requests);
        requests.push(Request::Commit);
        requests.push(Request::Announce(LockNotice::Requested));
    }

    /// Reacts to a change of what the window shows.
    pub fn visual_changed(&mut self, requests: &mut Vec<Request>)
        requires
            old(self).wf(),
        ensures
            final(self).wf(),
            *final(self) == old(self).changed(),
            final(requests)@ == old(requests)@ + old(self).change_requests(),
    {
        self.dirty = true;
        // The hint is double-buffered surface state. Send and commit it immediately for every
        // update instead of waiting until the next opportunity to redraw the dot.
        self.set_cursor_position_hint(requests);
        requests.push(Request::Commit);
        if !self.frame_pending {
            self.draw(requests);
        }
    }

    /// Draws the window, if it does not show the present state.
    pub fn draw(&mut self, requests: &mut Vec<Request>)
        requires
            old(self).wf(),
        ensures
            final(self).wf(),
            *final(self) == old(self).drawn(),
            final(requests)@ == old(requests)@ + old(self).draw_requests(),
    {
        if !self.dirty || self.width == 0 || self.height == 0 {
            return ;
        }
        let picture = Picture {
            width: self.width,
            height: self.height,
            dot: self.dot,
            lock_active: self.lock_active,
        };
        requests.push(Request::Paint(buffer_shape(self.width, self.height), picture));
        requests.push(Request::Damage(whole_rect(self.width, self.height)));
        requests.push(Request::Attach);
        requests.push(Request::Frame);
        self.set_cursor_position_hint(requests);
        requests.push(Request::Commit);
        self.dirty = false;
        self.frame_pending = true;
    }

    /// Handles a frame callback.
    pub fn frame(&mut self) -> (requests: Vec<Request>)
        requires
            old(self).wf(),
        ensures
            final(self).wf(),
            *final(self) == old(self).framed(),
            requests@ == old(self).frame_requests(),
    {
        let mut requests: Vec<Request> = Vec::new();
        self.frame_pending = false;
        self.draw(&mut requests);
        requests
    }

    /// The compositor asks the window to close.
    pub fn request_close(&mut self)
        ensures
            *final(self) == old(self).ending(),
    {
        self.exit = true;
    }

    /// Handles a configure event, which always counts as a change.
    pub fn configure(&mut self, suggested: (Option<u32>, Option<u32>)) -> (requests: Vec<Request>)
        requires
            old(self).wf(),
            drawable(side_or(suggested.0, WINDOW_W), side_or(suggested.1, WINDOW_H)),
        ensures
            final(self).wf(),
            *final(self) == old(self).configured(suggested),
            requests@ == old(self).configure_requests(suggested),
    {
        let mut requests: Vec<Request> = Vec::new();
        let width: u32 = match suggested.0 {
            Some(side) => side,
            None => WINDOW_W,
        };
        let height: u32 = match suggested.1 {
            Some(side) => side,
            None => WINDOW_H,
        };
        if width != self.width || height != self.height {
            self.width = width;
            self.height = height;
            requests.push(Request::DropBuffer);
            self.clamp_dot();
        }
        self.visual_changed(&mut requests);
        requests
    }

    /// Gets the pointer of a seat that announces one, unless one is held, and locks it.
    pub fn new_capability(&mut self, capability: Capability) -> (requests: Vec<Request>)
        requires
            old(self).wf(),
        ensures
            final(self).wf(),
            *final(self) == old(self).with_capability(capability),
            requests@ == old(self).new_capability_requests(capability),
    {
        let mut requests: Vec<Request> = Vec::new();
        if capability != Capability::Pointer || self.pointer {
            return requests;
        }
        requests.push(Request::GetPointer);
        requests.push(Request::GetRelativePointer);
        requests.push(Request::LockPointer);
        self.pointer = true;
        self.relative_pointer = true;
        self.locked_pointer = true;
        self.set_cursor_position_hint(&mut requests);
        requests.push(Request::Commit);
        requests.push(Request::Announce(LockNotice::Requested));
        requests
    }

    /// Gives back everything that hangs on the pointer when its capability is withdrawn.
    pub fn remove_capability(&mut self, capability: Capability) -> (requests: Vec<Request>)
        requires
            old(self).wf(),
        ensures
            final(self).wf(),
            *final(self) == old(self).without_capability(capability),
            requests@ == old(self).remove_capability_requests(capability),
    {
        let mut requests: Vec<Request> = Vec::new();
        if capability != Capability::Pointer {
            return requests;
        }
        if self.locked_pointer {
            self.locked_pointer = false;
            requests.push(Request::DestroyLock);
        }
        if self.relative_pointer {
            self.relative_pointer = false;
            requests.push(Request::DestroyRelativePointer);
        }
        if self.pointer {
            self.pointer = false;
            requests.push(Request::ReleasePointer);
        }
        self.lock_active = false;
        requests
    }

    /// Handles a group of pointer events: the dot follows the pointer, and a left click toggles the
    /// pointer lock.
    pub fn pointer_frame(&mut self, events: &[PointerEvent]) -> (requests: Vec<Request>)
        requires
            old(self).wf(),
        ensures
            final(self).wf(),
            *final(self) == old(self).pointed_all(events@),
            requests@ == old(self).events_requests(events@),
    {
        let ghost start = *self;
        let mut requests: Vec<Request> = Vec::new();
        let mut i: usize = 0;
        while i < events.len()
            invariant
                i <= events@.len(),
                self.wf(),
                *self == start.pointed_all(events@.take(i as int)),
                requests@ == start.events_requests(events@.take(i as int)),
            decreases events@.len() - i,
        {
            let event = events[i];
            assert(events@.take(i + 1).drop_last() =~= events@.take(i as int));
            match event.kind {
                PointerEventKind::Enter | PointerEventKind::Motion => {
                    self.dot = Position { x: event.x as i64, y: event.y as i64 };
                    self.clamp_dot();
                    self.visual_changed(&mut requests);
                },
                PointerEventKind::Press { button } => {
                    if button == BUTTON_LEFT {
                        self.toggle_pointer_lock(&mut requests);
                    }
                },
                PointerEventKind::Other => {},
            }
            i += 1;
        }
        assert(events@.take(i as int) =~= events@);
        requests
    }

    /// The pointer lock takes effect.
    pub fn locked(&mut self) -> (requests: Vec<Request>)
        requires
            old(self).wf(),
        ensures
            final(self).wf(),
            *final(self) == old(self).lock_changed(true),
            requests@ == old(self).lock_requests(true),
    {
        let mut requests: Vec<Request> = Vec::new();
        self.lock_active = true;
        self.visual_changed(&mut requests);
        requests.push(Request::Announce(LockNotice::Activated));
        requests
    }

    /// The pointer lock goes out of effect.
    pub fn unlocked(&mut self) -> (requests: Vec<Request>)
        requires
            old(self).wf(),
        ensures
            final(self).wf(),
            *final(self) == old(self).lock_changed(false),
            requests@ == old(self).lock_requests(false),
    {
        let mut requests: Vec<Request> = Vec::new();
        self.lock_active = false;
        self.visual_changed(&mut requests);
        requests.push(Request::Announce(LockNotice::Deactivated));
        requests
    }

    /// Moves the dot by a relative pointer motion, in fixed-point units.
    pub fn relative_pointer_motion(&mut self, delta_x: i32, delta_y: i32) -> (requests: Vec<
        Request,
    >)
        requires
            old(self).wf(),
        ensures
            final(self).wf(),
            *final(self) == old(self).moved(delta_x as int, delta_y as int),
            requests@ == old(self).move_requests(delta_x as int, delta_y as int),
    {
        let mut requests: Vec<Request> = Vec::new();
        self.dot = Position { x: self.dot.x + delta_x as i64, y: self.dot.y + delta_y as i64 };
        self.clamp_dot();
        self.visual_changed(&mut requests);
        requests
    }
}

/// Every change sends its hint and commits it before anything else, whether or not the window is
/// drawn.
pub proof fn law_hint_goes_out_at_once(app: App)
    ensures
        app.locked_pointer ==> app.change_requests()[0] == Request::SetHint(app.dot)
            && app.change_requests()[1] == Request::Commit,
        !app.locked_pointer ==> app.change_requests()[0] == Request::Commit,
{
}

/// A hint is always the dot's position, and none is sent without a pointer lock.
pub proof fn law_hints_are_the_dot(app: App, position: Position)
    ensures
        app.change_requests().contains(Request::SetHint(position)) ==> app.locked_pointer
            && position == app.dot,
        app.draw_requests().contains(Request::SetHint(position)) ==> app.locked_pointer && position
            == app.dot,
{
}

/// At most one frame callback is due: a change asks for one only when none is pending, only once,
/// and it is pending afterwards.
pub proof fn law_one_frame_callback(app: App, i: int, j: int)
    ensures
        0 <= i < app.change_requests().len() && 0 <= j < app.change_requests().len()
            && app.change_requests()[i] == Request::Frame && app.change_requests()[j]
            == Request::Frame ==> i == j,
        app.change_requests().contains(Request::Frame) ==> !app.frame_pending
            && app.changed().frame_pending,
        app.changed().frame_pending && !app.frame_pending ==> app.change_requests().contains(
            Request::Frame,
        ),
{
    if !app.frame_pending && app.soiled().draws() {
        let requests = app.change_requests();
        let start: int = app.hint_requests().len() as int + 1;
        assert(requests[start + 3] == app.soiled().draw_requests()[3]);
    }
}

/// No change is lost: after a change the window is drawn, or it stays marked for the callback that
/// is due.
pub proof fn law_changes_are_shown(app: App)
    requires
        app.width != 0,
        app.height != 0,
    ensures
        app.changed().dirty ==> app.changed().frame_pending,
        !app.changed().dirty ==> app.change_requests().contains(
            Request::Paint(shape_of(app.width, app.height), app.picture()),
        ),
        !(App { frame_pending: false, ..app }).drawn().dirty,
{
    if !app.frame_pending {
        let requests = app.change_requests();
        let start: int = app.hint_requests().len() as int + 1;
        assert(requests[start + 0] == app.soiled().draw_requests()[0]);
    }
}

/// Clicking twice brings back the pointer lock, or its absence, while there is a pointer; without
/// one a click does nothing.
pub proof fn law_two_clicks_cancel(app: App)
    requires
        app.wf(),
    ensures
        app.toggled().toggled().locked_pointer == app.locked_pointer,
        app.pointer ==> app.toggled().locked_pointer != app.locked_pointer,
        !app.pointer ==> app.toggled() == app,
{
}

/// Withdrawing the pointer gives back whatever announcing it got.
pub proof fn law_removal_gives_everything_back(app: App)
    requires
        app.wf(),
        app.pointer,
    ensures
        app.remove_capability_requests(Capability::Pointer).contains(Request::ReleasePointer),
        app.remove_capability_requests(Capability::Pointer).contains(
            Request::DestroyRelativePointer,
        ),
        app.remove_capability_requests(Capability::Pointer).contains(Request::DestroyLock)
            <==> app.locked_pointer,
{
    let requests = app.remove_capability_requests(Capability::Pointer);
    if app.locked_pointer {
        assert(requests[0] == Request::DestroyLock);
        assert(requests[1] == Request::DestroyRelativePointer);
        assert(requests[2] == Request::ReleasePointer);
    } else {
        assert(requests[0] == Request::DestroyRelativePointer);
        assert(requests[1] == Request::ReleasePointer);
    }
}

/// The dot is where it is drawn: its own pixel has the dot's color, whatever else is there.
pub proof fn law_dot_is_on_top(picture: Picture, x: int, y: int)
    requires
        picture.dot.x == x * UNITS,
        picture.dot.y == y * UNITS,
    ensures
        picture.color_at(x, y) == DOT_COLOR,
{
}

/// The distance of two numbers.
pub open spec fn distance(a: int, b: int) -> int {
    if a >= b {
        a - b
    } else {
        b - a
    }
}

/// The dot goes to the position in the window that is nearest to the one it is sent to: it stays
/// between the first and the last pixel, and no position there is nearer. So a position in the
/// window is reached exactly.
pub proof fn law_dot_goes_to_the_nearest_position(app: App, x: int, y: int, qx: int, qy: int)
    requires
        app.wf(),
        0 <= qx <= 256 * (app.width - 1) || app.width == 0 && qx == 0,
        0 <= qy <= 256 * (app.height - 1) || app.height == 0 && qy == 0,
    ensures
        ({
            let dot = app.with_dot(x, y).dot;
            &&& 0 <= dot.x <= 256 * (app.width - 1) || app.width == 0 && dot.x == 0
            &&& 0 <= dot.y <= 256 * (app.height - 1) || app.height == 0 && dot.y == 0
            &&& distance(dot.x as int, x) <= distance(qx, x)
            &&& distance(dot.y as int, y) <= distance(qy, y)
            &&& app.with_dot(x, y) == App { dot, ..app }
        }),
{
}

/// What a compositor has of the window: the picture on the client's canvas, the one that is
/// attached, the damage since the last commit, and the picture that is shown.
pub struct Screen {
    pub canvas: Option<Picture>,
    pub attached: Option<Picture>,
    pub damage: Option<Rect>,
    pub shown: Option<Picture>,
}

impl Screen {
    /// The picture is damaged as a whole.
    pub open spec fn is_damaged(self, picture: Picture) -> bool {
        self.damage matches Some(rect) && {
            &&& rect.x == 0
            &&& rect.y == 0
            &&& rect.width == picture.width
            &&& rect.height == picture.height
        }
    }

    /// What a request does to the screen. A picture counts as painted if its canvas has its size,
    /// and a commit shows what is attached if that was damaged as a whole.
    pub open spec fn after(self, request: Request) -> Screen {
        match request {
            Request::Paint(shape, picture) => Screen {
                canvas: if shape.is_exact(picture.width as int, picture.height as int) {
                    Some(picture)
                } else {
                    None
                },
                ..self
            },
            Request::Damage(rect) => Screen { damage: Some(rect), ..self },
            Request::Attach => Screen { attached: self.canvas, ..self },
            Request::Commit => Screen {
                damage: None,
                shown: if self.attached matches Some(picture) && self.is_damaged(picture) {
                    self.attached
                } else {
                    self.shown
                },
                ..self
            },
            _ => self,
        }
    }

    /// What a sequence of requests does to the screen.
    pub open spec fn after_all(self, requests: Seq<Request>) -> Screen
        decreases requests.len(),
    {
        if requests.len() == 0 {
            self
        } else {
            self.after_all(requests.drop_last()).after(requests.last())
        }
    }
}

proof fn lemma_screen_push(screen: Screen, requests: Seq<Request>, request: Request)
    ensures
        screen.after_all(requests.push(request)) == screen.after_all(requests).after(request),
{
    assert(requests.push(request).drop_last() =~= requests);
}

proof fn lemma_screen_concat(screen: Screen, one: Seq<Request>, other: Seq<Request>)
    ensures
        screen.after_all(one + other) == screen.after_all(one).after_all(other),
    decreases other.len(),
{
    if other.len() == 0 {
        assert(one + other =~= one);
    } else {
        assert((one + other).drop_last() =~= one + other.drop_last());
        lemma_screen_concat(screen, one, other.drop_last());
    }
}

/// The window shows the present state, or will do so with the frame callback that is due. An empty
/// window has nothing to show. No damage is left over.
pub open spec fn in_step(app: App, screen: Screen) -> bool {
    &&& screen.damage is None
    &&& app.width != 0 && app.height != 0 ==> screen.shown == Some(app.picture()) || app.dirty
        && app.frame_pending
}

proof fn lemma_hint_keeps_screen(app: App, screen: Screen)
    ensures
        screen.after_all(app.hint_requests()) == screen,
{
    if app.locked_pointer {
        let empty: Seq<Request> = seq![];
        assert(app.hint_requests() =~= empty.push(Request::SetHint(app.dot)));
        lemma_screen_push(screen, empty, Request::SetHint(app.dot));
    }
}

proof fn lemma_draw_shows(app: App, screen: Screen)
    requires
        app.wf(),
        app.draws(),
    ensures
        screen.after_all(app.draw_requests()).shown == Some(app.picture()),
        screen.after_all(app.draw_requests()).damage is None,
{
    let shape = shape_of(app.width, app.height);
    let rect = whole(app.width, app.height);
    let r0: Seq<Request> = seq![];
    let r1 = r0.push(Request::Paint(shape, app.picture()));
    let r2 = r1.push(Request::Damage(rect));
    let r3 = r2.push(Request::Attach);
    let r4 = r3.push(Request::Frame);
    lemma_screen_push(screen, r0, Request::Paint(shape, app.picture()));
    lemma_screen_push(screen, r1, Request::Damage(rect));
    lemma_screen_push(screen, r2, Request::Attach);
    lemma_screen_push(screen, r3, Request::Frame);
    let r5 = r4 + app.hint_requests();
    lemma_screen_concat(screen, r4, app.hint_requests());
    lemma_hint_keeps_screen(app, screen.after_all(r4));
    lemma_screen_push(screen, r5, Request::Commit);
    assert(app.draw_requests() =~= r5.push(Request::Commit));
}

proof fn lemma_change_keeps_step(app: App, screen: Screen)
    requires
        app.wf(),
        screen.damage is None,
    ensures
        in_step(app.changed(), screen.after_all(app.change_requests())),
{
    let hint = app.hint_requests();
    let start = hint.push(Request::Commit);
    lemma_hint_keeps_screen(app, screen);
    lemma_screen_push(screen, hint, Request::Commit);
    let draw = if app.frame_pending {
        seq![]
    } else {
        app.soiled().draw_requests()
    };
    assert(app.change_requests() =~= start + draw);
    lemma_screen_concat(screen, start, draw);
    if !app.frame_pending && app.soiled().draws() {
        lemma_draw_shows(app.soiled(), screen.after_all(start));
    }
}

/// The window keeps in step with the dot and the lock: whatever a pointer event, a relative motion,
/// a lock that takes effect or goes out of effect, or a configure event changes, the window shows
/// the new state afterwards, or is marked for the frame callback that is due. Of what was shown
/// before nothing needs to be known but for the events that change nothing. A pointer that is
/// withdrawn is not among these: it takes the lock out of effect, and the next change shows that.
#[verifier::spinoff_prover]
pub proof fn law_window_keeps_in_step(
    app: App,
    screen: Screen,
    event: PointerEvent,
    delta_x: i32,
    delta_y: i32,
    lock_active: bool,
    suggested: (Option<u32>, Option<u32>),
)
    requires
        app.wf(),
        screen.damage is None,
    ensures
        in_step(
            app.moved(delta_x as int, delta_y as int),
            screen.after_all(app.move_requests(delta_x as int, delta_y as int)),
        ),
        in_step(
            app.lock_changed(lock_active),
            screen.after_all(app.lock_requests(lock_active)),
        ),
        drawable(side_or(suggested.0, WINDOW_W), side_or(suggested.1, WINDOW_H)) ==> in_step(
            app.configured(suggested),
            screen.after_all(app.configure_requests(suggested)),
        ),
        event.kind is Enter || event.kind is Motion ==> in_step(
            app.pointed(event),
            screen.after_all(app.event_requests(event)),
        ),
        in_step(app, screen) ==> in_step(
            app.pointed(event),
            screen.after_all(app.event_requests(event)),
        ),
        app.pointed(event).dot != app.dot || app.pointed(event).lock_active != app.lock_active
            ==> in_step(app.pointed(event), screen.after_all(app.event_requests(event))),
        in_step(app, screen) ==> in_step(app.framed(), screen.after_all(app.frame_requests())),
{
    let moved = app.with_dot(app.dot.x + delta_x, app.dot.y + delta_y);
    lemma_change_keeps_step(moved, screen);
    let relocked = app.with_lock(lock_active);
    lemma_change_keeps_step(relocked, screen);
    let notice = Request::Announce(
        if lock_active {
            LockNotice::Activated
        } else {
            LockNotice::Deactivated
        },
    );
    lemma_screen_push(screen, relocked.change_requests(), notice);
    if drawable(side_or(suggested.0, WINDOW_W), side_or(suggested.1, WINDOW_H)) {
        let resized = app.resized(suggested);
        lemma_change_keeps_step(resized, screen);
        let drop: Seq<Request> = if app.resizes(suggested) {
            seq![Request::DropBuffer]
        } else {
            seq![]
        };
        lemma_screen_concat(screen, drop, resized.change_requests());
        if app.resizes(suggested) {
            let empty: Seq<Request> = seq![];
            lemma_screen_push(screen, empty, Request::DropBuffer);
            assert(drop =~= empty.push(Request::DropBuffer));
        }
    }
    lemma_events_keep_step(app, screen, event);
    if in_step(app, screen) {
        let called = app.called_back();
        if called.draws() {
            lemma_draw_shows(called, screen);
        }
    }
}

proof fn lemma_events_keep_step(app: App, screen: Screen, event: PointerEvent)
    requires
        app.wf(),
        screen.damage is None,
    ensures
        ({
            let after = app.pointed(event);
            let result = screen.after_all(app.event_requests(event));
            &&& event.kind is Enter || event.kind is Motion || app.locked_pointer
                && app.toggled() == after && app.event_requests(event).len() > 0 ==> in_step(
                after,
                result,
            )
            &&& in_step(app, screen) ==> in_step(after, result)
            &&& result.damage is None
        }),
{
    match event.kind {
        PointerEventKind::Enter | PointerEventKind::Motion => {
            lemma_change_keeps_step(app.with_dot(event.x as int, event.y as int), screen);
        },
        PointerEventKind::Press { button } if button == BUTTON_LEFT => {
            let empty: Seq<Request> = seq![];
            if app.locked_pointer {
                let unlocked = app.unlocked_by_hand();
                let first = empty.push(Request::DestroyLock);
                lemma_screen_push(screen, empty, Request::DestroyLock);
                lemma_change_keeps_step(unlocked, screen);
                lemma_screen_concat(screen, first, unlocked.change_requests());
                let most = first + unlocked.change_requests();
                lemma_screen_push(screen, most, Request::Announce(LockNotice::Disabled));
                assert(app.event_requests(event) =~= most.push(
                    Request::Announce(LockNotice::Disabled),
                ));
            } else if app.pointer {
                let r1 = empty.push(Request::LockPointer);
                let r2 = r1.push(Request::SetHint(app.dot));
                let r3 = r2.push(Request::Commit);
                lemma_screen_push(screen, empty, Request::LockPointer);
                lemma_screen_push(screen, r1, Request::SetHint(app.dot));
                lemma_screen_push(screen, r2, Request::Commit);
                lemma_screen_push(screen, r3, Request::Announce(LockNotice::Requested));
                assert(app.event_requests(event) =~= r3.push(
                    Request::Announce(LockNotice::Requested),
                ));
            }
        },
        _ => {},
    }
}

/// A whole group of pointer events keeps the window in step.
pub proof fn law_groups_keep_in_step(app: App, screen: Screen, events: Seq<PointerEvent>)
    requires
        app.wf(),
        in_step(app, screen),
    ensures
        app.pointed_all(events).wf(),
        in_step(app.pointed_all(events), screen.after_all(app.events_requests(events))),
    decreases events.len(),
{
    if events.len() > 0 {
        let before = events.drop_last();
        law_groups_keep_in_step(app, screen, before);
        lemma_events_keep_step(
            app.pointed_all(before),
            screen.after_all(app.events_requests(before)),
            events.last(),
        );
        lemma_screen_concat(
            screen,
            app.events_requests(before),
            app.pointed_all(before).event_requests(events.last()),
        );
    }
}

/// A click that changes the lock, or a pointer event that moves the dot, paints the new state at
/// once, or leaves it to the frame callback that is due.
pub proof fn law_changes_are_painted_or_due(app: App, event: PointerEvent)
    requires
        app.wf(),
        app.width != 0,
        app.height != 0,
        app.pointed(event).dot != app.dot || app.pointed(event).lock_active != app.lock_active,
    ensures
        ({
            let after = app.pointed(event);
            ||| after.dirty && after.frame_pending
            ||| app.event_requests(event).contains(
                Request::Paint(shape_of(after.width, after.height), after.picture()),
            )
        }),
{
    let after = app.pointed(event);
    let requests = app.event_requests(event);
    match event.kind {
        PointerEventKind::Enter | PointerEventKind::Motion => {
            let moved = app.with_dot(event.x as int, event.y as int);
            law_changes_are_shown(moved);
        },
        PointerEventKind::Press { button } if button == BUTTON_LEFT => {
            let unlocked = app.unlocked_by_hand();
            law_changes_are_shown(unlocked);
            if !after.dirty {
                let paint = Request::Paint(shape_of(after.width, after.height), after.picture());
                let i = unlocked.change_requests().index_of(paint);
                assert(unlocked.change_requests()[i] == paint);
                assert(requests[i + 1] == paint);
            }
        },
        _ => {},
    }
}

/// Whatever moves the dot while the pointer is locked hints at where it is now and commits that
/// before anything else. No event hints at any other position.
#[verifier::spinoff_prover]
pub proof fn law_moves_are_hinted_at(
    app: App,
    event: PointerEvent,
    delta_x: i32,
    delta_y: i32,
    i: int,
)
    requires
        app.wf(),
    ensures
        ({
            let after = app.moved(delta_x as int, delta_y as int);
            let requests = app.move_requests(delta_x as int, delta_y as int);
            &&& app.locked_pointer ==> requests[0] == Request::SetHint(after.dot) && requests[1]
                == Request::Commit
            &&& !app.locked_pointer ==> requests[0] == Request::Commit
            &&& 0 <= i < requests.len() ==> (requests[i] matches Request::SetHint(position)
                ==> app.locked_pointer && position == after.dot)
        }),
        ({
            let after = app.pointed(event);
            let requests = app.event_requests(event);
            &&& event.kind is Enter || event.kind is Motion ==> {
                &&& app.locked_pointer ==> requests[0] == Request::SetHint(after.dot)
                    && requests[1] == Request::Commit
                &&& !app.locked_pointer ==> requests[0] == Request::Commit
            }
            &&& 0 <= i < requests.len() ==> (requests[i] matches Request::SetHint(position)
                ==> after.locked_pointer && position == after.dot)
        }),
{
}

/// The dot follows the pointer, and is moved by relative motion: it goes to where the pointer is,
/// or by as much as the pointer has moved, as far as the window reaches. Nothing else changes but
/// what drawing changes.
pub proof fn law_dot_follows_the_pointer(
    app: App,
    event: PointerEvent,
    delta_x: i32,
    delta_y: i32,
)
    requires
        app.wf(),
    ensures
        ({
            let after = app.moved(delta_x as int, delta_y as int);
            &&& after.dot == app.with_dot(app.dot.x + delta_x, app.dot.y + delta_y).dot
            &&& 0 <= app.dot.x + delta_x <= 256 * (app.width - 1) ==> after.dot.x == app.dot.x
                + delta_x
            &&& 0 <= app.dot.y + delta_y <= 256 * (app.height - 1) ==> after.dot.y == app.dot.y
                + delta_y
            &&& after == App {
                dot: after.dot,
                dirty: after.dirty,
                frame_pending: after.frame_pending,
                ..app
            }
        }),
        ({
            let after = app.pointed(event);
            &&& event.kind is Enter || event.kind is Motion ==> {
                &&& after.dot == app.with_dot(event.x as int, event.y as int).dot
                &&& 0 <= event.x <= 256 * (app.width - 1) ==> after.dot.x == event.x
                &&& 0 <= event.y <= 256 * (app.height - 1) ==> after.dot.y == event.y
                &&& after == App {
                    dot: after.dot,
                    dirty: after.dirty,
                    frame_pending: after.frame_pending,
                    ..app
                }
            }
            &&& event.kind is Press || event.kind is Other ==> after.dot == app.dot
            &&& after != app ==> event.kind is Enter || event.kind is Motion || event.kind
                == (PointerEventKind::Press { button: BUTTON_LEFT })
            &&& event.kind is Other ==> app.event_requests(event).len() == 0
            &&& event.kind matches PointerEventKind::Press { button } ==> (button != BUTTON_LEFT
                ==> app.event_requests(event).len() == 0)
        }),
{
}

/// A left click with a pointer exchanges having a pointer lock and having none. A lock that goes is
/// destroyed, is in effect no longer, and this is committed; one that is asked for gets its hint
/// before it is committed. A click without a pointer asks for nothing.
pub proof fn law_left_clicks_toggle_the_lock(app: App, event: PointerEvent)
    requires
        app.wf(),
        event.kind == (PointerEventKind::Press { button: BUTTON_LEFT }),
    ensures
        ({
            let after = app.pointed(event);
            let requests = app.event_requests(event);
            &&& app.pointer ==> after.locked_pointer != app.locked_pointer
            &&& !app.pointer ==> after == app && requests.len() == 0
            &&& after.pointer == app.pointer
            &&& app.locked_pointer ==> {
                &&& !after.lock_active
                &&& requests.len() == 2 + app.unlocked_by_hand().change_requests().len()
                &&& once(requests, Request::DestroyLock)
                &&& has_steps(
                    requests,
                    seq![
                        Request::DestroyLock,
                        Request::Commit,
                        Request::Announce(LockNotice::Disabled),
                    ],
                )
                &&& !requests.contains(Request::LockPointer)
            }
            &&& app.pointer && !app.locked_pointer ==> {
                &&& requests.len() == 4
                &&& after == App { locked_pointer: true, ..app }
                &&& after.lock_active == app.lock_active
                &&& once(requests, Request::LockPointer)
                &&& has_steps(
                    requests,
                    seq![
                        Request::LockPointer,
                        Request::SetHint(app.dot),
                        Request::Commit,
                        Request::Announce(LockNotice::Requested),
                    ],
                )
                &&& !requests.contains(Request::DestroyLock)
            }
        }),
{
    let requests = app.event_requests(event);
    if app.locked_pointer {
        assert(requests[0] == Request::DestroyLock);
        assert(stands_at(
            requests,
            seq![
                Request::DestroyLock,
                Request::Commit,
                Request::Announce(LockNotice::Disabled),
            ],
            seq![0, 1, requests.len() - 1],
        ));
    } else if app.pointer {
        assert(requests[0] == Request::LockPointer);
        assert(stands_at(
            requests,
            seq![
                Request::LockPointer,
                Request::SetHint(app.dot),
                Request::Commit,
                Request::Announce(LockNotice::Requested),
            ],
            seq![0, 1, 2, 3],
        ));
    }
}

/// The lock is in effect exactly from when the compositor says so until it says otherwise, and each
/// change is told, after all else.
pub proof fn law_lock_follows_the_compositor(app: App)
    ensures
        app.lock_changed(true).lock_active,
        !app.lock_changed(false).lock_active,
        app.lock_requests(true).last() == Request::Announce(LockNotice::Activated),
        app.lock_requests(false).last() == Request::Announce(LockNotice::Deactivated),
        app.lock_changed(true).locked_pointer == app.locked_pointer,
        app.lock_changed(false).locked_pointer == app.locked_pointer,
        app.lock_changed(true).dot == app.dot,
        app.lock_changed(false).dot == app.dot,
{
}

/// A frame callback draws what is not shown yet, with a hint at the dot if the pointer is locked,
/// and nothing otherwise. No callback is due then, unless the drawing has asked for the next one,
/// which it always does.
pub proof fn law_callbacks_draw_what_is_due(app: App)
    ensures
        ({
            let after = app.framed();
            let requests = app.frame_requests();
            let due = app.dirty && app.width > 0 && app.height > 0;
            &&& requests.len() > 0 <==> due
            &&& after.frame_pending <==> due
            &&& due ==> {
                &&& !after.dirty
                &&& has_steps(requests, seq![Request::Frame, Request::Commit])
                &&& once(requests, Request::Commit)
                &&& requests.contains(
                    Request::Paint(shape_of(app.width, app.height), app.picture()),
                )
                &&& app.locked_pointer ==> has_steps(
                    requests,
                    seq![Request::SetHint(app.dot), Request::Commit],
                )
            }
            &&& !due ==> after.dirty == app.dirty
            &&& after == App {
                dirty: after.dirty,
                frame_pending: after.frame_pending,
                ..app
            }
        }),
{
    let requests = app.frame_requests();
    if app.called_back().draws() {
        let last = requests.len() - 1;
        assert(requests[0] == Request::Paint(shape_of(app.width, app.height), app.picture()));
        assert(requests[last] == Request::Commit);
        assert(stands_at(requests, seq![Request::Frame, Request::Commit], seq![3, last]));
        if app.locked_pointer {
            assert(stands_at(
                requests,
                seq![Request::SetHint(app.dot), Request::Commit],
                seq![4, last],
            ));
        }
    }
}

/// A configure event settles on the suggested sides, and on the client's own ones where none are
/// suggested; the dot stays where it is, or goes to the nearest position in the new window. The old
/// buffer is dropped, before anything else, exactly if the size changes.
pub proof fn law_configure_settles_the_size(app: App, suggested: (Option<u32>, Option<u32>))
    requires
        app.wf(),
        drawable(side_or(suggested.0, WINDOW_W), side_or(suggested.1, WINDOW_H)),
    ensures
        ({
            let after = app.configured(suggested);
            let requests = app.configure_requests(suggested);
            &&& suggested.0 matches Some(width) ==> after.width == width
            &&& suggested.1 matches Some(height) ==> after.height == height
            &&& suggested.0 is None ==> after.width == WINDOW_W
            &&& suggested.1 is None ==> after.height == WINDOW_H
            &&& app.dot.x <= 256 * (after.width - 1) ==> after.dot.x == app.dot.x
            &&& app.dot.y <= 256 * (after.height - 1) ==> after.dot.y == app.dot.y
            &&& app.dot.x > 256 * (after.width - 1) && after.width > 0 ==> after.dot.x == 256 * (
            after.width - 1)
            &&& app.dot.y > 256 * (after.height - 1) && after.height > 0 ==> after.dot.y == 256 * (
            after.height - 1)
            &&& requests.contains(Request::DropBuffer) <==> after.width != app.width
                || after.height != app.height
            &&& requests.contains(Request::DropBuffer) ==> requests[0] == Request::DropBuffer
            &&& requests.contains(Request::Commit)
            &&& after.exit == app.exit
            &&& after.pointer == app.pointer
            &&& after.locked_pointer == app.locked_pointer
            &&& after.lock_active == app.lock_active
        }),
{
    let resized = app.resized(suggested);
    let requests = app.configure_requests(suggested);
    let shift: int = if app.resizes(suggested) {
        1
    } else {
        0
    };
    let hints: int = if app.locked_pointer {
        1
    } else {
        0
    };
    if app.resizes(suggested) {
        assert(requests[0] == Request::DropBuffer);
    }
    assert(requests[shift + hints] == Request::Commit);
}

/// A pointer that is announced while none is held is got, with its relative motion, and locked, and
/// the lock gets its hint before it is committed; nothing else leads to any of these. A pointer
/// that is withdrawn takes everything with it: the lock first, then the relative motion, then the
/// pointer itself.
pub proof fn law_pointer_comes_and_goes(app: App, capability: Capability)
    requires
        app.wf(),
    ensures
        ({
            let after = app.with_capability(capability);
            let requests = app.new_capability_requests(capability);
            &&& requests.len() > 0 <==> capability == Capability::Pointer && !app.pointer
            &&& requests.len() == 0 ==> after == app
            &&& requests.len() > 0 ==> {
                &&& requests.len() == 6
                &&& after.pointer
                &&& after.relative_pointer
                &&& after.locked_pointer
                &&& after.dot == app.dot
                &&& after.lock_active == app.lock_active
                &&& has_steps(
                    requests,
                    seq![
                        Request::GetPointer,
                        Request::GetRelativePointer,
                        Request::LockPointer,
                        Request::SetHint(app.dot),
                        Request::Commit,
                        Request::Announce(LockNotice::Requested),
                    ],
                )
            }
        }),
        ({
            let after = app.without_capability(capability);
            let requests = app.remove_capability_requests(capability);
            &&& capability != Capability::Pointer ==> after == app && requests.len() == 0
            &&& capability == Capability::Pointer ==> {
                &&& !after.pointer
                &&& !after.relative_pointer
                &&& !after.locked_pointer
                &&& !after.lock_active
                &&& after.dot == app.dot
                &&& app.pointer ==> has_steps(
                    requests,
                    seq![Request::DestroyRelativePointer, Request::ReleasePointer],
                )
                &&& app.locked_pointer ==> has_steps(
                    requests,
                    seq![Request::DestroyLock, Request::DestroyRelativePointer],
                )
                &&& !app.pointer ==> requests.len() == 0
                &&& requests.len() <= 3
                &&& !app.locked_pointer ==> requests.len() <= 2
            }
        }),
{
    let got = app.new_capability_requests(capability);
    if app.wants_pointer(capability) {
        assert(stands_at(
            got,
            seq![
                Request::GetPointer,
                Request::GetRelativePointer,
                Request::LockPointer,
                Request::SetHint(app.dot),
                Request::Commit,
                Request::Announce(LockNotice::Requested),
            ],
            seq![0, 1, 2, 3, 4, 5],
        ));
    }
    let released = app.remove_capability_requests(capability);
    if capability == Capability::Pointer && app.pointer {
        let shift: int = if app.locked_pointer {
            1
        } else {
            0
        };
        assert(stands_at(
            released,
            seq![Request::DestroyRelativePointer, Request::ReleasePointer],
            seq![shift, shift + 1],
        ));
        if app.locked_pointer {
            assert(stands_at(
                released,
                seq![Request::DestroyLock, Request::DestroyRelativePointer],
                seq![0, 1],
            ));
        }
    }
}

/// The picture has a white dot of eight pixels around its center, a red ring of two pixels around
/// that, and a border of four pixels along the edges of the window, green if the lock is in effect
/// and amber otherwise. Everything else is background.
pub proof fn law_picture_of_the_window(picture: Picture, x: int, y: int)
    requires
        0 <= x < picture.width,
        0 <= y < picture.height,
    ensures
        ({
            let dx = 256 * x - picture.dot.x;
            let dy = 256 * y - picture.dot.y;
            let squared = dx * dx + dy * dy;
            let color = picture.color_at(x, y);
            let at_edge = x <= 3 || y <= 3 || picture.width - x <= 4 || picture.height - y <= 4;
            &&& color == DOT_COLOR <==> squared <= 2048 * 2048
            &&& color == RING_COLOR <==> 2048 * 2048 < squared <= 2560 * 2560
            &&& color == LOCKED_BORDER_COLOR <==> squared > 2560 * 2560 && at_edge
                && picture.lock_active
            &&& color == UNLOCKED_BORDER_COLOR <==> squared > 2560 * 2560 && at_edge
                && !picture.lock_active
            &&& color == BACKGROUND_COLOR <==> squared > 2560 * 2560 && !at_edge
        }),
{
}

/// The lock shows on the border and nowhere else: two pictures that differ in the lock alone have
/// other colors at the pixels of the border that the dot and its ring leave, and the same colors
/// everywhere else.
pub proof fn law_lock_shows_on_the_border(picture: Picture, x: int, y: int)
    ensures
        ({
            let other = Picture { lock_active: !picture.lock_active, ..picture };
            let color = picture.color_at(x, y);
            color != other.color_at(x, y) <==> color == LOCKED_BORDER_COLOR || color
                == UNLOCKED_BORDER_COLOR
        }),
{
}

/// The client starts with the dot in the middle of the window, without a pointer and without a
/// picture, and goes on until it is asked to end.
pub proof fn law_start_and_end(app: App)
    ensures
        2 * App::initial().dot.x == 256 * App::initial().width,
        2 * App::initial().dot.y == 256 * App::initial().height,
        App::initial().dirty,
        !App::initial().frame_pending,
        !App::initial().pointer,
        !App::initial().locked_pointer,
        !App::initial().lock_active,
        !App::initial().exit,
        app.ending().exit,
        app.ending() == (App { exit: app.ending().exit, ..app }),
{
}

/// A group of pointer events is handled event by event, in order: a single event is handled as
/// such, and of two groups the second finds the client as the first has left it.
pub proof fn law_groups_are_handled_in_order(
    app: App,
    event: PointerEvent,
    first: Seq<PointerEvent>,
    second: Seq<PointerEvent>,
)
    ensures
        app.pointed_all(Seq::empty()) == app,
        app.events_requests(Seq::empty()) == Seq::<Request>::empty(),
        app.pointed_all(seq![event]) == app.pointed(event),
        app.events_requests(seq![event]) == app.event_requests(event),
        app.pointed_all(first + second) == app.pointed_all(first).pointed_all(second),
        app.events_requests(first + second) == app.events_requests(first) + app.pointed_all(
            first,
        ).events_requests(second),
    decreases second.len(),
{
    assert(app.pointed_all(Seq::empty()) == app);
    assert(app.events_requests(Seq::empty()) =~= Seq::<Request>::empty());
    assert(seq![event].drop_last() =~= Seq::<PointerEvent>::empty());
    assert(app.pointed_all(seq![event]) == app.pointed(event));
    assert(app.events_requests(seq![event]) =~= app.event_requests(event));
    if second.len() == 0 {
        assert(first + second =~= first);
        assert(app.events_requests(first) + app.pointed_all(first).events_requests(second)
            =~= app.events_requests(first));
    } else {
        law_groups_are_handled_in_order(app, event, first, second.drop_last());
        assert((first + second).drop_last() =~= first + second.drop_last());
        assert((first + second).last() == second.last());
        assert(app.events_requests(first + second) =~= app.events_requests(first)
            + app.pointed_all(first).events_requests(second));
    }
}

/// Every pixel of a painted canvas has the color of its place in the picture.
pub proof fn law_pixels_have_their_place(
    picture: Picture,
    before: Seq<u8>,
    after: Seq<u8>,
    x: int,
    y: int,
)
    requires
        picture.is_painted(before, after),
        0 <= x < picture.width,
        0 <= y,
        4 * (y * picture.width + x) + 4 <= before.len(),
        y * picture.width + x <= u32::MAX,
    ensures
        pixel_at(after, y * picture.width + x) == picture.color_at(x, y),
        after.len() == before.len(),
{
    law_row_and_column_of_index(x, y, picture.width);
    assert(0 <= y * picture.width + x < pixel_count(before));
}

/// The picture of the client is that of its window's size, of the dot where it is, and of the lock
/// as it is; so two clients with the same picture agree in all of these.
pub proof fn law_picture_is_the_state(app: App, other: App)
    ensures
        app.picture().width == app.width,
        app.picture().height == app.height,
        app.picture().dot == app.dot,
        app.picture().lock_active == app.lock_active,
        app.picture() == other.picture() <==> app.width == other.width && app.height == other.height
            && app.dot == other.dot && app.lock_active == other.lock_active,
{
}

/// A change asks for no more than it has to: the hint, if there is a lock, and its commit; and,
/// unless a frame callback is due or the window is empty, the picture, its damage, its buffer, the
/// next callback, the hint again, and one more commit.
pub proof fn law_changes_ask_for_no_more(app: App)
    ensures
        ({
            let requests = app.change_requests();
            let hints: int = if app.locked_pointer {
                1
            } else {
                0
            };
            let draws = !app.frame_pending && app.width > 0 && app.height > 0;
            &&& draws ==> requests.len() == 6 + 2 * hints
            &&& !draws ==> requests.len() == 1 + hints
            &&& draws <==> requests.contains(Request::Frame)
            &&& forall|i: int| #![trigger requests[i]]
                0 <= i < requests.len() && requests[i] == Request::Commit ==> i == hints || i
                    == requests.len() - 1
        }),
{
    let requests = app.change_requests();
    if !app.frame_pending && app.soiled().draws() {
        let start: int = app.hint_requests().len() as int + 1;
        assert(requests[start + 3] == app.soiled().draw_requests()[3]);
    }
}

} // verus!
