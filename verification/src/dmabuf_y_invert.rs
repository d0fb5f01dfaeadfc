//! A window of DMA-BUF buffers. Space toggles the vertical inversion of the buffer, and the keys
//! 1 to 8 select a buffer transform; the window shows the same picture throughout.

use vstd::prelude::*;

use crate::drm::{DRM_FORMAT_MOD_LINEAR, DRM_FORMAT_XRGB8888};
use crate::geometry::{side_or, whole, whole_rect, Rect, SurfaceSize};
use crate::keys::{
    KEY_1, KEY_2, KEY_3, KEY_4, KEY_5, KEY_6, KEY_7, KEY_8, KEY_SPACE,
};
use crate::seat::Devices;
use crate::steps::{has_steps, stands_at};
use crate::transform::{
    buffer_dims, dims, draw_transformed_gradient, gradient, gradient_fits, is_gradient, shown_color,
    Place, Transform,
};

verus! {

/// The sides of the window until the compositor suggests others.
pub const WINDOW_SIDE: u32 = 256;

/// A new buffer for the window.
pub struct Rebuild {
    /// The window has an earlier buffer, to be destroyed first.
    pub destroy_old: bool,
    pub width: u32,
    pub height: u32,
    /// The contents, row by row without padding.
    pub pixels: Vec<u8>,
    /// The buffer is to be marked as vertically inverted.
    pub y_invert: bool,
}

/// The flag of an imported buffer whose contents are vertically inverted.
pub const Y_INVERT_FLAG: u32 = 1;

/// How a buffer is imported by the compositor: the one plane that its file descriptor stands for,
/// and the buffer that is made of it.
#[derive(Clone, Copy, Debug, PartialEq, Eq, Structural)]
pub struct Import {
    pub plane: u32,
    pub offset: u32,
    pub stride: u32,
    pub modifier: u64,
    pub width: i32,
    pub height: i32,
    pub format: u32,
    pub flags: u32,
}

impl Rebuild {
    /// How the buffer is imported, whose rows begin `stride` bytes apart.
    pub open spec fn imported(self, stride: u32) -> Import {
        Import {
            plane: 0,
            offset: 0,
            stride,
            modifier: DRM_FORMAT_MOD_LINEAR,
            width: self.width as i32,
            height: self.height as i32,
            format: DRM_FORMAT_XRGB8888,
            flags: if self.y_invert {
                Y_INVERT_FLAG
            } else {
                0
            },
        }
    }

    /// The executable form of [`Rebuild::imported`].
    pub fn import(&self, stride: u32) -> (import: Import)
        ensures
            import == self.imported(stride),
    {
        Import {
            plane: 0,
            offset: 0,
            stride,
            modifier: DRM_FORMAT_MOD_LINEAR,
            width: self.width as i32,
            height: self.height as i32,
            format: DRM_FORMAT_XRGB8888,
            flags: if self.y_invert {
                Y_INVERT_FLAG
            } else {
                0
            },
        }
    }
}

/// What the client asks of the compositor to show its buffer, in order.
#[derive(Clone, Copy, Debug, PartialEq, Eq, Structural)]
pub enum Request {
    SetBufferTransform(Transform),
    /// Attach the window's buffer at this offset.
    Attach { x: i32, y: i32 },
    Damage(Rect),
    Commit,
}

/// A new buffer, and what shows it.
pub struct Redraw {
    pub rebuild: Rebuild,
    pub requests: Vec<Request>,
}

#[derive(Clone, Copy, Debug, PartialEq, Eq, Structural)]
pub struct DmabufWindow {
    pub exit: bool,
    pub size: SurfaceSize,
    pub use_y_invert: bool,
    pub buffer_transform: Transform,
    pub has_buffer: bool,
    pub keyboard_focus: bool,
    pub devices: Devices,
}

/// The transform that a digit key selects.
pub open spec fn transform_of_key(keysym: u32) -> Option<Transform> {
    if keysym == KEY_1 {
        Some(Transform::Normal)
    } else if keysym == KEY_2 {
        Some(Transform::_90)
    } else if keysym == KEY_3 {
        Some(Transform::_180)
    } else if keysym == KEY_4 {
        Some(Transform::_270)
    } else if keysym == KEY_5 {
        Some(Transform::Flipped)
    } else if keysym == KEY_6 {
        Some(Transform::Flipped90)
    } else if keysym == KEY_7 {
        Some(Transform::Flipped180)
    } else if keysym == KEY_8 {
        Some(Transform::Flipped270)
    } else {
        None
    }
}

/// The executable form of [`transform_of_key`].
pub fn digit_transform(keysym: u32) -> (transform: Option<Transform>)
    ensures
        transform == transform_of_key(keysym),
{
    match keysym {
        KEY_1 => Some(Transform::Normal),
        KEY_2 => Some(Transform::_90),
        KEY_3 => Some(Transform::_180),
        KEY_4 => Some(Transform::_270),
        KEY_5 => Some(Transform::Flipped),
        KEY_6 => Some(Transform::Flipped90),
        KEY_7 => Some(Transform::Flipped180),
        KEY_8 => Some(Transform::Flipped270),
        _ => None,
    }
}

impl DmabufWindow {
    /// The window before any event.
    pub open spec fn initial() -> DmabufWindow {
        DmabufWindow {
            exit: false,
            size: SurfaceSize::initial(WINDOW_SIDE, WINDOW_SIDE),
            use_y_invert: false,
            buffer_transform: Transform::Normal,
            has_buffer: false,
            keyboard_focus: false,
            devices: Devices::none(),
        }
    }

    /// The gradient fits the window's size under its transform.
    pub open spec fn fits(self) -> bool {
        gradient_fits(self.size.width, self.size.height, self.buffer_transform)
    }

    /// `rebuild` replaces the window's buffer by one that shows the gradient.
    pub open spec fn is_rebuilt_by(self, rebuild: Rebuild) -> bool {
        &&& rebuild.destroy_old == self.has_buffer
        &&& (rebuild.width, rebuild.height) == dims(
            self.size.width,
            self.size.height,
            self.buffer_transform,
        )
        &&& is_gradient(
            rebuild.pixels@,
            self.size.width,
            self.size.height,
            self.buffer_transform,
            self.use_y_invert,
        )
        &&& rebuild.y_invert == self.use_y_invert
    }

    /// What shows the window's buffer, if it has one. The damage is that of the whole buffer, whose
    /// sides may be swapped.
    pub open spec fn draw_requests(self) -> Seq<Request> {
        if self.has_buffer {
            let (bw, bh) = dims(self.size.width, self.size.height, self.buffer_transform);
            seq![
                Request::SetBufferTransform(self.buffer_transform),
                Request::Attach { x: 0, y: 0 },
                Request::Damage(whole(bw, bh)),
                Request::Commit,
            ]
        } else {
            seq![]
        }
    }

    /// `redraw` gives this window, whose settings are up to date, a new buffer and shows it.
    pub open spec fn is_redrawn_by(self, redraw: Redraw) -> bool {
        &&& self.is_rebuilt_by(redraw.rebuild)
        &&& redraw.requests@ == self.with_buffer().draw_requests()
    }

    /// The window with a buffer.
    pub open spec fn with_buffer(self) -> DmabufWindow {
        DmabufWindow { has_buffer: true, ..self }
    }

    /// The window with the settings that a configure event leads to.
    pub open spec fn configured(self, suggested: (Option<u32>, Option<u32>)) -> DmabufWindow {
        DmabufWindow {
            size: SurfaceSize::settled(
                side_or(suggested.0, WINDOW_SIDE),
                side_or(suggested.1, WINDOW_SIDE),
            ),
            ..self
        }
    }

    /// The window with the settings that a key press leads to.
    pub open spec fn pressed(self, keysym: u32) -> DmabufWindow {
        if keysym == KEY_SPACE {
            DmabufWindow { use_y_invert: !self.use_y_invert, ..self }
        } else {
            match transform_of_key(keysym) {
                Some(transform) => DmabufWindow { buffer_transform: transform, ..self },
                None => self,
            }
        }
    }

    /// The key changes a setting.
    pub open spec fn is_setting_key(keysym: u32) -> bool {
        keysym == KEY_SPACE || transform_of_key(keysym) is Some
    }

    /// The window that is to be closed.
    pub open spec fn ending(self) -> DmabufWindow {
        DmabufWindow { exit: true, ..self }
    }

    /// The window after the keyboard focus entered a surface.
    pub open spec fn entered(self, own_surface: bool) -> DmabufWindow {
        DmabufWindow { keyboard_focus: own_surface || self.keyboard_focus, ..self }
    }

    /// The window after the keyboard focus left a surface.
    pub open spec fn left(self, own_surface: bool) -> DmabufWindow {
        DmabufWindow { keyboard_focus: !own_surface && self.keyboard_focus, ..self }
    }

    /// `redraw` and `after` are what a configure event leads to.
    pub open spec fn is_configure_answer(
        self,
        suggested: (Option<u32>, Option<u32>),
        redraw: Option<Redraw>,
        after: DmabufWindow,
    ) -> bool {
        let settled = self.configured(suggested);
        if self.size.calls_for_redraw(settled.size.width, settled.size.height) {
            &&& redraw matches Some(r) && settled.is_redrawn_by(r)
            &&& after == settled.with_buffer()
        } else {
            redraw is None && after == settled
        }
    }

    /// `redraw` and `after` are what a key press leads to.
    pub open spec fn is_key_answer(
        self,
        keysym: u32,
        redraw: Option<Redraw>,
        after: DmabufWindow,
    ) -> bool {
        if DmabufWindow::is_setting_key(keysym) {
            &&& redraw matches Some(r) && self.pressed(keysym).is_redrawn_by(r)
            &&& after == self.pressed(keysym).with_buffer()
        } else {
            redraw is None && after == self
        }
    }

    pub fn new() -> (window: DmabufWindow)
        ensures
            window == DmabufWindow::initial(),
    {
        DmabufWindow {
            exit: false,
            size: SurfaceSize::new(WINDOW_SIDE, WINDOW_SIDE),
            use_y_invert: false,
            buffer_transform: Transform::Normal,
            has_buffer: false,
            keyboard_focus: false,
            devices: Devices::new(),
        }
    }

    /// Draws a new buffer for the present settings.
    pub fn rebuild_buffer(&mut self) -> (rebuild: Rebuild)
        requires
            old(self).fits(),
        ensures
            old(self).is_rebuilt_by(rebuild),
            *final(self) == old(self).with_buffer(),
    {
        let (width, height, pixels) = draw_transformed_gradient(
            self.size.width,
            self.size.height,
            self.buffer_transform,
            self.use_y_invert,
        );
        let destroy_old = self.has_buffer;
        self.has_buffer = true;
        Rebuild { destroy_old, width, height, pixels, y_invert: self.use_y_invert }
    }

    /// Shows the window's buffer, if it has one.
    pub fn draw(&self) -> (requests: Vec<Request>)
        ensures
            requests@ == self.draw_requests(),
    {
        let mut requests: Vec<Request> = Vec::new();
        if !self.has_buffer {
            return requests;
        }
        requests.push(Request::SetBufferTransform(self.buffer_transform));
        requests.push(Request::Attach { x: 0, y: 0 });
        let (bw, bh) = buffer_dims(self.size.width, self.size.height, self.buffer_transform);
        requests.push(Request::Damage(whole_rect(bw, bh)));
        requests.push(Request::Commit);
        requests
    }

    fn redraw(&mut self) -> (redraw: Redraw)
        requires
            old(self).fits(),
        ensures
            old(self).is_redrawn_by(redraw),
            *final(self) == old(self).with_buffer(),
    {
        let rebuild = self.rebuild_buffer();
        let requests = self.draw();
        Redraw { rebuild, requests }
    }

    /// The compositor asks the window to close.
    pub fn request_close(&mut self)
        ensures
            *final(self) == old(self).ending(),
    {
        self.exit = true;
    }

    /// Handles a configure event: the window is drawn again on the first one and on a new size.
    pub fn configure(&mut self, suggested: (Option<u32>, Option<u32>)) -> (redraw: Option<Redraw>)
        requires
            old(self).size.calls_for_redraw(
                side_or(suggested.0, WINDOW_SIDE),
                side_or(suggested.1, WINDOW_SIDE),
            ) ==> old(self).configured(suggested).fits(),
        ensures
            old(self).is_configure_answer(suggested, redraw, *final(self)),
    {
        if self.size.configure(suggested, (WINDOW_SIDE, WINDOW_SIDE)) {
            Some(self.redraw())
        } else {
            None
        }
    }

    /// Handles a key press: every setting key rebuilds and shows the buffer.
    pub fn press_key(&mut self, keysym: u32) -> (redraw: Option<Redraw>)
        requires
            DmabufWindow::is_setting_key(keysym) ==> old(self).pressed(keysym).fits(),
        ensures
            old(self).is_key_answer(keysym, redraw, *final(self)),
    {
        if keysym == KEY_SPACE {
            self.use_y_invert = !self.use_y_invert;
            Some(self.redraw())
        } else if let Some(transform) = digit_transform(keysym) {
            self.buffer_transform = transform;
            Some(self.redraw())
        } else {
            None
        }
    }

    /// The keyboard focus enters a surface.
    pub fn enter(&mut self, own_surface: bool)
        ensures
            *final(self) == old(self).entered(own_surface),
    {
        if own_surface {
            self.keyboard_focus = true;
        }
    }

    /// The keyboard focus leaves a surface.
    pub fn leave(&mut self, own_surface: bool)
        ensures
            *final(self) == old(self).left(own_surface),
    {
        if own_surface {
            self.keyboard_focus = false;
        }
    }
}

/// Pressing Space twice brings the window's settings back.
pub proof fn law_space_undoes_itself(window: DmabufWindow)
    ensures
        window.pressed(KEY_SPACE).pressed(KEY_SPACE) == window,
        window.pressed(KEY_SPACE) != window,
{
}

/// Every transform has its own digit key.
pub proof fn law_each_transform_has_one_key(transform: Transform)
    ensures
        exists|keysym: u32|
            KEY_1 <= keysym <= KEY_8 && #[trigger] transform_of_key(keysym) == Some(transform),
        forall|a: u32, b: u32|
            #[trigger] transform_of_key(a) == Some(transform) && #[trigger] transform_of_key(b)
                == Some(transform) ==> a == b,
        forall|keysym: u32| #[trigger]
            transform_of_key(keysym) is Some <==> KEY_1 <= keysym <= KEY_8,
{
    let keysym: u32 = match transform {
        Transform::Normal => KEY_1,
        Transform::_90 => KEY_2,
        Transform::_180 => KEY_3,
        Transform::_270 => KEY_4,
        Transform::Flipped => KEY_5,
        Transform::Flipped90 => KEY_6,
        Transform::Flipped180 => KEY_7,
        Transform::Flipped270 => KEY_8,
    };
    assert(transform_of_key(keysym) == Some(transform));
}

/// The transform under which a redraw's buffer is shown.
pub open spec fn sent_transform(redraw: Redraw) -> Transform {
    match redraw.requests@[0] {
        Request::SetBufferTransform(transform) => transform,
        _ => Transform::Normal,
    }
}

/// The buffer of a redraw is imported with the sides and the inversion that its contents are drawn
/// for, and is shown under the transform that they are drawn for, by a single commit.
pub proof fn law_buffers_are_shown_as_drawn(window: DmabufWindow, redraw: Redraw, stride: u32)
    requires
        window.is_redrawn_by(redraw),
    ensures
        is_gradient(
            redraw.rebuild.pixels@,
            window.size.width,
            window.size.height,
            sent_transform(redraw),
            redraw.rebuild.imported(stride).flags == Y_INVERT_FLAG,
        ),
        redraw.requests@.last() == Request::Commit,
        forall|i: int|
            0 <= i < redraw.requests@.len() - 1 ==> #[trigger] redraw.requests@[i]
                != Request::Commit,
        redraw.requests@.contains(
            Request::Damage(whole(redraw.rebuild.width, redraw.rebuild.height)),
        ),
{
    assert(redraw.requests@[2] == Request::Damage(
        whole(redraw.rebuild.width, redraw.rebuild.height),
    ));
}

/// No key changes the picture: whatever buffers two redraws of the same window size produce, a
/// compositor shows the same color at every pixel.
pub proof fn law_keys_keep_the_picture(
    window: DmabufWindow,
    keysym: u32,
    before: Redraw,
    after: Redraw,
    sx: int,
    sy: int,
)
    requires
        window.is_redrawn_by(before),
        window.pressed(keysym).is_redrawn_by(after),
        0 <= sx < window.size.width,
        0 <= sy < window.size.height,
    ensures
        crate::transform::shown_color(
            before.rebuild.pixels@,
            sx,
            sy,
            window.size.width as int,
            window.size.height as int,
            sent_transform(before),
            before.rebuild.y_invert,
        ) == crate::transform::shown_color(
            after.rebuild.pixels@,
            sx,
            sy,
            window.size.width as int,
            window.size.height as int,
            sent_transform(after),
            after.rebuild.y_invert,
        ),
{
    let after_window = window.pressed(keysym);
    crate::transform::law_every_combination_looks_the_same(
        before.rebuild.pixels@,
        window.buffer_transform,
        window.use_y_invert,
        after.rebuild.pixels@,
        after_window.buffer_transform,
        after_window.use_y_invert,
        window.size.width,
        window.size.height,
        sx,
        sy,
    );
}

/// `redraw` gives the window a buffer that a compositor shows as the gradient of this size, going
/// by nothing but what is sent to it: the transform, the inversion flag, and the damage of the
/// whole buffer, attached at its origin and committed after the transform was set. Nothing else is
/// sent.
pub open spec fn shows_the_gradient(redraw: Redraw, width: u32, height: u32) -> bool {
    exists|transform: Transform| #[trigger]
        shows_the_gradient_under(redraw, width, height, transform)
}

/// `redraw` shows the gradient of this size under the transform that it sends.
pub open spec fn shows_the_gradient_under(
    redraw: Redraw,
    width: u32,
    height: u32,
    transform: Transform,
) -> bool {
    let inverted = redraw.rebuild.imported(0).flags == Y_INVERT_FLAG;
    &&& redraw.requests@.len() == 4
    &&& has_steps(
        redraw.requests@,
        seq![
            Request::SetBufferTransform(transform),
            Request::Attach { x: 0, y: 0 },
            Request::Damage(whole(redraw.rebuild.width, redraw.rebuild.height)),
            Request::Commit,
        ],
    )
    &&& forall|sx: int, sy: int|
        0 <= sx < width && 0 <= sy < height ==> #[trigger] shown_color(
            redraw.rebuild.pixels@,
            sx,
            sy,
            width as int,
            height as int,
            transform,
            inverted,
        ) == gradient(sx, sy, width as int, height as int)
}

proof fn lemma_redraws_show_the_gradient(window: DmabufWindow, redraw: Redraw)
    requires
        window.is_redrawn_by(redraw),
    ensures
        shows_the_gradient(redraw, window.size.width, window.size.height),
{
    let steps = seq![
        Request::SetBufferTransform(window.buffer_transform),
        Request::Attach { x: 0, y: 0 },
        Request::Damage(whole(redraw.rebuild.width, redraw.rebuild.height)),
        Request::Commit,
    ];
    assert(stands_at(redraw.requests@, steps, seq![0, 1, 2, 3]));
    assert(shows_the_gradient_under(
        redraw,
        window.size.width,
        window.size.height,
        window.buffer_transform,
    ));
}

/// Space and the digit keys show the gradient of the window's present size anew, whatever the
/// settings were, and no other key does anything. Space exchanges upright and inverted, a digit key
/// selects its transform, and neither changes anything else but that there is a buffer.
pub proof fn law_setting_keys_show_the_gradient(
    window: DmabufWindow,
    keysym: u32,
    redraw: Option<Redraw>,
    after: DmabufWindow,
)
    requires
        window.is_key_answer(keysym, redraw, after),
    ensures
        redraw is Some <==> keysym == KEY_SPACE || KEY_1 <= keysym <= KEY_8,
        redraw is None ==> after == window,
        redraw matches Some(r) ==> {
            &&& shows_the_gradient(r, window.size.width, window.size.height)
            &&& after.has_buffer
            &&& r.rebuild.destroy_old == window.has_buffer
            &&& r.rebuild.y_invert == after.use_y_invert
        },
        after.use_y_invert != window.use_y_invert <==> keysym == KEY_SPACE,
        KEY_1 <= keysym <= KEY_8 ==> Some(after.buffer_transform) == transform_of_key(keysym),
        !(KEY_1 <= keysym <= KEY_8) ==> after.buffer_transform == window.buffer_transform,
        after.size == window.size,
        after.exit == window.exit,
        after.keyboard_focus == window.keyboard_focus,
        after.devices == window.devices,
{
    if let Some(r) = redraw {
        lemma_redraws_show_the_gradient(window.pressed(keysym), r);
    }
}

/// A configure event settles on the suggested sides, and on the client's own ones where none are
/// suggested. If that changes what is known of the size, the gradient of that size is shown;
/// otherwise nothing happens. The settings stay as they are.
pub proof fn law_new_sizes_show_the_gradient(
    window: DmabufWindow,
    suggested: (Option<u32>, Option<u32>),
    redraw: Option<Redraw>,
    after: DmabufWindow,
)
    requires
        window.is_configure_answer(suggested, redraw, after),
    ensures
        suggested.0 matches Some(width) ==> after.size.width == width,
        suggested.1 matches Some(height) ==> after.size.height == height,
        suggested.0 is None ==> after.size.width == WINDOW_SIDE,
        suggested.1 is None ==> after.size.height == WINDOW_SIDE,
        !after.size.first_configure,
        redraw is Some <==> window.size != after.size,
        redraw matches Some(r) ==> {
            &&& shows_the_gradient(r, after.size.width, after.size.height)
            &&& after.has_buffer
            &&& r.rebuild.destroy_old == window.has_buffer
        },
        redraw is None ==> after.has_buffer == window.has_buffer,
        after.use_y_invert == window.use_y_invert,
        after.buffer_transform == window.buffer_transform,
        after.exit == window.exit,
        after.keyboard_focus == window.keyboard_focus,
        after.devices == window.devices,
{
    if let Some(r) = redraw {
        lemma_redraws_show_the_gradient(window.configured(suggested), r);
    }
}

/// A buffer is imported as a single plane that begins at the start of its file, in a linear layout
/// of 32-bit pixels, with its own sides and rows; the import says that it is inverted exactly if it
/// is drawn so. Its pixels are as many as its sides span.
pub proof fn law_imports_describe_the_buffer(window: DmabufWindow, redraw: Redraw, stride: u32)
    requires
        window.is_redrawn_by(redraw),
        redraw.rebuild.width <= i32::MAX,
        redraw.rebuild.height <= i32::MAX,
    ensures
        ({
            let import = redraw.rebuild.imported(stride);
            &&& import.plane == 0
            &&& import.offset == 0
            &&& import.stride == stride
            &&& import.modifier == 0
            &&& import.format == DRM_FORMAT_XRGB8888
            &&& import.flags == Y_INVERT_FLAG <==> window.use_y_invert
            &&& import.flags == 0 <==> !window.use_y_invert
            &&& import.width * import.height * 4 == redraw.rebuild.pixels@.len()
            &&& import.width == redraw.rebuild.width
            &&& import.height == redraw.rebuild.height
        }),
{
    vstd::arithmetic::mul::lemma_mul_is_commutative(
        window.size.width as int,
        window.size.height as int,
    );
}

/// The digits count the transforms: each of 2, 3 and 4 turns the picture by a quarter more than the
/// digit before it, 5 mirrors it, and each of 6, 7 and 8 turns the mirrored one by a quarter more.
pub proof fn law_digits_count_quarter_turns(place: Place, keysym: u32)
    requires
        KEY_1 <= keysym <= KEY_8,
    ensures
        ({
            let moved = place.transformed(transform_of_key(keysym)->0);
            let next = place.transformed(transform_of_key((keysym + 1) as u32)->0);
            &&& keysym == KEY_1 ==> moved == place
            &&& keysym == KEY_5 ==> moved == place.mirrored()
            &&& keysym != KEY_4 && keysym != KEY_8 ==> next == moved.turned()
            &&& keysym == KEY_4 || keysym == KEY_8 ==> moved.turned() == if keysym == KEY_4 {
                place
            } else {
                place.mirrored()
            }
        }),
{
}

/// The focus comes with the own surface and goes with it; other surfaces have no part in it, and
/// nothing else follows from it.
pub proof fn law_focus_follows_the_own_surface(window: DmabufWindow)
    ensures
        window.entered(true).keyboard_focus,
        !window.left(true).keyboard_focus,
        window.entered(false) == window,
        window.left(false) == window,
        window.entered(true).left(true) == (DmabufWindow { keyboard_focus: false, ..window }),
        window.left(true).entered(true) == (DmabufWindow { keyboard_focus: true, ..window }),
{
}

/// The window starts upright and untransformed, without a buffer, and goes on until it is asked to
/// close.
pub proof fn law_start_and_end(window: DmabufWindow)
    ensures
        !DmabufWindow::initial().exit,
        !DmabufWindow::initial().use_y_invert,
        !DmabufWindow::initial().has_buffer,
        !DmabufWindow::initial().keyboard_focus,
        DmabufWindow::initial().buffer_transform == Transform::Normal,
        DmabufWindow::initial().size.first_configure,
        window.ending().exit,
        window.ending() == (DmabufWindow { exit: window.ending().exit, ..window }),
        window.has_buffer ==> window.draw_requests().contains(Request::Commit),
        !window.has_buffer ==> window.draw_requests().len() == 0,
{
    if window.has_buffer {
        assert(window.draw_requests()[3] == Request::Commit);
    }
}

} // verus!
