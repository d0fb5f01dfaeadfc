//! Sizes and rectangles in surface and buffer coordinates.

use vstd::prelude::*;

verus! {

/// A rectangle as Wayland requests take it: a corner, a width and a height.
#[derive(Clone, Copy, Debug, PartialEq, Eq, Structural)]
pub struct Rect {
    pub x: i32,
    pub y: i32,
    pub width: i32,
    pub height: i32,
}

impl Rect {
    /// The point `(px, py)` lies inside the rectangle.
    pub open spec fn has_point(self, px: int, py: int) -> bool {
        &&& self.x <= px < self.x + self.width
        &&& self.y <= py < self.y + self.height
    }
}

/// Both sides of a `width` by `height` buffer, and the number of bytes in one of its rows, are
/// values of the protocol's integer type.
pub open spec fn drawable(width: u32, height: u32) -> bool {
    &&& width * 4 <= i32::MAX
    &&& height <= i32::MAX
}

/// The executable form of [`drawable`].
pub fn is_drawable(width: u32, height: u32) -> (fits: bool)
    ensures
        fits == drawable(width, height),
{
    width <= 0x1FFF_FFFF && height <= 0x7FFF_FFFF
}

/// The rectangle from the origin that covers a whole `width` by `height` surface or buffer.
pub open spec fn whole(width: u32, height: u32) -> Rect {
    Rect { x: 0, y: 0, width: width as i32, height: height as i32 }
}

/// The executable form of [`whole`].
pub fn whole_rect(width: u32, height: u32) -> (rect: Rect)
    ensures
        rect == whole(width, height),
{
    Rect { x: 0, y: 0, width: width as i32, height: height as i32 }
}

/// A shared-memory buffer that a client draws into: its sides in pixels and the bytes of one row.
#[derive(Clone, Copy, Debug, PartialEq, Eq, Structural)]
pub struct BufferShape {
    pub width: i32,
    pub height: i32,
    pub stride: i32,
}

/// The buffer of a `width` by `height` surface with four bytes to the pixel and no row padding.
pub open spec fn shape_of(width: u32, height: u32) -> BufferShape {
    BufferShape {
        width: width as i32,
        height: height as i32,
        stride: (width * 4) as i32,
    }
}

/// The executable form of [`shape_of`].
pub fn buffer_shape(width: u32, height: u32) -> (shape: BufferShape)
    requires
        drawable(width, height),
    ensures
        shape == shape_of(width, height),
{
    BufferShape { width: width as i32, height: height as i32, stride: width as i32 * 4 }
}

/// The size of a surface as the last configure event left it.
///
/// Before the first configure event it is the size that the client asks for.
#[derive(Clone, Copy, Debug, PartialEq, Eq, Structural)]
pub struct SurfaceSize {
    pub width: u32,
    pub height: u32,
    /// No configure event has been handled yet.
    pub first_configure: bool,
}

/// What a suggested side means: the suggestion where there is one, the client's own side otherwise.
pub open spec fn side_or(suggested: Option<u32>, own: u32) -> u32 {
    match suggested {
        Some(side) => side,
        None => own,
    }
}

impl SurfaceSize {
    /// The size before the first configure event.
    pub open spec fn initial(width: u32, height: u32) -> SurfaceSize {
        SurfaceSize { width, height, first_configure: true }
    }

    /// The size after a configure event that settles on `width` by `height`.
    pub open spec fn settled(width: u32, height: u32) -> SurfaceSize {
        SurfaceSize { width, height, first_configure: false }
    }

    /// A configure event that settles on `width` by `height` asks for new contents: it is the
    /// first one, or it changes the size.
    pub open spec fn calls_for_redraw(self, width: u32, height: u32) -> bool {
        self.first_configure || width != self.width || height != self.height
    }

    pub open spec fn is_drawable(self) -> bool {
        drawable(self.width, self.height)
    }

    /// Starts out with the size that the client asks for.
    pub fn new(width: u32, height: u32) -> (size: SurfaceSize)
        ensures
            size == SurfaceSize::initial(width, height),
    {
        SurfaceSize { width, height, first_configure: true }
    }

    /// Takes over the size that a configure event settles on, and says whether the surface has to
    /// be drawn again.
    pub fn settle(&mut self, width: u32, height: u32) -> (redraw: bool)
        ensures
            *final(self) == SurfaceSize::settled(width, height),
            redraw == old(self).calls_for_redraw(width, height),
    {
        let redraw = self.first_configure || width != self.width || height != self.height;
        self.width = width;
        self.height = height;
        self.first_configure = false;
        redraw
    }

    /// Handles a toplevel's configure event, whose sides are suggestions that may be missing: the
    /// client then falls back to its own size, not to the present one.
    pub fn configure(&mut self, suggested: (Option<u32>, Option<u32>), own: (u32, u32)) -> (redraw:
        bool)
        ensures
            *final(self) == SurfaceSize::settled(
                side_or(suggested.0, own.0),
                side_or(suggested.1, own.1),
            ),
            redraw == old(self).calls_for_redraw(
                side_or(suggested.0, own.0),
                side_or(suggested.1, own.1),
            ),
    {
        let width: u32 = match suggested.0 {
            Some(side) => side,
            None => own.0,
        };
        let height: u32 = match suggested.1 {
            Some(side) => side,
            None => own.1,
        };
        self.settle(width, height)
    }
}

/// Configuring a surface twice with the same size asks for a redraw at most once.
pub proof fn law_same_size_redraws_once(size: SurfaceSize, width: u32, height: u32)
    ensures
        !SurfaceSize::settled(width, height).calls_for_redraw(width, height),
        size.first_configure ==> size.calls_for_redraw(width, height),
{
}

impl BufferShape {
    /// The shape is that of `width` by `height` pixels of four bytes, row after row.
    pub open spec fn is_exact(self, width: int, height: int) -> bool {
        &&& self.width == width
        &&& self.height == height
        &&& self.stride == 4 * width
    }
}

/// A buffer can be drawn exactly if there is a shape with its sides and the bytes of its rows, and
/// then that is its shape.
pub proof fn law_shapes_are_exact(width: u32, height: u32)
    ensures
        drawable(width, height) <==> exists|shape: BufferShape| #[trigger]
            shape.is_exact(width as int, height as int),
        drawable(width, height) ==> shape_of(width, height).is_exact(width as int, height as int),
{
    if drawable(width, height) {
        assert(shape_of(width, height).is_exact(width as int, height as int));
    }
}

/// The whole rectangle of a surface has exactly the surface's points.
pub proof fn law_whole_has_every_point(width: u32, height: u32, px: int, py: int)
    requires
        width <= i32::MAX,
        height <= i32::MAX,
    ensures
        whole(width, height).has_point(px, py) <==> 0 <= px < width && 0 <= py < height,
        whole(width, height).x == 0,
        whole(width, height).y == 0,
        whole(width, height).width == width,
        whole(width, height).height == height,
{
}

/// A configure event asks for a redraw exactly if it changes what is known of the size: the first
/// one does always, and any other one if it brings another size. Afterwards the size is that of the
/// event.
pub proof fn law_redraws_follow_changes(size: SurfaceSize, width: u32, height: u32)
    ensures
        size.calls_for_redraw(width, height) <==> size != SurfaceSize::settled(width, height),
        SurfaceSize::settled(width, height).width == width,
        SurfaceSize::settled(width, height).height == height,
        !SurfaceSize::settled(width, height).first_configure,
        SurfaceSize::initial(width, height).first_configure,
        SurfaceSize::initial(width, height).width == width,
        SurfaceSize::initial(width, height).height == height,
{
}

/// A suggested side is taken over whatever the client's own side is, and the client's own side
/// counts exactly if nothing is suggested.
pub proof fn law_suggestions_are_followed(suggested: u32, own: u32, other: u32)
    ensures
        side_or(Some(suggested), own) == suggested,
        side_or(Some(suggested), own) == side_or(Some(suggested), other),
        side_or(None, own) == own,
{
}

} // verus!
