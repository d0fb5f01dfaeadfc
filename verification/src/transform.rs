//! Buffer transforms, and a gradient drawn through them.
//!
//! A client that sets a buffer transform promises the compositor that the buffer's contents are
//! already transformed. The gradient of this module is drawn for every transform, upright or
//! upside down, so that the surface shows the same picture each time.

use vstd::arithmetic::div_mod::{lemma_fundamental_div_mod, lemma_fundamental_div_mod_converse};
use vstd::arithmetic::mul::{lemma_mul_inequality, lemma_mul_is_commutative};
use vstd::prelude::*;

use crate::canvas::{law_words_determine_bytes, pixel_at, pixel_count, put_pixel};

verus! {

/// The transforms of `wl_output`: counter-clockwise rotations by a number of degrees, the flipped
/// ones after a mirroring about the vertical axis.
#[derive(Clone, Copy, Debug, PartialEq, Eq, Structural)]
pub enum Transform {
    Normal,
    _90,
    _180,
    _270,
    Flipped,
    Flipped90,
    Flipped180,
    Flipped270,
}

/// A pixel's place in an image of known size.
pub struct Place {
    pub x: int,
    pub y: int,
    pub width: int,
    pub height: int,
}

impl Place {
    /// The pixel lies inside the image.
    pub open spec fn valid(self) -> bool {
        &&& 0 <= self.x < self.width
        &&& 0 <= self.y < self.height
    }

    /// Where the pixel goes when the image is mirrored about the vertical axis.
    pub open spec fn mirrored(self) -> Place {
        Place { x: self.width - 1 - self.x, ..self }
    }

    /// Where the pixel goes when the image is turned by 90 degrees counter-clockwise.
    pub open spec fn turned(self) -> Place {
        Place {
            x: self.y,
            y: self.width - 1 - self.x,
            width: self.height,
            height: self.width,
        }
    }

    /// Where the pixel goes under `transform`: mirrored or not, then turned by as many quarter
    /// turns as the transform names.
    pub open spec fn transformed(self, transform: Transform) -> Place {
        match transform {
            Transform::Normal => self,
            Transform::_90 => self.turned(),
            Transform::_180 => self.turned().turned(),
            Transform::_270 => self.turned().turned().turned(),
            Transform::Flipped => self.mirrored(),
            Transform::Flipped90 => self.mirrored().turned(),
            Transform::Flipped180 => self.mirrored().turned().turned(),
            Transform::Flipped270 => self.mirrored().turned().turned().turned(),
        }
    }

    /// Where the pixel goes when the image is stored upside down.
    pub open spec fn upside_down(self, inverted: bool) -> Place {
        if inverted {
            Place { y: self.height - 1 - self.y, ..self }
        } else {
            self
        }
    }

    /// The pixel's index when the image is stored row by row.
    pub open spec fn index(self) -> int {
        self.y * self.width + self.x
    }
}

/// The buffer pixel that a compositor shows at `(sx, sy)` of a `sw` by `sh` surface.
pub open spec fn buffer_place(
    sx: int,
    sy: int,
    sw: int,
    sh: int,
    transform: Transform,
    y_inverted: bool,
) -> Place {
    Place { x: sx, y: sy, width: sw, height: sh }.transformed(transform).upside_down(y_inverted)
}

/// The color that a compositor shows at `(sx, sy)` of a `sw` by `sh` surface with the buffer
/// `data`.
pub open spec fn shown_color(
    data: Seq<u8>,
    sx: int,
    sy: int,
    sw: int,
    sh: int,
    transform: Transform,
    y_inverted: bool,
) -> int {
    pixel_at(data, buffer_place(sx, sy, sw, sh, transform, y_inverted).index())
}

/// The share of `part` in `total`, as a channel value.
pub open spec fn channel(part: int, total: int) -> int {
    part * 0xFF / total
}

/// The lesser of two numbers.
pub open spec fn lesser(a: int, b: int) -> int {
    if a <= b {
        a
    } else {
        b
    }
}

/// The gradient: opaque, from red in the top left corner to green in the top right one, blue in the
/// bottom left one and black in the bottom right one. The far corners are those of the surface's
/// edges, one past its last pixels.
pub open spec fn gradient(sx: int, sy: int, sw: int, sh: int) -> int {
    let red = lesser(channel(sw - sx, sw), channel(sh - sy, sh));
    let green = lesser(channel(sx, sw), channel(sh - sy, sh));
    let blue = lesser(channel(sw - sx, sw), channel(sy, sh));
    0xFF00_0000 + red * 0x1_0000 + green * 0x100 + blue
}

/// The corners of the gradient are red, green, blue and black.
pub proof fn law_gradient_corners(sw: int, sh: int)
    requires
        sw > 0,
        sh > 0,
    ensures
        gradient(0, 0, sw, sh) == 0xFFFF_0000,
        gradient(sw, 0, sw, sh) == 0xFF00_FF00,
        gradient(0, sh, sw, sh) == 0xFF00_00FF,
        gradient(sw, sh, sw, sh) == 0xFF00_0000,
{
    lemma_channel_ends(sw);
    lemma_channel_ends(sh);
}

proof fn lemma_channel_ends(total: int)
    requires
        total > 0,
    ensures
        channel(0, total) == 0,
        channel(total, total) == 0xFF,
{
    lemma_fundamental_div_mod_converse(0, total, 0, 0);
    lemma_fundamental_div_mod_converse(total * 0xFF, total, 0xFF, 0);
    lemma_mul_is_commutative(total, 0xFF);
}

/// The buffer sides for a surface of `sw` by `sh`.
pub open spec fn dims(sw: u32, sh: u32, transform: Transform) -> (u32, u32) {
    match transform {
        Transform::Normal
        | Transform::_180
        | Transform::Flipped
        | Transform::Flipped180 => (sw, sh),
        Transform::_90
        | Transform::_270
        | Transform::Flipped90
        | Transform::Flipped270 => (sh, sw),
    }
}

/// The gradient of a surface of this size can be computed in 32-bit arithmetic.
pub open spec fn gradient_fits(sw: u32, sh: u32, transform: Transform) -> bool {
    &&& dims(sw, sh, transform).0 * 4 <= u32::MAX
    &&& sw * sh * 4 <= u32::MAX
    &&& sw > 0 && sh > 0 ==> sw * 0xFF <= u32::MAX && sh * 0xFF <= u32::MAX
}

/// `data` holds the gradient for this transform: the buffer has exactly the pixels of the surface,
/// and every surface pixel shows its intended color.
pub open spec fn is_gradient(
    data: Seq<u8>,
    sw: u32,
    sh: u32,
    transform: Transform,
    y_inverted: bool,
) -> bool {
    &&& data.len() == sw * sh * 4
    &&& forall|sx: int, sy: int|
        0 <= sx < sw && 0 <= sy < sh ==> #[trigger] shown_color(
            data,
            sx,
            sy,
            sw as int,
            sh as int,
            transform,
            y_inverted,
        ) == gradient(sx, sy, sw as int, sh as int)
}

proof fn lemma_channel_bounds(part: int, total: int)
    requires
        0 <= part <= total,
        total > 0,
    ensures
        0 <= channel(part, total) <= 0xFF,
{
    vstd::arithmetic::div_mod::lemma_div_is_ordered(part * 0xFF, total * 0xFF, total);
    vstd::arithmetic::div_mod::lemma_div_multiples_vanish(0xFF, total);
    vstd::arithmetic::div_mod::lemma_div_pos_is_pos(part * 0xFF, total);
    lemma_mul_is_commutative(total, 0xFF);
}

/// The intended color at surface coordinates `(sx, sy)`.
pub fn target_color(sx: u32, sy: u32, surface_width: u32, surface_height: u32) -> (color: u32)
    requires
        surface_width > 0,
        surface_height > 0,
        sx <= surface_width,
        sy <= surface_height,
        sx * 0xFF <= u32::MAX,
        sy * 0xFF <= u32::MAX,
        (surface_width - sx) * 0xFF <= u32::MAX,
        (surface_height - sy) * 0xFF <= u32::MAX,
    ensures
        color == gradient(sx as int, sy as int, surface_width as int, surface_height as int),
{
    proof {
        lemma_channel_bounds(surface_width - sx, surface_width as int);
        lemma_channel_bounds(surface_height - sy, surface_height as int);
        lemma_channel_bounds(sx as int, surface_width as int);
        lemma_channel_bounds(sy as int, surface_height as int);
    }
    let left: u32 = ((surface_width - sx) * 0xFF) / surface_width;
    let right: u32 = (sx * 0xFF) / surface_width;
    let top: u32 = ((surface_height - sy) * 0xFF) / surface_height;
    let bottom: u32 = (sy * 0xFF) / surface_height;
    let a: u32 = 0xFF;
    let r: u32 = if left <= top { left } else { top };
    let g: u32 = if right <= top { right } else { top };
    let b: u32 = if left <= bottom { left } else { bottom };
    assert(((0xFFu32 << 24) | (r << 16) | (g << 8) | b) == 0xFF00_0000 + r * 0x1_0000 + g * 0x100
        + b) by (bit_vector)
        requires
            r <= 0xFF,
            g <= 0xFF,
            b <= 0xFF,
    ;
    (a << 24) | (r << 16) | (g << 8) | b
}

/// Buffer dimensions for the given surface dimensions and buffer transform.
/// 90/270 transforms swap the dimensions.
pub fn buffer_dims(sw: u32, sh: u32, transform: Transform) -> (sides: (u32, u32))
    ensures
        sides == dims(sw, sh, transform),
{
    match transform {
        Transform::Normal
        | Transform::_180
        | Transform::Flipped
        | Transform::Flipped180 => (sw, sh),
        Transform::_90
        | Transform::_270
        | Transform::Flipped90
        | Transform::Flipped270 => (sh, sw),
    }
}

/// The coordinates that `transform` counts from the far side lie inside the surface.
pub open spec fn mappable(sx: u32, sy: u32, sw: u32, sh: u32, transform: Transform) -> bool {
    match transform {
        Transform::Normal | Transform::Flipped90 => true,
        Transform::_90 | Transform::Flipped => sx < sw,
        Transform::_270 | Transform::Flipped180 => sy < sh,
        Transform::_180 | Transform::Flipped270 => sx < sw && sy < sh,
    }
}

/// Maps surface-space `(sx, sy)` to buffer-space `(bx, by)` for the given transform.
/// The compositor applies the inverse transform when using the buffer, so writing the intended
/// color of `(sx, sy)` at the mapped place produces the desired surface image.
pub fn map_surface_to_buffer(sx: u32, sy: u32, sw: u32, sh: u32, transform: Transform) -> (place: (
    u32,
    u32,
))
    requires
        mappable(sx, sy, sw, sh, transform),
    ensures
        ({
            let there = buffer_place(
                sx as int,
                sy as int,
                sw as int,
                sh as int,
                transform,
                false,
            );
            place.0 == there.x && place.1 == there.y
        }),
{
    match transform {
        Transform::Normal => (sx, sy),
        Transform::_90 => (sy, sw - 1 - sx),
        Transform::_180 => (sw - 1 - sx, sh - 1 - sy),
        Transform::_270 => (sh - 1 - sy, sx),
        Transform::Flipped => (sw - 1 - sx, sy),
        Transform::Flipped90 => (sy, sx),
        Transform::Flipped180 => (sx, sh - 1 - sy),
        Transform::Flipped270 => (sh - 1 - sy, sw - 1 - sx),
    }
}

/// An index inside an image determines the place.
proof fn lemma_index_injective(a: Place, b: Place)
    requires
        a.valid(),
        b.valid(),
        a.width == b.width,
        a.index() == b.index(),
    ensures
        a.x == b.x,
        a.y == b.y,
{
    lemma_fundamental_div_mod_converse(a.index(), a.width, a.y, a.x);
    lemma_fundamental_div_mod_converse(b.index(), b.width, b.y, b.x);
}

/// The index of a place inside an image counts a pixel of the image.
proof fn lemma_index_bounds(place: Place)
    requires
        place.valid(),
    ensures
        0 <= place.index() < place.width * place.height,
{
    lemma_mul_inequality(place.y + 1, place.height, place.width);
    lemma_mul_is_commutative(place.width, place.height);
    assert((place.y + 1) * place.width == place.y * place.width + place.width)
        by (nonlinear_arith);
    assert(0 <= place.y * place.width) by (nonlinear_arith)
        requires
            0 <= place.y,
            0 < place.width,
    ;
}

/// Every transform keeps the pixels of a surface inside the buffer, and the buffer has the sides
/// that [`dims`] gives.
pub proof fn law_places_stay_in_buffer(
    sx: int,
    sy: int,
    sw: u32,
    sh: u32,
    transform: Transform,
    y_inverted: bool,
)
    requires
        0 <= sx < sw,
        0 <= sy < sh,
    ensures
        buffer_place(sx, sy, sw as int, sh as int, transform, y_inverted).valid(),
        buffer_place(sx, sy, sw as int, sh as int, transform, y_inverted).width == dims(
            sw,
            sh,
            transform,
        ).0,
        buffer_place(sx, sy, sw as int, sh as int, transform, y_inverted).height == dims(
            sw,
            sh,
            transform,
        ).1,
{
}

/// No two surface pixels share a buffer pixel.
pub proof fn law_places_are_distinct(
    ax: int,
    ay: int,
    bx: int,
    by: int,
    sw: u32,
    sh: u32,
    transform: Transform,
    y_inverted: bool,
)
    requires
        0 <= ax < sw,
        0 <= ay < sh,
        0 <= bx < sw,
        0 <= by < sh,
        buffer_place(ax, ay, sw as int, sh as int, transform, y_inverted).index() == buffer_place(
            bx,
            by,
            sw as int,
            sh as int,
            transform,
            y_inverted,
        ).index(),
    ensures
        ax == bx,
        ay == by,
{
    let a = buffer_place(ax, ay, sw as int, sh as int, transform, y_inverted);
    let b = buffer_place(bx, by, sw as int, sh as int, transform, y_inverted);
    law_places_stay_in_buffer(ax, ay, sw, sh, transform, y_inverted);
    law_places_stay_in_buffer(bx, by, sw, sh, transform, y_inverted);
    lemma_index_injective(a, b);
}

/// The surface pixel that a compositor takes from the buffer pixel `(bx, by)`.
pub open spec fn surface_place(
    bx: int,
    by: int,
    sw: int,
    sh: int,
    transform: Transform,
    y_inverted: bool,
) -> (int, int) {
    let (bw, bh) = if transform == Transform::Normal || transform == Transform::_180 || transform
        == Transform::Flipped || transform == Transform::Flipped180 {
        (sw, sh)
    } else {
        (sh, sw)
    };
    let y = if y_inverted {
        bh - 1 - by
    } else {
        by
    };
    match transform {
        Transform::Normal => (bx, y),
        Transform::_90 => (sw - 1 - y, bx),
        Transform::_180 => (sw - 1 - bx, sh - 1 - y),
        Transform::_270 => (y, sh - 1 - bx),
        Transform::Flipped => (sw - 1 - bx, y),
        Transform::Flipped90 => (y, bx),
        Transform::Flipped180 => (bx, sh - 1 - y),
        Transform::Flipped270 => (sw - 1 - y, sh - 1 - bx),
    }
}

/// Every buffer pixel is shown somewhere: the mapping from surface to buffer is undone by
/// [`surface_place`], on both sides.
pub proof fn law_mapping_is_undone(
    bx: int,
    by: int,
    sw: u32,
    sh: u32,
    transform: Transform,
    y_inverted: bool,
)
    requires
        0 <= bx < dims(sw, sh, transform).0,
        0 <= by < dims(sw, sh, transform).1,
    ensures
        ({
            let (sx, sy) = surface_place(bx, by, sw as int, sh as int, transform, y_inverted);
            let there = buffer_place(sx, sy, sw as int, sh as int, transform, y_inverted);
            &&& 0 <= sx < sw
            &&& 0 <= sy < sh
            &&& there.x == bx
            &&& there.y == by
        }),
{
}

/// Renders buffer pixel data that, when the compositor applies the inverse of `transform` (and a
/// vertical flip if `y_inverted`), results in the intended gradient at surface coordinates.
/// Returns the sides of the buffer and its pixels.
pub fn draw_transformed_gradient(
    surface_width: u32,
    surface_height: u32,
    transform: Transform,
    y_inverted: bool,
) -> (drawn: (u32, u32, Vec<u8>))
    requires
        gradient_fits(surface_width, surface_height, transform),
    ensures
        (drawn.0, drawn.1) == dims(surface_width, surface_height, transform),
        is_gradient(drawn.2@, surface_width, surface_height, transform, y_inverted),
{
    let ghost sw = surface_width as int;
    let ghost sh = surface_height as int;
    let (bw, bh) = buffer_dims(surface_width, surface_height, transform);
    let stride: u32 = bw * 4;
    proof {
        lemma_mul_is_commutative(sw, sh);
        assert(bw * 4 * bh == bw * bh * 4) by (nonlinear_arith);
    }
    let mut data: Vec<u8> = vec![0u8; (stride * bh) as usize];
    let mut sy: u32 = 0;
    while sy < surface_height
        invariant
            sw == surface_width,
            sh == surface_height,
            sy <= surface_height,
            gradient_fits(surface_width, surface_height, transform),
            (bw, bh) == dims(surface_width, surface_height, transform),
            stride == bw * 4,
            data@.len() == sw * sh * 4,
            sw * sh * 4 <= u32::MAX,
            bw * bh == sw * sh,
            forall|x: int, y: int|
                0 <= x < sw && 0 <= y < sy ==> #[trigger] shown_color(
                    data@,
                    x,
                    y,
                    sw,
                    sh,
                    transform,
                    y_inverted,
                ) == gradient(x, y, sw, sh),
        decreases surface_height - sy,
    {
        let mut sx: u32 = 0;
        while sx < surface_width
            invariant
                sw == surface_width,
                sh == surface_height,
                sx <= surface_width,
                sy < surface_height,
                gradient_fits(surface_width, surface_height, transform),
                (bw, bh) == dims(surface_width, surface_height, transform),
                stride == bw * 4,
                data@.len() == sw * sh * 4,
                sw * sh * 4 <= u32::MAX,
                bw * bh == sw * sh,
                forall|x: int, y: int|
                    0 <= x < sw && 0 <= y < sh && (y < sy || y == sy && x < sx)
                        ==> #[trigger] shown_color(data@, x, y, sw, sh, transform, y_inverted)
                        == gradient(x, y, sw, sh),
            decreases surface_width - sx,
        {
            let ghost before = data@;
            let ghost here = buffer_place(sx as int, sy as int, sw, sh, transform, y_inverted);
            let color: u32 = target_color(sx, sy, surface_width, surface_height);
            let (bx, by) = map_surface_to_buffer(
                sx,
                sy,
                surface_width,
                surface_height,
                transform,
            );
            let by: u32 = if y_inverted {
                bh - 1 - by
            } else {
                by
            };
            proof {
                law_places_stay_in_buffer(
                    sx as int,
                    sy as int,
                    surface_width,
                    surface_height,
                    transform,
                    y_inverted,
                );
                assert(here.x == bx && here.y == by && here.width == bw && here.height == bh);
                lemma_index_bounds(here);
                assert(0 <= by * bw) by (nonlinear_arith);
            }
            put_pixel(data.as_mut_slice(), (by * bw + bx) as usize, color);
            sx += 1;
            proof {
                assert forall|x: int, y: int|
                    0 <= x < sw && 0 <= y < sh && (y < sy || y == sy && x
                        < sx) implies #[trigger] shown_color(
                    data@,
                    x,
                    y,
                    sw,
                    sh,
                    transform,
                    y_inverted,
                ) == gradient(x, y, sw, sh) by {
                    let there = buffer_place(x, y, sw, sh, transform, y_inverted);
                    law_places_stay_in_buffer(
                        x,
                        y,
                        surface_width,
                        surface_height,
                        transform,
                        y_inverted,
                    );
                    lemma_index_bounds(there);
                    if there.index() == here.index() {
                        law_places_are_distinct(
                            x,
                            y,
                            sx - 1,
                            sy as int,
                            surface_width,
                            surface_height,
                            transform,
                            y_inverted,
                        );
                    } else {
                        assert(shown_color(before, x, y, sw, sh, transform, y_inverted)
                            == gradient(x, y, sw, sh));
                        assert(there.index() < pixel_count(before));
                    }
                }
            }
        }
        sy += 1;
    }
    (bw, bh, data)
}

/// The executable form of [`gradient_fits`].
pub fn is_gradient_size(sw: u32, sh: u32, transform: Transform) -> (fits: bool)
    ensures
        fits == gradient_fits(sw, sh, transform),
{
    let (bw, _) = buffer_dims(sw, sh, transform);
    assert(sw * sh <= 0xFFFF_FFFF * 0xFFFF_FFFF) by (nonlinear_arith)
        requires
            sw <= 0xFFFF_FFFF,
            sh <= 0xFFFF_FFFF,
    ;
    bw <= 0x3FFF_FFFF && (sw as u128) * (sh as u128) * 4 <= 0xFFFF_FFFF && (sw == 0 || sh == 0 || (
    sw as u64 * 0xFF <= 0xFFFF_FFFF && sh as u64 * 0xFF <= 0xFFFF_FFFF))
}

/// For every combination of transform and vertical inversion the surface shows the same picture.
pub proof fn law_every_combination_looks_the_same(
    data: Seq<u8>,
    transform: Transform,
    y_inverted: bool,
    other: Seq<u8>,
    other_transform: Transform,
    other_inverted: bool,
    sw: u32,
    sh: u32,
    sx: int,
    sy: int,
)
    requires
        is_gradient(data, sw, sh, transform, y_inverted),
        is_gradient(other, sw, sh, other_transform, other_inverted),
        0 <= sx < sw,
        0 <= sy < sh,
    ensures
        shown_color(data, sx, sy, sw as int, sh as int, transform, y_inverted) == shown_color(
            other,
            sx,
            sy,
            sw as int,
            sh as int,
            other_transform,
            other_inverted,
        ),
{
}

/// Every pixel of a buffer is the place of some surface pixel.
proof fn lemma_index_is_shown(i: int, sw: u32, sh: u32, transform: Transform, y_inverted: bool)
    requires
        0 <= i < sw * sh,
    ensures
        exists|sx: int, sy: int|
            0 <= sx < sw && 0 <= sy < sh && #[trigger] buffer_place(
                sx,
                sy,
                sw as int,
                sh as int,
                transform,
                y_inverted,
            ).index() == i,
{
    let bw = dims(sw, sh, transform).0 as int;
    let bh = dims(sw, sh, transform).1 as int;
    lemma_mul_is_commutative(sw as int, sh as int);
    assert(bw > 0) by (nonlinear_arith)
        requires
            0 < bw * bh,
            bw >= 0,
            bh >= 0,
    ;
    lemma_fundamental_div_mod(i, bw);
    lemma_mul_is_commutative(bw, i / bw);
    let bx = i % bw;
    let by = i / bw;
    assert(0 <= by < bh) by (nonlinear_arith)
        requires
            0 <= i < bw * bh,
            bw > 0,
            i == by * bw + bx,
            0 <= bx < bw,
    ;
    law_mapping_is_undone(bx, by, sw, sh, transform, y_inverted);
    let (sx, sy) = surface_place(bx, by, sw as int, sh as int, transform, y_inverted);
    law_places_stay_in_buffer(sx, sy, sw, sh, transform, y_inverted);
    assert(buffer_place(sx, sy, sw as int, sh as int, transform, y_inverted).index() == i);
}

/// The gradient leaves no byte of the buffer open: two buffers that hold it for the same transform
/// are equal.
#[verifier::spinoff_prover]
pub proof fn law_gradient_is_unique(
    a: Seq<u8>,
    b: Seq<u8>,
    sw: u32,
    sh: u32,
    transform: Transform,
    y_inverted: bool,
)
    requires
        is_gradient(a, sw, sh, transform, y_inverted),
        is_gradient(b, sw, sh, transform, y_inverted),
    ensures
        a == b,
{
    assert forall|j: int| 0 <= j < a.len() implies a[j] == b[j] by {
        assert(0 <= j / 4 < sw * sh);
        lemma_gradient_pixel(a, b, sw, sh, transform, y_inverted, j / 4);
        law_words_determine_bytes(a, b, j / 4);
    }
    assert(a =~= b);
}

/// Two buffers that hold the gradient for the same transform have the same word at a pixel.
proof fn lemma_gradient_pixel(
    a: Seq<u8>,
    b: Seq<u8>,
    sw: u32,
    sh: u32,
    transform: Transform,
    y_inverted: bool,
    i: int,
)
    requires
        is_gradient(a, sw, sh, transform, y_inverted),
        is_gradient(b, sw, sh, transform, y_inverted),
        0 <= i < sw * sh,
    ensures
        pixel_at(a, i) == pixel_at(b, i),
{
    lemma_index_is_shown(i, sw, sh, transform, y_inverted);
    let (sx, sy) = choose|sx: int, sy: int|
        0 <= sx < sw && 0 <= sy < sh && #[trigger] buffer_place(
            sx,
            sy,
            sw as int,
            sh as int,
            transform,
            y_inverted,
        ).index() == i;
    let color = gradient(sx, sy, sw as int, sh as int);
    assert(shown_color(a, sx, sy, sw as int, sh as int, transform, y_inverted) == color);
    assert(shown_color(b, sx, sy, sw as int, sh as int, transform, y_inverted) == color);
}

/// `value` is the largest channel value whose share of 255 is at most that of `part` in `total` and
/// that of `other_part` in `other_total`.
pub open spec fn is_lesser_share(
    value: int,
    part: int,
    total: int,
    other_part: int,
    other_total: int,
) -> bool {
    &&& 0 <= value <= 0xFF
    &&& value * total <= part * 0xFF
    &&& value * other_total <= other_part * 0xFF
    &&& (value + 1) * total > part * 0xFF || (value + 1) * other_total > other_part * 0xFF
}

proof fn lemma_channel_is_share(part: int, total: int)
    requires
        0 <= part <= total,
        total > 0,
    ensures
        0 <= channel(part, total) <= 0xFF,
        channel(part, total) * total <= part * 0xFF < (channel(part, total) + 1) * total,
{
    lemma_channel_bounds(part, total);
    let value = channel(part, total);
    lemma_fundamental_div_mod(part * 0xFF, total);
    lemma_mul_is_commutative(total, value);
    assert((value + 1) * total == value * total + total) by (nonlinear_arith);
}

/// Where the share of one side is at most that of the other, it is the lesser share of both.
proof fn lemma_lesser_share(part: int, total: int, other_part: int, other_total: int)
    requires
        0 <= part <= total,
        total > 0,
        0 <= other_part <= other_total,
        other_total > 0,
    ensures
        is_lesser_share(
            lesser(channel(part, total), channel(other_part, other_total)),
            part,
            total,
            other_part,
            other_total,
        ),
{
    lemma_channel_is_share(part, total);
    lemma_channel_is_share(other_part, other_total);
    let a = channel(part, total);
    let b = channel(other_part, other_total);
    if a <= b {
        lemma_mul_inequality(a, b, other_total);
    } else {
        lemma_mul_inequality(b, a, total);
    }
}

/// Every pixel of the gradient is opaque. Its red fades towards the right and towards the bottom,
/// its green towards the left and towards the bottom, and its blue towards the right and towards
/// the top: each is the largest value that is within both of its shares.
pub proof fn law_gradient_fades_along_both_axes(sx: int, sy: int, sw: int, sh: int)
    requires
        0 <= sx <= sw,
        0 <= sy <= sh,
        sw > 0,
        sh > 0,
    ensures
        ({
            let color = gradient(sx, sy, sw, sh);
            &&& color / 0x100_0000 == 0xFF
            &&& is_lesser_share(color / 0x1_0000 % 0x100, sw - sx, sw, sh - sy, sh)
            &&& is_lesser_share(color / 0x100 % 0x100, sx, sw, sh - sy, sh)
            &&& is_lesser_share(color % 0x100, sw - sx, sw, sy, sh)
        }),
{
    lemma_lesser_share(sw - sx, sw, sh - sy, sh);
    lemma_lesser_share(sx, sw, sh - sy, sh);
    lemma_lesser_share(sw - sx, sw, sy, sh);
    let (left, right) = (channel(sw - sx, sw), channel(sx, sw));
    let (top, bottom) = (channel(sh - sy, sh), channel(sy, sh));
    lemma_channels_of_color(lesser(left, top), lesser(right, top), lesser(left, bottom));
}

proof fn lemma_channels_of_color(red: int, green: int, blue: int)
    requires
        0 <= red <= 0xFF,
        0 <= green <= 0xFF,
        0 <= blue <= 0xFF,
    ensures
        ({
            let color = 0xFF00_0000 + red * 0x1_0000 + green * 0x100 + blue;
            &&& color / 0x100_0000 == 0xFF
            &&& color / 0x1_0000 % 0x100 == red
            &&& color / 0x100 % 0x100 == green
            &&& color % 0x100 == blue
        }),
{
    let color = 0xFF00_0000 + red * 0x1_0000 + green * 0x100 + blue;
    assert(color / 0x100_0000 == 0xFF);
    assert(color / 0x1_0000 == 0xFF00 + red);
    assert(color / 0x100 == 0xFF_0000 + red * 0x100 + green);
}

/// A pixel further to the right has no more red and blue, and no less green; a pixel further down
/// has no more red and green, and no less blue.
pub proof fn law_gradient_is_monotone(sx: int, sy: int, tx: int, ty: int, sw: int, sh: int)
    requires
        0 <= sx <= tx <= sw,
        0 <= sy <= ty <= sh,
        sw > 0,
        sh > 0,
    ensures
        gradient(tx, sy, sw, sh) / 0x1_0000 % 0x100 <= gradient(sx, sy, sw, sh) / 0x1_0000 % 0x100,
        gradient(tx, sy, sw, sh) / 0x100 % 0x100 >= gradient(sx, sy, sw, sh) / 0x100 % 0x100,
        gradient(tx, sy, sw, sh) % 0x100 <= gradient(sx, sy, sw, sh) % 0x100,
        gradient(sx, ty, sw, sh) / 0x1_0000 % 0x100 <= gradient(sx, sy, sw, sh) / 0x1_0000 % 0x100,
        gradient(sx, ty, sw, sh) / 0x100 % 0x100 <= gradient(sx, sy, sw, sh) / 0x100 % 0x100,
        gradient(sx, ty, sw, sh) % 0x100 >= gradient(sx, sy, sw, sh) % 0x100,
{
    law_gradient_fades_along_both_axes(sx, sy, sw, sh);
    law_gradient_fades_along_both_axes(tx, sy, sw, sh);
    law_gradient_fades_along_both_axes(sx, ty, sw, sh);
    let here = gradient(sx, sy, sw, sh);
    let right = gradient(tx, sy, sw, sh);
    let down = gradient(sx, ty, sw, sh);
    let (rest_x, rest_y) = (sw - sx, sh - sy);
    let (here_red, here_green) = (here / 0x1_0000 % 0x100, here / 0x100 % 0x100);
    let (right_red, right_green) = (right / 0x1_0000 % 0x100, right / 0x100 % 0x100);
    let (down_red, down_green) = (down / 0x1_0000 % 0x100, down / 0x100 % 0x100);
    lemma_smaller_share(right_red, sw - tx, here_red, rest_x, sw, rest_y, rest_y, sh);
    lemma_smaller_share(here_green, sx, right_green, tx, sw, rest_y, rest_y, sh);
    lemma_smaller_share(right % 0x100, sw - tx, here % 0x100, rest_x, sw, sy, sy, sh);
    lemma_smaller_share(down_red, rest_x, here_red, rest_x, sw, sh - ty, rest_y, sh);
    lemma_smaller_share(down_green, sx, here_green, sx, sw, sh - ty, rest_y, sh);
    lemma_smaller_share(here % 0x100, rest_x, down % 0x100, rest_x, sw, sy, ty, sh);
}

/// The lesser share of smaller parts is not greater.
proof fn lemma_smaller_share(
    a: int,
    a_part: int,
    b: int,
    b_part: int,
    total: int,
    a_other: int,
    b_other: int,
    other_total: int,
)
    requires
        is_lesser_share(a, a_part, total, a_other, other_total),
        is_lesser_share(b, b_part, total, b_other, other_total),
        a_part <= b_part,
        a_other <= b_other,
        total > 0,
        other_total > 0,
    ensures
        a <= b,
{
    if a > b {
        lemma_mul_inequality(b + 1, a, total);
        lemma_mul_inequality(b + 1, a, other_total);
    }
}

/// A direction on an image: how far to the right, and how far down.
pub struct Heading {
    pub x: int,
    pub y: int,
}

impl Heading {
    /// The direction after a quarter turn counter-clockwise: right turns to up, and down to right.
    pub open spec fn turned(self) -> Heading {
        Heading { x: self.y, y: -self.x }
    }
}

/// Where a direction of the surface points in the buffer. Each transform names the number of
/// quarter turns, after left and right were exchanged for the flipped ones.
pub open spec fn heading(direction: Heading, transform: Transform) -> Heading {
    let flipped = Heading { x: -direction.x, y: direction.y };
    match transform {
        Transform::Normal => direction,
        Transform::_90 => direction.turned(),
        Transform::_180 => Heading { x: -direction.x, y: -direction.y },
        Transform::_270 => Heading { x: -direction.y, y: direction.x },
        Transform::Flipped => flipped,
        Transform::Flipped90 => flipped.turned(),
        Transform::Flipped180 => Heading { x: -flipped.x, y: -flipped.y },
        Transform::Flipped270 => Heading { x: -flipped.y, y: flipped.x },
    }
}

/// Two surface pixels lie in the buffer as the transform turns the direction from one to the other,
/// and upside down where the buffer is inverted. So right is up under a quarter turn, left under a
/// half turn and down under three quarters.
pub proof fn law_transforms_turn_directions(
    sx: int,
    sy: int,
    dx: int,
    dy: int,
    sw: int,
    sh: int,
    transform: Transform,
    y_inverted: bool,
)
    ensures
        ({
            let here = buffer_place(sx, sy, sw, sh, transform, y_inverted);
            let there = buffer_place(sx + dx, sy + dy, sw, sh, transform, y_inverted);
            let way = heading(Heading { x: dx, y: dy }, transform);
            &&& there.x - here.x == way.x
            &&& there.y - here.y == if y_inverted {
                -way.y
            } else {
                way.y
            }
        }),
{
}

/// The buffer has as many pixels as the surface, and its sides are exchanged exactly if the
/// transform turns what is level on the surface upright.
pub proof fn law_dims_follow_the_turn(sw: u32, sh: u32, transform: Transform)
    ensures
        ({
            let level = heading(Heading { x: 1, y: 0 }, transform);
            let (bw, bh) = dims(sw, sh, transform);
            &&& level.y == 0 ==> bw == sw && bh == sh
            &&& level.x == 0 ==> bw == sh && bh == sw
            &&& level.x == 0 <==> level.y != 0
            &&& bw * bh == sw * sh
        }),
{
    lemma_mul_is_commutative(sw as int, sh as int);
}

/// The first pixel of an upright buffer is the surface corner that the transform turns to the top
/// left: every corner of the surface is that of some transform, the flipped one included.
pub proof fn law_corners_of_the_buffer(sw: int, sh: int)
    ensures
        buffer_place(0, 0, sw, sh, Transform::Normal, false).index() == 0,
        buffer_place(sw - 1, 0, sw, sh, Transform::_90, false).index() == 0,
        buffer_place(sw - 1, sh - 1, sw, sh, Transform::_180, false).index() == 0,
        buffer_place(0, sh - 1, sw, sh, Transform::_270, false).index() == 0,
        buffer_place(sw - 1, 0, sw, sh, Transform::Flipped, false).index() == 0,
        buffer_place(0, 0, sw, sh, Transform::Flipped90, false).index() == 0,
        buffer_place(0, sh - 1, sw, sh, Transform::Flipped180, false).index() == 0,
        buffer_place(sw - 1, sh - 1, sw, sh, Transform::Flipped270, false).index() == 0,
{
    assert(0 * sw == 0 && 0 * sh == 0) by (nonlinear_arith);
}

/// An inverted buffer holds the rows of the upright one in reverse order.
pub proof fn law_inversion_reverses_the_rows(
    sx: int,
    sy: int,
    sw: int,
    sh: int,
    transform: Transform,
)
    ensures
        ({
            let upright = buffer_place(sx, sy, sw, sh, transform, false);
            let inverted = buffer_place(sx, sy, sw, sh, transform, true);
            &&& inverted.x == upright.x
            &&& inverted.y + upright.y == upright.height - 1
            &&& inverted.width == upright.width
            &&& inverted.height == upright.height
        }),
{
}

/// The gradient of every surface with sides of up to 32767 pixels can be computed, under every
/// transform, and whether it can depends on nothing but the two sides: exchanging them, or
/// transforming it otherwise, makes no difference where the surface is not empty.
pub proof fn law_large_gradients_fit(sw: u32, sh: u32, transform: Transform, other: Transform)
    ensures
        sw <= 32767 && sh <= 32767 ==> gradient_fits(sw, sh, transform),
        sw > 0 && sh > 0 ==> gradient_fits(sw, sh, transform) == gradient_fits(sw, sh, other),
        sw > 0 && sh > 0 ==> gradient_fits(sw, sh, transform) == gradient_fits(sh, sw, transform),
{
    lemma_mul_is_commutative(sw as int, sh as int);
    if sw <= 32767 && sh <= 32767 {
        lemma_mul_inequality(sw as int, 32767, sh as int);
        lemma_mul_inequality(sh as int, 32767, 32767);
        lemma_mul_is_commutative(32767, sh as int);
    }
}

} // verus!
