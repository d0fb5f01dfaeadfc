//! Pixels in a canvas of bytes: four bytes to the pixel, the least significant byte first.

use vstd::prelude::*;

verus! {

/// The 32-bit word of pixel `i`.
pub open spec fn pixel_at(canvas: Seq<u8>, i: int) -> int {
    canvas[4 * i] + 0x100 * canvas[4 * i + 1] + 0x1_0000 * canvas[4 * i + 2] + 0x100_0000
        * canvas[4 * i + 3]
}

/// The number of whole pixels in a canvas.
pub open spec fn pixel_count(canvas: Seq<u8>) -> int {
    canvas.len() as int / 4
}

/// What a painter leaves alone: the length of the canvas, and the bytes behind the last whole
/// pixel.
pub open spec fn same_rest(before: Seq<u8>, after: Seq<u8>) -> bool {
    &&& after.len() == before.len()
    &&& forall|j: int|
        4 * pixel_count(before) <= j < before.len() ==> #[trigger] after[j] == before[j]
}

/// Every whole pixel of `after` has the color that `color` gives to its index, and nothing else
/// has changed.
pub open spec fn painted(before: Seq<u8>, after: Seq<u8>, color: spec_fn(int) -> u32) -> bool {
    &&& same_rest(before, after)
    &&& forall|i: int|
        0 <= i < pixel_count(before) ==> #[trigger] pixel_at(after, i) == color(i)
}

/// The column of pixel `index` in rows of `width` pixels. The index counts modulo the range of its
/// 32-bit type.
pub open spec fn column(index: int, width: u32) -> u32 {
    (index as u32) % width
}

/// The row of pixel `index` in rows of `width` pixels.
pub open spec fn row(index: int, width: u32) -> u32 {
    (index as u32) / width
}

/// A color in premultiplied form: no channel exceeds the alpha value.
pub open spec fn premultiplied(color: u32) -> bool {
    let alpha = color / 0x100_0000;
    &&& (color / 0x1_0000) % 0x100 <= alpha
    &&& (color / 0x100) % 0x100 <= alpha
    &&& color % 0x100 <= alpha
}

/// Writes `color` to pixel `i`.
pub fn put_pixel(canvas: &mut [u8], i: usize, color: u32)
    requires
        4 * i + 4 <= old(canvas)@.len(),
    ensures
        final(canvas)@.len() == old(canvas)@.len(),
        pixel_at(final(canvas)@, i as int) == color,
        forall|k: int|
            0 <= k < pixel_count(old(canvas)@) && k != i ==> #[trigger] pixel_at(final(canvas)@, k)
                == pixel_at(old(canvas)@, k),
        forall|j: int|
            0 <= j < old(canvas)@.len() && !(4 * i <= j < 4 * i + 4) ==> #[trigger] final(canvas)@[j]
                == old(canvas)@[j],
{
    let start: usize = 4 * i;
    canvas[start] = (color % 0x100) as u8;
    canvas[start + 1] = (color / 0x100 % 0x100) as u8;
    canvas[start + 2] = (color / 0x1_0000 % 0x100) as u8;
    canvas[start + 3] = (color / 0x100_0000) as u8;
}

/// Gives every whole pixel of the canvas the same color.
pub fn fill(canvas: &mut [u8], color: u32)
    ensures
        painted(old(canvas)@, final(canvas)@, |i: int| color),
{
    let count: usize = canvas.len() / 4;
    let ghost before = canvas@;
    let mut i: usize = 0;
    while i < count
        invariant
            i <= count,
            count == pixel_count(before),
            same_rest(before, canvas@),
            forall|k: int| 0 <= k < i ==> #[trigger] pixel_at(canvas@, k) == color,
        decreases count - i,
    {
        put_pixel(canvas, i, color);
        i += 1;
    }
}

/// The word of a pixel determines its four bytes.
pub proof fn law_pixel_bytes(canvas: Seq<u8>, i: int, color: u32)
    requires
        0 <= i < pixel_count(canvas),
    ensures
        pixel_at(canvas, i) == color <==> {
            &&& canvas[4 * i] == color % 0x100
            &&& canvas[4 * i + 1] == color / 0x100 % 0x100
            &&& canvas[4 * i + 2] == color / 0x1_0000 % 0x100
            &&& canvas[4 * i + 3] == color / 0x100_0000
        },
{
    lemma_word_bytes(
        canvas[4 * i],
        canvas[4 * i + 1],
        canvas[4 * i + 2],
        canvas[4 * i + 3],
        color,
    );
}

/// A word has exactly one way to be made of four bytes.
proof fn lemma_word_bytes(b0: u8, b1: u8, b2: u8, b3: u8, color: u32)
    ensures
        b0 + 0x100 * b1 + 0x1_0000 * b2 + 0x100_0000 * b3 == color <==> {
            &&& b0 == color % 0x100
            &&& b1 == color / 0x100 % 0x100
            &&& b2 == color / 0x1_0000 % 0x100
            &&& b3 == color / 0x100_0000
        },
{
    assert(b0 + 0x100 * b1 + 0x1_0000 * b2 + 0x100_0000 * b3 == color <==> (b0 == color % 0x100
        && b1 == color / 0x100 % 0x100 && b2 == color / 0x1_0000 % 0x100 && b3 == color
        / 0x100_0000)) by (bit_vector);
}

/// Below the range of its 32-bit type a pixel's index is its row times the width plus its column.
pub proof fn law_index_of_row_and_column(index: int, width: u32)
    requires
        0 <= index <= u32::MAX,
        width > 0,
    ensures
        column(index, width) < width,
        row(index, width) * width + column(index, width) == index,
{
    vstd::arithmetic::div_mod::lemma_fundamental_div_mod(index, width as int);
    vstd::arithmetic::mul::lemma_mul_is_commutative(width as int, index / width as int);
}

/// Byte `k` of a color, counted from the least significant one.
pub open spec fn color_byte(color: u32, k: int) -> u8 {
    if k == 0 {
        (color % 0x100) as u8
    } else if k == 1 {
        (color / 0x100 % 0x100) as u8
    } else if k == 2 {
        (color / 0x1_0000 % 0x100) as u8
    } else {
        (color / 0x100_0000) as u8
    }
}

/// Painting reaches every byte of every whole pixel, and no other one: byte `j` of a painted canvas
/// is byte `j % 4` of the color of pixel `j / 4`, up to the last multiple of four, and what lies
/// behind that stays.
#[verifier::spinoff_prover]
pub proof fn law_painting_reaches_every_byte(
    before: Seq<u8>,
    after: Seq<u8>,
    color: spec_fn(int) -> u32,
    j: int,
)
    requires
        painted(before, after, color),
        0 <= j < before.len(),
    ensures
        after.len() == before.len(),
        j - j % 4 + 4 <= before.len() ==> after[j] == color_byte(color(j / 4), j % 4),
        j - j % 4 + 4 > before.len() ==> after[j] == before[j],
{
    let i = j / 4;
    if j - j % 4 + 4 <= before.len() {
        assert(0 <= i < pixel_count(before));
        assert(pixel_at(after, i) == color(i));
        law_pixel_bytes(after, i, color(i));
    }
}

/// A premultiplied color is one none of whose channels is above its alpha value.
pub proof fn law_premultiplied_channels(alpha: u8, red: u8, green: u8, blue: u8)
    ensures
        premultiplied(
            (alpha * 0x100_0000 + red * 0x1_0000 + green * 0x100 + blue) as u32,
        ) <==> red <= alpha && green <= alpha && blue <= alpha,
{
    let color: u32 = (alpha * 0x100_0000 + red * 0x1_0000 + green * 0x100 + blue) as u32;
    assert(color / 0x100_0000 == alpha && (color / 0x1_0000) % 0x100 == red && (color / 0x100)
        % 0x100 == green && color % 0x100 == blue) by (bit_vector)
        requires
            color == alpha * 0x100_0000 + red * 0x1_0000 + green * 0x100 + blue,
    ;
}

/// The pixel in column `x` of row `y` has that column and that row, where rows have `width` pixels
/// and the index is in the range of its type.
pub proof fn law_row_and_column_of_index(x: int, y: int, width: u32)
    requires
        0 <= x < width,
        0 <= y,
        y * width + x <= u32::MAX,
    ensures
        0 <= y * width + x,
        column(y * width + x, width) == x,
        row(y * width + x, width) == y,
        (y * width + x) % width as int == x,
        (y * width + x) / width as int == y,
{
    assert(0 <= y * width) by (nonlinear_arith)
        requires
            0 <= y,
    ;
    vstd::arithmetic::div_mod::lemma_fundamental_div_mod_converse(
        y * width + x,
        width as int,
        y,
        x,
    );
}

/// Two canvases with the same word at a pixel have the same bytes there.
pub proof fn law_words_determine_bytes(a: Seq<u8>, b: Seq<u8>, i: int)
    requires
        pixel_at(a, i) == pixel_at(b, i),
    ensures
        a[4 * i] == b[4 * i],
        a[4 * i + 1] == b[4 * i + 1],
        a[4 * i + 2] == b[4 * i + 2],
        a[4 * i + 3] == b[4 * i + 3],
{
    let word: u32 = pixel_at(a, i) as u32;
    lemma_word_bytes(a[4 * i], a[4 * i + 1], a[4 * i + 2], a[4 * i + 3], word);
    lemma_word_bytes(b[4 * i], b[4 * i + 1], b[4 * i + 2], b[4 * i + 3], word);
}

} // verus!
