//! Texture rows: decoded images come top row first, the renderer wants the
//! bottom row first.

use vstd::prelude::*;

verus! {

/// Bytes per pixel: red, green, blue, alpha.
pub const CHANNELS: u64 = 4;

/// An RGBA image whose first row is its bottom row.
#[derive(Clone, Debug)]
pub struct Texture {
    pub width: u32,
    pub height: u32,
    /// `height` rows of `width` pixels, four bytes each.
    pub pixels: Vec<u8>,
}

/// Why a byte buffer was not taken as an image.
#[derive(Clone, Copy, Debug, PartialEq, Eq, Structural)]
pub enum TextureError {
    /// The buffer does not hold exactly four bytes for each pixel.
    SizeMismatch,
}

/// Place of byte `offset` of row `row` in a buffer whose rows are `stride`
/// bytes long.
pub open spec fn cell(stride: int, row: int, offset: int) -> int {
    row * stride + offset
}

/// `flipped` holds the rows of `pixels` in reverse order, each row as it was.
pub open spec fn is_row_flip(flipped: Seq<u8>, pixels: Seq<u8>, stride: int, rows: int) -> bool {
    &&& flipped.len() == pixels.len()
    &&& forall|row: int, offset: int|
        0 <= row < rows && 0 <= offset < stride ==> #[trigger] flipped[cell(stride, row, offset)]
            == pixels[cell(stride, rows - 1 - row, offset)]
}

/// Every place of a buffer of `rows` rows is the place of one byte of one
/// row.
pub proof fn lemma_cell_of_place(stride: int, rows: int, place: int)
    requires
        0 < stride,
        0 <= place < stride * rows,
    ensures
        0 <= place / stride < rows,
        0 <= place % stride < stride,
        place == cell(stride, place / stride, place % stride),
{
    vstd::arithmetic::div_mod::lemma_fundamental_div_mod(place, stride);
    vstd::arithmetic::div_mod::lemma_mod_pos_bound(place, stride);
    let row = place / stride;
    assert(0 <= row < rows) by (nonlinear_arith)
        requires
            0 < stride,
            0 <= place < stride * rows,
            place == stride * row + place % stride,
            0 <= place % stride < stride,
    ;
    assert(stride * row == row * stride) by (nonlinear_arith);
}

/// Reversing the rows says what every byte is: two buffers that both hold
/// the rows of `pixels` in reverse order are the same buffer.
pub proof fn law_row_flip_unique(
    first: Seq<u8>,
    second: Seq<u8>,
    pixels: Seq<u8>,
    stride: int,
    rows: int,
)
    requires
        0 <= stride,
        0 <= rows,
        pixels.len() == stride * rows,
        is_row_flip(first, pixels, stride, rows),
        is_row_flip(second, pixels, stride, rows),
    ensures
        first == second,
{
    assert forall|place: int| 0 <= place < first.len() implies first[place] == second[place] by {
        if stride == 0 {
            assert(stride * rows == 0) by (nonlinear_arith)
                requires
                    stride == 0,
            ;
        } else {
            lemma_cell_of_place(stride, rows, place);
            let row = place / stride;
            let offset = place % stride;
            assert(first[cell(stride, row, offset)] == pixels[cell(
                stride,
                rows - 1 - row,
                offset,
            )]);
            assert(second[cell(stride, row, offset)] == pixels[cell(
                stride,
                rows - 1 - row,
                offset,
            )]);
        }
    }
    assert(first =~= second);
}

/// Reversing the rows twice gives back the buffer one started with.
pub proof fn law_row_flip_twice(
    pixels: Seq<u8>,
    once: Seq<u8>,
    twice: Seq<u8>,
    stride: int,
    rows: int,
)
    requires
        0 <= stride,
        0 <= rows,
        pixels.len() == stride * rows,
        is_row_flip(once, pixels, stride, rows),
        is_row_flip(twice, once, stride, rows),
    ensures
        twice == pixels,
{
    assert forall|place: int| 0 <= place < twice.len() implies twice[place] == pixels[place] by {
        if stride == 0 {
            assert(stride * rows == 0) by (nonlinear_arith)
                requires
                    stride == 0,
            ;
        } else {
            lemma_cell_of_place(stride, rows, place);
            let row = place / stride;
            let offset = place % stride;
            assert(twice[cell(stride, row, offset)] == once[cell(stride, rows - 1 - row, offset)]);
            assert(once[cell(stride, rows - 1 - row, offset)] == pixels[cell(
                stride,
                rows - 1 - (rows - 1 - row),
                offset,
            )]);
        }
    }
    assert(twice =~= pixels);
}

/// Reverses the order of the rows of an RGBA buffer.
///
/// Trusted: the body hands the buffer to `image::imageops::flip_vertical`,
/// which makes a new image of the same size and copies the pixel at column
/// `x` of row `y` to column `x` of row `height - 1 - y`. The contract says
/// that of the bytes: same length, rows reversed, bytes within a row kept.
#[verifier::external_body]
fn flip_vertical(width: u32, height: u32, pixels: Vec<u8>) -> (flipped: Vec<u8>)
    requires
        pixels@.len() == CHANNELS * width * height,
    ensures
        is_row_flip(flipped@, pixels@, CHANNELS * width, height as int),
{
    match image::RgbaImage::from_raw(width, height, pixels) {
        Some(picture) => image::imageops::flip_vertical(&picture).into_raw(),
        None => Vec::new(),
    }
}

/// Whether `len` bytes are exactly four for each pixel of a `width` by
/// `height` image.
pub fn holds_rgba(len: usize, width: u32, height: u32) -> (r: bool)
    ensures
        r == (len == CHANNELS * width * height),
{
    assert(width * height <= 0xFFFF_FFFF * 0xFFFF_FFFF) by (nonlinear_arith)
        requires
            width <= 0xFFFF_FFFF,
            height <= 0xFFFF_FFFF,
    ;
    let area: u64 = width as u64 * height as u64;
    let bytes: u64 = len as u64;
    assert(CHANNELS * width * height == 4 * (width * height)) by (nonlinear_arith);
    bytes % CHANNELS == 0 && bytes / CHANNELS == area
}

/// Turns a decoded image, top row first, into a texture, bottom row first.
///
/// The buffer must hold exactly `4 * width * height` bytes; any other length
/// is refused.
pub fn flip_rows(width: u32, height: u32, pixels: Vec<u8>) -> (r: Result<Texture, TextureError>)
    ensures
        r is Ok <==> pixels@.len() == CHANNELS * width * height,
        r matches Ok(texture) ==> {
            &&& texture.width == width
            &&& texture.height == height
            &&& is_row_flip(texture.pixels@, pixels@, CHANNELS * width, height as int)
        },
{
    if !holds_rgba(pixels.len(), width, height) {
        return Err(TextureError::SizeMismatch);
    }
    let flipped = flip_vertical(width, height, pixels);
    Ok(Texture { width, height, pixels: flipped })
}

} // verus!
