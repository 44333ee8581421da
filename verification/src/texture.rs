//! From a decoded picture to what the driver is handed as a texture.
//!
//! The driver reads a texture as rows of pixels, three bytes each, and it
//! reads as many bytes as the width and height it is told call for. What
//! this module lets through holds exactly that many.

use vstd::prelude::*;
use vstd::arithmetic::div_mod::{lemma_fundamental_div_mod, lemma_fundamental_div_mod_converse};

verus! {

/// The largest width or height the driver takes.
pub const MAX_SIDE: u32 = 0x7fff_ffff;

/// A decoded picture: `samples` holds the rows from the top one down, each
/// row its pixels from left to right, each pixel its bytes.
#[derive(Debug)]
pub struct Picture {
    pub width: u32,
    pub height: u32,
    pub samples: Vec<u8>,
}

/// What the driver is handed: a width, a height, and three bytes for each
/// pixel.
#[derive(Debug)]
pub struct Texture {
    pub width: i32,
    pub height: i32,
    pub pixels: Vec<u8>,
}

/// Why a picture cannot be a texture.
#[derive(Clone, Copy, Debug, PartialEq, Eq, Structural)]
pub enum TextureError {
    /// A side is longer than the driver takes.
    TooLarge,
    /// The samples are not three bytes for each pixel.
    NotRgb,
    /// The picture has no pixel.
    Empty,
}

/// `samples`, read as `rows` rows of `row` bytes, with the order of the rows
/// turned round: the last row comes first, and every row stays as it is.
pub open spec fn flipped(samples: Seq<u8>, row: int, rows: int) -> Seq<u8> {
    Seq::new(samples.len(), |i: int| samples[(rows - 1 - i / row) * row + i % row])
}

/// What is wrong with a picture of the given sides and so many samples, if
/// anything is. The first of the three faults that applies is the one named.
pub open spec fn fault(width: u32, height: u32, len: nat) -> Option<TextureError> {
    if width > MAX_SIDE || height > MAX_SIDE {
        Some(TextureError::TooLarge)
    } else if len != 3 * width * height {
        Some(TextureError::NotRgb)
    } else if len == 0 {
        Some(TextureError::Empty)
    } else {
        None
    }
}

/// Calls `image::imageops::flip_vertical` on the samples, taken as an image
/// of `width` by `height` pixels of three bytes.
///
/// Trusted: the result has the pixel that stood at column x of row y at
/// column x of row `height - 1 - y`, and nothing else. That is the two nested
/// loops of the function, with the buffer laid out row by row as
/// `ImageBuffer` does. A picture without a pixel is left out: the library
/// multiplies three by the width before it looks at the height, and that
/// product need not fit where there are no rows to hold it.
#[verifier::external_body]
fn flip_rows(width: u32, height: u32, samples: Vec<u8>) -> (out: Vec<u8>)
    requires
        width > 0,
        height > 0,
        samples.len() == 3 * width * height,
    ensures
        out@ == flipped(samples@, 3 * width, height as int),
{
    let picture = image::RgbImage::from_raw(width, height, samples).unwrap();
    image::imageops::flip_vertical(&picture).into_raw()
}

/// Makes the texture of a picture, upside down if `flip` is set.
///
/// A picture goes through when neither side is longer than the driver takes,
/// it has at least one pixel, and its samples are three bytes for each
/// pixel. The texture then has the picture's sides and its samples, row
/// order reversed where `flip` is set.
pub fn prepare_texture(picture: Picture, flip: bool) -> (result: Result<Texture, TextureError>)
    ensures
        match result {
            Ok(texture) => {
                &&& fault(picture.width, picture.height, picture.samples@.len()).is_none()
                &&& texture.width == picture.width
                &&& texture.height == picture.height
                &&& texture.pixels@.len() == 3 * texture.width * texture.height
                &&& texture.pixels@ == if flip {
                    flipped(picture.samples@, 3 * picture.width, picture.height as int)
                } else {
                    picture.samples@
                }
            },
            Err(error) => fault(picture.width, picture.height, picture.samples@.len()) == Some(error),
        },
{
    let Picture { width, height, samples } = picture;
    if width > MAX_SIDE || height > MAX_SIDE {
        return Err(TextureError::TooLarge);
    }
    assert(3 * width * height <= 3 * 0x7fff_ffff * 0x7fff_ffff) by (nonlinear_arith)
        requires
            width <= 0x7fff_ffff,
            height <= 0x7fff_ffff,
    ;
    assert(3 * width <= 3 * 0x7fff_ffff);
    let wanted: u64 = 3 * (width as u64) * (height as u64);
    if samples.len() as u64 != wanted {
        return Err(TextureError::NotRgb);
    }
    if wanted == 0 {
        return Err(TextureError::Empty);
    }
    assert(width > 0 && height > 0) by (nonlinear_arith)
        requires
            3 * width * height != 0,
    ;
    let pixels = if flip {
        flip_rows(width, height, samples)
    } else {
        samples
    };
    Ok(Texture { width: width as i32, height: height as i32, pixels })
}

/// Where byte `i` of a flipped picture comes from, and that the place lies
/// inside the picture.
pub proof fn lemma_flip_source(row: int, rows: int, i: int)
    requires
        row > 0,
        0 <= i < row * rows,
    ensures
        0 <= i / row < rows,
        0 <= i % row < row,
        0 <= (rows - 1 - i / row) * row + i % row < row * rows,
        ((rows - 1 - i / row) * row + i % row) / row == rows - 1 - i / row,
        ((rows - 1 - i / row) * row + i % row) % row == i % row,
{
    let y = i / row;
    let x = i % row;
    lemma_fundamental_div_mod(i, row);
    assert(0 <= y < rows) by (nonlinear_arith)
        requires
            i == row * y + x,
            0 <= x < row,
            0 <= i < row * rows,
    ;
    let up = rows - 1 - y;
    lemma_fundamental_div_mod_converse(up * row + x, row, up, x);
    assert(0 <= up * row + x < row * rows) by (nonlinear_arith)
        requires
            0 <= up < rows,
            0 <= x < row,
    ;
}

/// Turning a picture upside down twice gives the picture back.
pub proof fn lemma_flip_twice(samples: Seq<u8>, row: int, rows: int)
    requires
        row > 0,
        rows >= 0,
        samples.len() == row * rows,
    ensures
        flipped(flipped(samples, row, rows), row, rows) == samples,
{
    let once = flipped(samples, row, rows);
    let twice = flipped(once, row, rows);
    assert forall|i: int| 0 <= i < samples.len() implies twice[i] == samples[i] by {
        lemma_flip_source(row, rows, i);
        let j = (rows - 1 - i / row) * row + i % row;
        lemma_fundamental_div_mod(i, row);
        assert((rows - 1 - j / row) * row + j % row == i) by (nonlinear_arith)
            requires
                j / row == rows - 1 - i / row,
                j % row == i % row,
                i == row * (i / row) + i % row,
        ;
    }
    assert(twice =~= samples);
}

/// In a flipped picture, the byte at column `x` of row `y` is the byte that
/// stood at column `x` of row `rows - 1 - y`.
pub proof fn lemma_flip_moves_rows(samples: Seq<u8>, row: int, rows: int, x: int, y: int)
    requires
        samples.len() == row * rows,
        0 <= x < row,
        0 <= y < rows,
    ensures
        0 <= y * row + x < samples.len(),
        0 <= (rows - 1 - y) * row + x < samples.len(),
        flipped(samples, row, rows)[y * row + x] == samples[(rows - 1 - y) * row + x],
{
    lemma_fundamental_div_mod_converse(y * row + x, row, y, x);
    assert(0 <= y * row + x < row * rows) by (nonlinear_arith)
        requires
            0 <= y < rows,
            0 <= x < row,
    ;
    assert(0 <= (rows - 1 - y) * row + x < row * rows) by (nonlinear_arith)
        requires
            0 <= rows - 1 - y < rows,
            0 <= x < row,
    ;
}

} // verus!
