//! Cutting the keyboard out of a rendered frame.
//!
//! A frame is read back from the graphics card bottom row first. To save the
//! keyboard as a picture, the part of the window that shows it is measured,
//! the pixels are read, and their rows are put in top-down order.

use vstd::arithmetic::div_mod::{
    lemma_fundamental_div_mod, lemma_mod_is_zero, lemma_mod_multiples_basic,
    lemma_mod_sub_multiples_vanish,
};
use vstd::prelude::*;
use crate::keyboard::KeyboardType;

verus! {

/// The height, in pixels, of the toolbar below the keyboard.
pub const TOOLBAR_HEIGHT: u32 = 120;

/// The width, in pixels, of the margin beside the keyboard.
pub const MARGIN_WIDTH: u32 = 20;

/// The width, in pixels, that the narrower MacBook layout leaves empty.
pub const MAC_SPARE_WIDTH: u32 = 420;

/// The bytes of one pixel: red, green, blue and alpha.
pub const BYTES_PER_PIXEL: usize = 4;

impl KeyboardType {
    /// The width, in pixels, of the window that does not show the keyboard.
    pub open spec fn spec_unused_width(&self) -> u32 {
        match self {
            KeyboardType::QwertyMac => (MARGIN_WIDTH + MAC_SPARE_WIDTH) as u32,
            KeyboardType::Qwerty87 => MARGIN_WIDTH,
        }
    }

    /// Returns the width, in pixels, of the window that does not show the
    /// keyboard: the margin, and what the layout leaves empty.
    #[verifier::when_used_as_spec(spec_unused_width)]
    pub fn unused_width(&self) -> (width: u32)
        ensures
            width == self.spec_unused_width(),
    {
        match self {
            KeyboardType::QwertyMac => MARGIN_WIDTH + MAC_SPARE_WIDTH,
            KeyboardType::Qwerty87 => MARGIN_WIDTH,
        }
    }
}

/// The rows of `pixels`, each `row_len` bytes long, in reverse order. Where
/// the bytes do not fill the last row, that short row comes first.
pub open spec fn rows_reversed(pixels: Seq<u8>, row_len: int) -> Seq<u8>
    decreases pixels.len(),
{
    if row_len <= 0 || pixels.len() <= row_len {
        pixels
    } else {
        rows_reversed(pixels.skip(row_len), row_len) + pixels.take(row_len)
    }
}

/// Returns the width and height, in pixels, of the part of a window of size
/// `screen_size_px` that shows the keyboard: the window without its margin,
/// without what the layout leaves empty, and without the toolbar.
pub fn keyboard_area(keyboard_type: KeyboardType, screen_size_px: [u32; 2]) -> (area: [u32; 2])
    requires
        screen_size_px[0] >= keyboard_type.unused_width(),
        screen_size_px[1] >= TOOLBAR_HEIGHT,
    ensures
        area[0] == screen_size_px[0] - keyboard_type.unused_width(),
        area[1] == screen_size_px[1] - TOOLBAR_HEIGHT,
{
    let width = match keyboard_type {
        KeyboardType::QwertyMac => screen_size_px[0] - MARGIN_WIDTH - MAC_SPARE_WIDTH,
        KeyboardType::Qwerty87 => screen_size_px[0] - MARGIN_WIDTH,
    };
    let height = screen_size_px[1] - TOOLBAR_HEIGHT;
    [width, height]
}

/// Returns the number of bytes that the pixels of a `width` by `height` area
/// take, or `None` where that number does not fit in a `usize`.
pub fn frame_len(width: u32, height: u32) -> (len: Option<usize>)
    ensures
        len is Some <==> width * height * BYTES_PER_PIXEL <= usize::MAX,
        len is Some ==> len->0 == width * height * BYTES_PER_PIXEL,
{
    match (width as usize).checked_mul(height as usize) {
        Some(pixels) => {
            assert(pixels == width * height);
            pixels.checked_mul(BYTES_PER_PIXEL)
        },
        None => {
            assert(width * height * BYTES_PER_PIXEL >= width * height) by (nonlinear_arith);
            None
        },
    }
}

/// Returns the rows of `pixels`, each `row_len` bytes long, in reverse order:
/// a frame that was read bottom row first comes back top row first.
pub fn flip_rows(pixels: &Vec<u8>, row_len: usize) -> (flipped: Vec<u8>)
    requires
        row_len > 0,
    ensures
        flipped@ == rows_reversed(pixels@, row_len as int),
{
    let len = pixels.len();
    let mut flipped: Vec<u8> = Vec::with_capacity(len);
    let mut end = len;
    assert(pixels@.skip(len as int) =~= Seq::<u8>::empty());
    while end > 0
        invariant
            row_len > 0,
            len == pixels.len(),
            end <= len,
            end == len || end % row_len == 0,
            flipped@ == rows_reversed(pixels@.skip(end as int), row_len as int),
        decreases end,
    {
        let short = if end == len {
            len % row_len
        } else {
            0
        };
        proof {
            if short > 0 {
                lemma_fundamental_div_mod(len as int, row_len as int);
                lemma_mod_multiples_basic(len as int / row_len as int, row_len as int);
                assert(0 <= (len as int / row_len as int) * row_len == row_len * (len as int
                    / row_len as int)) by (nonlinear_arith)
                    requires
                        len >= 0,
                        row_len > 0,
                ;
            } else {
                lemma_mod_is_zero(end as nat, row_len as nat);
                lemma_mod_sub_multiples_vanish(end as int, row_len as int);
                assert(end - row_len == -(row_len as int) + end);
            }
        }
        let start = if short > 0 {
            end - short
        } else {
            end - row_len
        };
        assert(start % row_len == 0);
        proof {
            let rest = pixels@.skip(start as int);
            assert(rest.skip(end - start) =~= pixels@.skip(end as int));
            assert(rest.take(end - start) =~= pixels@.subrange(start as int, end as int));
            if end == len {
                assert(rest.take(end - start) =~= rest);
                assert(rows_reversed(pixels@.skip(end as int), row_len as int).len() == 0);
            }
            assert(rows_reversed(rest, row_len as int) =~= flipped@ + pixels@.subrange(
                start as int,
                end as int,
            ));
        }
        let ghost above = flipped@;
        let mut i = start;
        while i < end
            invariant
                start <= i <= end <= pixels.len(),
                flipped@ == above + pixels@.subrange(start as int, i as int),
            decreases end - i,
        {
            flipped.push(pixels[i]);
            i += 1;
            assert(flipped@ =~= above + pixels@.subrange(start as int, i as int));
        }
        end = start;
    }
    assert(pixels@.skip(0) =~= pixels@);
    flipped
}

/// Reversing the rows keeps the number of bytes.
pub proof fn lemma_rows_reversed_len(pixels: Seq<u8>, row_len: int)
    ensures
        rows_reversed(pixels, row_len).len() == pixels.len(),
    decreases pixels.len(),
{
    if row_len > 0 && pixels.len() > row_len {
        lemma_rows_reversed_len(pixels.skip(row_len), row_len);
    }
}

/// In a frame of `rows` full rows, row `row` of the result is row
/// `rows - 1 - row` of the frame, byte for byte.
pub proof fn lemma_rows_reversed_row(pixels: Seq<u8>, row_len: int, rows: int, row: int, col: int)
    requires
        row_len > 0,
        pixels.len() == rows * row_len,
        0 <= row < rows,
        0 <= col < row_len,
    ensures
        0 <= row * row_len + col < pixels.len(),
        0 <= (rows - 1 - row) * row_len + col < pixels.len(),
        rows_reversed(pixels, row_len)[row * row_len + col] == pixels[(rows - 1 - row) * row_len
            + col],
    decreases rows,
{
    assert(0 <= row * row_len && row * row_len + row_len <= rows * row_len) by (nonlinear_arith)
        requires
            0 <= row < rows,
            row_len > 0,
    ;
    assert(0 <= (rows - 1 - row) * row_len && (rows - 1 - row) * row_len + row_len <= rows
        * row_len) by (nonlinear_arith)
        requires
            0 <= row < rows,
            row_len > 0,
    ;
    if rows > 1 {
        let rest = pixels.skip(row_len);
        assert(rows * row_len == (rows - 1) * row_len + row_len) by (nonlinear_arith);
        assert((rows - 1) * row_len >= row_len) by (nonlinear_arith)
            requires
                rows > 1,
                row_len > 0,
        ;
        lemma_rows_reversed_len(rest, row_len);
        if row < rows - 1 {
            lemma_rows_reversed_row(rest, row_len, rows - 1, row, col);
            assert((rows - 1 - row) * row_len == (rows - 2 - row) * row_len + row_len)
                by (nonlinear_arith);
        } else {
            assert((rows - 1 - row) * row_len == 0) by (nonlinear_arith)
                requires
                    row == rows - 1,
            ;
        }
    } else {
        assert(rows * row_len == row_len && row * row_len == 0) by (nonlinear_arith)
            requires
                rows == 1,
                row == 0,
        ;
    }
}

/// Reversing the rows of a frame of full rows twice gives the frame back.
pub proof fn lemma_rows_reversed_twice(pixels: Seq<u8>, row_len: int, rows: int)
    requires
        row_len > 0,
        rows >= 0,
        pixels.len() == rows * row_len,
    ensures
        rows_reversed(rows_reversed(pixels, row_len), row_len) == pixels,
{
    let once = rows_reversed(pixels, row_len);
    let twice = rows_reversed(once, row_len);
    lemma_rows_reversed_len(pixels, row_len);
    lemma_rows_reversed_len(once, row_len);
    assert forall|i: int| 0 <= i < pixels.len() implies twice[i] == pixels[i] by {
        let row = i / row_len;
        let col = i % row_len;
        lemma_fundamental_div_mod(i, row_len);
        assert(0 <= row < rows) by (nonlinear_arith)
            requires
                0 <= i < rows * row_len,
                row_len > 0,
                i == row_len * row + col,
                0 <= col < row_len,
        ;
        assert(row_len * row == row * row_len) by (nonlinear_arith);
        lemma_rows_reversed_row(once, row_len, rows, row, col);
        lemma_rows_reversed_row(pixels, row_len, rows, rows - 1 - row, col);
    }
    assert(twice =~= pixels);
}

} // verus!
