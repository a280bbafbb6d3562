//! The canvas as display bytes: four per pixel, red, green, blue and alpha.

use crate::canvas::Canvas;
use crate::vec3::Color;
use vstd::prelude::*;

verus! {

/// The alpha of a pixel that hides what lies behind it.
pub const OPAQUE: u8 = 0xFF;

/// The four bytes of one pixel.
pub open spec fn pixel(color: Color) -> Seq<u8> {
    seq![color.x, color.y, color.z, OPAQUE]
}

/// The bytes of a sequence of pixels, one pixel after the other.
pub open spec fn pixels(colors: Seq<Color>) -> Seq<u8>
    decreases colors.len(),
{
    if colors.len() == 0 {
        Seq::empty()
    } else {
        pixels(colors.drop_last()) + pixel(colors.last())
    }
}

/// Every pixel takes four bytes.
pub proof fn lemma_pixels_len(colors: Seq<Color>)
    ensures
        pixels(colors).len() == 4 * colors.len(),
    decreases colors.len(),
{
    if colors.len() > 0 {
        lemma_pixels_len(colors.drop_last());
    }
}

/// The pixel of the `k`-th colour takes the four bytes from `4 * k` on: its
/// red, its green, its blue, and the opaque alpha.
pub proof fn lemma_pixel_bytes(colors: Seq<Color>, k: int)
    requires
        0 <= k < colors.len(),
    ensures
        4 * k + 3 < pixels(colors).len(),
        pixels(colors)[4 * k] == colors[k].x,
        pixels(colors)[4 * k + 1] == colors[k].y,
        pixels(colors)[4 * k + 2] == colors[k].z,
        pixels(colors)[4 * k + 3] == OPAQUE,
    decreases colors.len(),
{
    lemma_pixels_len(colors.drop_last());
    if k < colors.len() - 1 {
        lemma_pixel_bytes(colors.drop_last(), k);
    }
}

/// The cells of the first `i` rows are no more than those of the first `k`,
/// where `i` is at most `k`.
proof fn lemma_rows_before<A>(rows: Seq<Seq<A>>, i: int, k: int)
    requires
        0 <= i <= k <= rows.len(),
    ensures
        rows.take(i).flatten().len() <= rows.take(k).flatten().len(),
    decreases k - i,
{
    if i < k {
        lemma_rows_before(rows, i, k - 1);
        assert(rows.take(k) == rows.take(k - 1).push(rows[k - 1]));
        rows.take(k - 1).lemma_flatten_push(rows[k - 1]);
    }
}

/// Writes the cells of the canvas to the front of `frame`, in row-major
/// order and four bytes each; the bytes behind them stay as they were.
pub fn render_canvas(canvas: &Canvas<u8>, frame: &mut [u8])
    requires
        old(frame)@.len() >= 4 * canvas.cells().len(),
    ensures
        final(frame)@ == pixels(canvas.cells()) + old(frame)@.skip(4 * canvas.cells().len() as int),
{
    let ghost rows = canvas@;
    let mut i: usize = 0;
    let mut row_idx: usize = 0;
    while row_idx < canvas.buffer.len()
        invariant
            rows == canvas@,
            rows.len() == canvas.buffer@.len(),
            row_idx <= rows.len(),
            i == rows.take(row_idx as int).flatten().len(),
            old(frame)@.len() >= 4 * rows.flatten().len(),
            frame@.len() == old(frame)@.len(),
            frame@ == pixels(rows.take(row_idx as int).flatten()) + old(frame)@.skip(4 * i as int),
        decreases rows.len() - row_idx,
    {
        let row = &canvas.buffer[row_idx];
        let ghost done = rows.take(row_idx as int).flatten();
        proof {
            assert(rows.take(row_idx + 1) == rows.take(row_idx as int).push(row@));
            rows.take(row_idx as int).lemma_flatten_push(row@);
            lemma_rows_before(rows, row_idx + 1, rows.len() as int);
            assert(rows.take(rows.len() as int) == rows);
        }
        let mut col_idx: usize = 0;
        while col_idx < row.len()
            invariant
                col_idx <= row@.len(),
                i == done.len() + col_idx,
                done.len() + row@.len() <= rows.flatten().len(),
                old(frame)@.len() >= 4 * rows.flatten().len(),
                frame@.len() == old(frame)@.len(),
                frame@ == pixels(done + row@.take(col_idx as int)) + old(frame)@.skip(4 * i as int),
            decreases row@.len() - col_idx,
        {
            let color = &row[col_idx];
            assert(4 * (i + 1) <= frame.len());
            let buf_idx = 4 * i;
            frame[buf_idx] = color.x;
            frame[buf_idx + 1] = color.y;
            frame[buf_idx + 2] = color.z;
            frame[buf_idx + 3] = OPAQUE;
            proof {
                let drawn = done + row@.take(col_idx as int);
                let next = done + row@.take(col_idx + 1);
                assert(next.drop_last() == drawn);
            }
            i += 1;
            col_idx += 1;
        }
        assert(row@.take(row@.len() as int) == row@);
        row_idx += 1;
    }
    assert(rows.take(rows.len() as int) == rows);
}

} // verus!
