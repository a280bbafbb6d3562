//! The plain-text PPM image of a canvas of colours.

use crate::canvas::Canvas;
use crate::vec3::Color;
use vstd::prelude::*;

verus! {

/// The ASCII code of the letter `P`.
pub const LETTER_P: u8 = 80;

/// The ASCII code of the digit `0`; the other digits follow it in order.
pub const DIGIT_ZERO: u8 = 48;

/// The ASCII code of the space.
pub const SPACE: u8 = 32;

/// The ASCII code of the line feed.
pub const LINE_FEED: u8 = 10;

/// The number of the plain-text format, which follows the letter `P`.
pub const FORMAT: usize = 3;

/// The largest value of a colour component.
pub const MAX_VALUE: usize = 255;

/// The decimal numeral of `n` in ASCII digits, without leading zeros.
pub open spec fn decimal(n: nat) -> Seq<u8>
    decreases n,
{
    if n < 10 {
        seq![(DIGIT_ZERO + n) as u8]
    } else {
        decimal(n / 10).push((DIGIT_ZERO + n % 10) as u8)
    }
}

/// The number that a sequence of ASCII digits denotes in base ten.
pub open spec fn denoted(digits: Seq<u8>) -> nat
    decreases digits.len(),
{
    if digits.len() == 0 {
        0
    } else {
        (denoted(digits.drop_last()) * 10 + (digits.last() - DIGIT_ZERO)) as nat
    }
}

/// The numeral of `n` is made of digits, at least one, denotes `n`, and
/// begins with the digit 0 only where `n` is 0.
pub proof fn lemma_decimal(n: nat)
    ensures
        decimal(n).len() >= 1,
        forall|i: int|
            0 <= i < decimal(n).len() ==> DIGIT_ZERO <= #[trigger] decimal(n)[i] <= DIGIT_ZERO + 9,
        denoted(decimal(n)) == n,
        decimal(n)[0] == DIGIT_ZERO <==> n == 0,
    decreases n,
{
    if n < 10 {
        assert(denoted(decimal(n).drop_last()) == 0);
    } else {
        lemma_decimal(n / 10);
        assert(decimal(n).drop_last() == decimal(n / 10));
    }
}

/// The header: the letter `P` with the number of the format, the width and
/// the height on the next line, and the largest value of a colour component
/// on the third.
pub open spec fn header(width: nat, height: nat) -> Seq<u8> {
    seq![LETTER_P] + decimal(FORMAT as nat) + seq![LINE_FEED] + decimal(width) + seq![SPACE]
        + decimal(height) + seq![LINE_FEED] + decimal(MAX_VALUE as nat) + seq![LINE_FEED]
}

/// The line of one pixel: red, green and blue, separated by single spaces.
pub open spec fn pixel_line(color: Color) -> Seq<u8> {
    decimal(color.x as nat) + seq![SPACE] + decimal(color.y as nat) + seq![SPACE] + decimal(
        color.z as nat,
    ) + seq![LINE_FEED]
}

/// The lines of a sequence of pixels, one after the other.
pub open spec fn pixel_lines(colors: Seq<Color>) -> Seq<u8>
    decreases colors.len(),
{
    if colors.len() == 0 {
        Seq::empty()
    } else {
        pixel_lines(colors.drop_last()) + pixel_line(colors.last())
    }
}

/// The whole image: the header with the canvas's width and height, then
/// the cells of its grid in row-major order, one line each.
pub open spec fn image(canvas: &Canvas<u8>) -> Seq<u8> {
    header(canvas.width as nat, canvas.height as nat) + pixel_lines(canvas.cells())
}

/// Appends the decimal numeral of `n` to `out`.
pub fn push_decimal(out: &mut Vec<u8>, n: usize)
    ensures
        final(out)@ == old(out)@ + decimal(n as nat),
    decreases n,
{
    if n >= 10 {
        push_decimal(out, n / 10);
    }
    out.push(DIGIT_ZERO + (n % 10) as u8);
}

/// Appends the line of one pixel to `out`.
pub fn push_pixel_line(out: &mut Vec<u8>, color: &Color)
    ensures
        final(out)@ == old(out)@ + pixel_line(*color),
{
    push_decimal(out, color.x as usize);
    out.push(SPACE);
    push_decimal(out, color.y as usize);
    out.push(SPACE);
    push_decimal(out, color.z as usize);
    out.push(LINE_FEED);
}

/// The bytes of the canvas's PPM image.
pub fn render(canvas: &Canvas<u8>) -> (bytes: Vec<u8>)
    ensures
        bytes@ == image(canvas),
{
    let mut bytes: Vec<u8> = Vec::new();
    bytes.push(LETTER_P);
    push_decimal(&mut bytes, FORMAT);
    bytes.push(LINE_FEED);
    push_decimal(&mut bytes, canvas.width);
    bytes.push(SPACE);
    push_decimal(&mut bytes, canvas.height);
    bytes.push(LINE_FEED);
    push_decimal(&mut bytes, MAX_VALUE);
    bytes.push(LINE_FEED);
    let ghost head = bytes@;
    let mut row_idx: usize = 0;
    while row_idx < canvas.buffer.len()
        invariant
            row_idx <= canvas@.len(),
            canvas@.len() == canvas.buffer@.len(),
            bytes@ == head + pixel_lines(canvas@.take(row_idx as int).flatten()),
        decreases canvas@.len() - row_idx,
    {
        let row = &canvas.buffer[row_idx];
        let ghost done = canvas@.take(row_idx as int).flatten();
        let mut col_idx: usize = 0;
        while col_idx < row.len()
            invariant
                col_idx <= row@.len(),
                bytes@ == head + pixel_lines(done + row@.take(col_idx as int)),
            decreases row@.len() - col_idx,
        {
            push_pixel_line(&mut bytes, &row[col_idx]);
            proof {
                let before = done + row@.take(col_idx as int);
                let after = done + row@.take(col_idx + 1);
                assert(after.drop_last() == before);
            }
            col_idx += 1;
        }
        proof {
            assert(row@.take(row@.len() as int) == row@);
            assert(canvas@.take(row_idx + 1) == canvas@.take(row_idx as int).push(row@));
            canvas@.take(row_idx as int).lemma_flatten_push(row@);
        }
        row_idx += 1;
    }
    assert(canvas@.take(canvas@.len() as int) == canvas@);
    bytes
}

} // verus!
