//! The plain-text image encoding and the order in which pixels are produced.
//!
//! The text is a header line `P3`, a line `<width> <height>`, a line `255`,
//! then one line per pixel of three decimal integers separated by spaces.
//! Pixels come row by row from the top row of the image (the highest row
//! index) down to row 0, and left to right within a row.
use vstd::prelude::*;

verus! {

/// A quantized pixel color, one byte per channel.
#[derive(Clone, Copy, Debug, PartialEq, Eq, Structural)]
pub struct Rgb8 {
    pub r: u8,
    pub g: u8,
    pub b: u8,
}

/// ASCII codes used by the encoding.
pub const DIGIT_ZERO: u8 = 48;
pub const SPACE: u8 = 32;
pub const NEWLINE: u8 = 10;

/// The decimal digits of `n` in ASCII, without leading zeros.
pub open spec fn decimal(n: nat) -> Seq<u8>
    decreases n,
{
    if n < 10 {
        seq![(DIGIT_ZERO + n) as u8]
    } else {
        decimal(n / 10) + seq![(DIGIT_ZERO + n % 10) as u8]
    }
}

/// The header: `P3`, the dimensions, and the largest channel value `255`.
pub open spec fn header_text(width: nat, height: nat) -> Seq<u8> {
    seq![80u8, 51u8, NEWLINE] + decimal(width) + seq![SPACE] + decimal(height) + seq![
        NEWLINE,
        50u8,
        53u8,
        53u8,
        NEWLINE,
    ]
}

/// The line of one pixel.
pub open spec fn pixel_text(p: Rgb8) -> Seq<u8> {
    decimal(p.r as nat) + seq![SPACE] + decimal(p.g as nat) + seq![SPACE] + decimal(p.b as nat)
        + seq![NEWLINE]
}

/// The lines of a sequence of pixels, in order.
pub open spec fn pixels_text(ps: Seq<Rgb8>) -> Seq<u8>
    decreases ps.len(),
{
    if ps.len() == 0 {
        Seq::empty()
    } else {
        pixels_text(ps.drop_last()) + pixel_text(ps.last())
    }
}

/// The whole encoded image.
pub open spec fn image_text(width: nat, height: nat, ps: Seq<Rgb8>) -> Seq<u8> {
    header_text(width, height) + pixels_text(ps)
}

/// Appends the decimal digits of `n`.
fn push_decimal(out: &mut Vec<u8>, n: u32)
    ensures
        final(out)@ == old(out)@ + decimal(n as nat),
    decreases n,
{
    if n >= 10 {
        push_decimal(out, n / 10);
    }
    let ghost mid = out@;
    out.push(DIGIT_ZERO + (n % 10) as u8);
    proof {
        if n >= 10 {
            assert(out@ =~= old(out)@ + (decimal((n / 10) as nat) + seq![(DIGIT_ZERO + n % 10) as u8]));
        } else {
            assert(out@ =~= old(out)@ + decimal(n as nat));
        }
    }
}

/// Appends the line of one pixel.
fn push_pixel(out: &mut Vec<u8>, p: Rgb8)
    ensures
        final(out)@ == old(out)@ + pixel_text(p),
{
    push_decimal(out, p.r as u32);
    out.push(SPACE);
    push_decimal(out, p.g as u32);
    out.push(SPACE);
    push_decimal(out, p.b as u32);
    out.push(NEWLINE);
    assert(out@ =~= old(out)@ + pixel_text(p));
}

/// The header of an image of the given dimensions.
pub fn ppm_header(width: u32, height: u32) -> (r: Vec<u8>)
    ensures
        r@ == header_text(width as nat, height as nat),
{
    let mut out: Vec<u8> = Vec::new();
    out.push(80u8);
    out.push(51u8);
    out.push(NEWLINE);
    push_decimal(&mut out, width);
    out.push(SPACE);
    push_decimal(&mut out, height);
    out.push(NEWLINE);
    out.push(50u8);
    out.push(53u8);
    out.push(53u8);
    out.push(NEWLINE);
    assert(out@ =~= header_text(width as nat, height as nat));
    out
}

/// The line of one pixel.
pub fn pixel_line(p: Rgb8) -> (r: Vec<u8>)
    ensures
        r@ == pixel_text(p),
{
    let mut out: Vec<u8> = Vec::new();
    push_pixel(&mut out, p);
    assert(out@ =~= pixel_text(p));
    out
}

/// Encodes an image whose pixels are given in production order. There must
/// be exactly `width * height` of them; otherwise nothing is encoded.
pub fn encode_ppm(width: u32, height: u32, pixels: &Vec<Rgb8>) -> (r: Option<Vec<u8>>)
    ensures
        r is Some <==> pixels@.len() == width * height,
        r matches Some(t) ==> t@ == image_text(width as nat, height as nat, pixels@),
{
    assert(width * height <= u32::MAX * u32::MAX) by (nonlinear_arith)
        requires width <= u32::MAX, height <= u32::MAX, width >= 0, height >= 0;
    if pixels.len() as u64 != width as u64 * height as u64 {
        return None;
    }
    let mut out = ppm_header(width, height);
    let n = pixels.len();
    let mut k: usize = 0;
    while k < n
        invariant
            n == pixels@.len(),
            k <= n,
            out@ == image_text(width as nat, height as nat, pixels@.subrange(0, k as int)),
        decreases n - k,
    {
        let ghost done = pixels@.subrange(0, k as int);
        push_pixel(&mut out, pixels[k]);
        proof {
            let next = pixels@.subrange(0, k + 1);
            assert(next.drop_last() =~= done);
            assert(next.last() == pixels@[k as int]);
        }
        k = k + 1;
    }
    assert(pixels@.subrange(0, n as int) =~= pixels@);
    Some(out)
}

/// The column and row of the pixel produced at position `k`.
pub open spec fn scan_cell(width: nat, height: nat, k: nat) -> (nat, nat) {
    ((k % width) as nat, (height - 1 - k / width) as nat)
}

/// The column `i` and row `j` of the pixel produced at position `k`: rows
/// from the top down, columns from the left.
pub fn scan_position(width: u32, height: u32, k: u64) -> (r: (u32, u32))
    requires
        k < width * height,
    ensures
        r.0 as nat == scan_cell(width as nat, height as nat, k as nat).0,
        r.1 as nat == scan_cell(width as nat, height as nat, k as nat).1,
{
    let w = width as u64;
    let row_from_top = k / w;
    proof {
        assert(width > 0 && height > 0) by (nonlinear_arith)
            requires k < width * height, k >= 0, width >= 0, height >= 0;
        assert(row_from_top < height) by (nonlinear_arith)
            requires row_from_top == k / w, k < w * height, w > 0;
    }
    ((k % w) as u32, height - 1 - row_from_top as u32)
}

} // verus!
