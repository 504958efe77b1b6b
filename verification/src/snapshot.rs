//! The snapshot writer: converts a captured buffer from the capture source's
//! native layout (reversed channel order, possibly padded rows) into a packed
//! RGBA image with a fixed alpha of 255, and encodes it as a PNG.

use vstd::arithmetic::div_mod::lemma_fundamental_div_mod_converse;
use vstd::prelude::*;

verus! {

/// One byte of the packed RGBA image: position `i` selects the pixel
/// `i / 4` (row `y`, column `x`) and the channel `i % 4`. The first three
/// channels come from the native pixel in reversed order and the fourth is
/// the fixed alpha.
pub open spec fn rgba_byte(buff: Seq<u8>, width: int, stride: int, i: int) -> u8 {
    let p = i / 4;
    let c = i % 4;
    let y = p / width;
    let x = p % width;
    if c == 0 {
        buff[stride * y + 4 * x + 2]
    } else if c == 1 {
        buff[stride * y + 4 * x + 1]
    } else if c == 2 {
        buff[stride * y + 4 * x]
    } else {
        255u8
    }
}

/// The packed RGBA image of a native buffer: `width * height` pixels of four
/// bytes each, rows read at the native stride, channels reordered, alpha
/// fixed at 255.
pub open spec fn rgba_image(buff: Seq<u8>, width: int, height: int, stride: int) -> Seq<u8> {
    Seq::new((4 * width * height) as nat, |i: int| rgba_byte(buff, width, stride, i))
}

/// What `repng::encode` produces for an 8-bit RGBA image of the given
/// dimensions: a deterministic function of the dimensions and pixel bytes.
pub uninterp spec fn png_bytes(width: u32, height: u32, data: Seq<u8>) -> Seq<u8>;

/// Whether `repng::encode` succeeds on an 8-bit RGBA image of the given
/// dimensions. With an in-memory sink every write is infallible, so the
/// outcome too depends on the dimensions and pixel bytes alone.
pub uninterp spec fn png_ok(width: u32, height: u32, data: Seq<u8>) -> bool;

/// Relies on repng::encode: encodes an 8-bit RGBA pixel buffer as a PNG
/// image, deterministically in its arguments; writes to the in-memory sink
/// cannot fail, so both the outcome and the bytes produced are functions of
/// the arguments alone. It panics when the data is not a whole number of
/// rows, which the precondition rules out.
#[verifier::external_body]
pub(crate) fn encode_png(width: u32, height: u32, data: &Vec<u8>) -> (r: Result<Vec<u8>, String>)
    requires
        width >= 1,
        height >= 1,
        data@.len() == 4 * width * height,
    ensures
        r is Ok == png_ok(width, height, data@),
        r matches Ok(b) ==> b@ == png_bytes(width, height, data@),
{
    let mut out: Vec<u8> = Vec::new();
    match repng::encode(&mut out, width, height, data.as_slice()) {
        Ok(()) => Ok(out),
        Err(e) => Err(format!("{}", e)),
    }
}

/// Repacks a native frame buffer into RGBA order: strips the row padding,
/// reverses the first three channels of every pixel, and appends a fixed
/// alpha of 255.
pub fn rgba_from_native(buff: &Vec<u8>, width: usize, height: usize, stride: usize) -> (out: Vec<
    u8,
>)
    requires
        width >= 1,
        height >= 1,
        4 * width <= stride,
        stride * height == buff@.len(),
    ensures
        out@ == rgba_image(buff@, width as int, height as int, stride as int),
        out@.len() == 4 * width * height,
{
    let blen = buff.len();
    let mut out: Vec<u8> = Vec::new();
    let mut y: usize = 0;
    while y < height
        invariant
            y <= height,
            width >= 1,
            height >= 1,
            4 * width <= stride,
            stride * height == buff@.len(),
            blen == buff@.len(),
            out@.len() == 4 * (y * width),
            forall|i: int|
                0 <= i < out@.len() ==> out@[i] == rgba_byte(
                    buff@,
                    width as int,
                    stride as int,
                    i,
                ),
        decreases height - y,
    {
        let mut x: usize = 0;
        while x < width
            invariant
                x <= width,
                y < height,
                width >= 1,
                height >= 1,
                4 * width <= stride,
                stride * height == buff@.len(),
                blen == buff@.len(),
                out@.len() == 4 * (y * width + x),
                forall|i: int|
                    0 <= i < out@.len() ==> out@[i] == rgba_byte(
                        buff@,
                        width as int,
                        stride as int,
                        i,
                    ),
            decreases width - x,
        {
            proof {
                assert(stride * y + 4 * x + 4 <= stride * height) by (nonlinear_arith)
                    requires
                        0 <= y < height,
                        0 <= x < width,
                        4 * width <= stride,
                ;
            }
            let base = stride * y + 4 * x;
            let b0 = buff[base + 2];
            let b1 = buff[base + 1];
            let b2 = buff[base];
            out.push(b0);
            out.push(b1);
            out.push(b2);
            out.push(255);
            proof {
                let p = y as int * width as int + x as int;
                assert(4 * (y * width + x) == 4 * p);
                lemma_fundamental_div_mod_converse(p, width as int, y as int, x as int);
                lemma_fundamental_div_mod_converse(4 * p, 4, p, 0);
                lemma_fundamental_div_mod_converse(4 * p + 1, 4, p, 1);
                lemma_fundamental_div_mod_converse(4 * p + 2, 4, p, 2);
                lemma_fundamental_div_mod_converse(4 * p + 3, 4, p, 3);
            }
            x = x + 1;
        }
        proof {
            assert(4 * (y * width + width) == 4 * ((y + 1) * width)) by (nonlinear_arith);
        }
        y = y + 1;
    }
    proof {
        assert(4 * (height * width) == 4 * width * height) by (nonlinear_arith);
        assert(out@ =~= rgba_image(buff@, width as int, height as int, stride as int));
    }
    out
}

} // verus!
