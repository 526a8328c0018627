//! The pixel type and the offset arithmetic shared by both accessors.
use std::ops::Range;
use vstd::prelude::*;

use crate::model::{lemma_pixel_fits, pixel_offset, PIXEL_SIZE};

verus! {

/// `image::Rgba<u8>`: four channels in the order R, G, B, A, held in a public array.
#[verifier::external_type_specification]
pub struct ExRgba<T>(image::Rgba<T>);

/// Relies on image's `Pixel::from_slice_mut` for `Rgba`: it panics unless the
/// slice holds exactly four channels, and the pixel it returns is those four
/// channels, borrowed in place.
#[verifier::external_body]
pub(crate) fn pixel_in_place(slice: &mut [u8]) -> (r: &mut image::Rgba<u8>)
    requires
        old(slice)@.len() == PIXEL_SIZE,
    ensures
        r.0@ == old(slice)@,
        final(slice)@ == final(r).0@,
{
    <image::Rgba<u8> as image::Pixel>::from_slice_mut(slice)
}

/// The pixel with the given channel bytes.
pub fn rgba(r: u8, g: u8, b: u8, a: u8) -> (p: image::Rgba<u8>)
    ensures
        p.0@ == seq![r, g, b, a],
{
    let p = image::Rgba([r, g, b, a]);
    assert(p.0@ =~= seq![r, g, b, a]);
    p
}

/// The byte range of pixel `(x, y)` in a buffer of `width * height` pixels.
pub fn pixel_range(width: u32, height: u32, x: u32, y: u32) -> (r: Range<usize>)
    requires
        x < width,
        y < height,
        width * height * PIXEL_SIZE <= usize::MAX,
    ensures
        r.start == pixel_offset(width as nat, x as nat, y as nat),
        r.end == r.start + PIXEL_SIZE,
        r.end <= width * height * PIXEL_SIZE,
{
    proof {
        lemma_pixel_fits(width as nat, height as nat, x as nat, y as nat);
    }
    let index: usize = y as usize * width as usize * PIXEL_SIZE + x as usize * PIXEL_SIZE;
    Range { start: index, end: index + PIXEL_SIZE }
}

/// Whether `len` bytes are exactly four for each pixel of a `width * height` image.
pub fn holds_image(len: usize, width: u32, height: u32) -> (r: bool)
    ensures
        r == (len == width * height * PIXEL_SIZE),
{
    let w = width as usize;
    let h = height as usize;
    if w == 0 || h == 0 {
        proof {
            assert(width * height * PIXEL_SIZE == 0) by (nonlinear_arith)
                requires
                    width == 0 || height == 0,
            ;
        }
        return len == 0;
    }
    if len % PIXEL_SIZE != 0 || (len / PIXEL_SIZE) % w != 0 || len / PIXEL_SIZE / w != h {
        proof {
            if len == width * height * PIXEL_SIZE {
                assert(len / 4 == w * h && len % 4 == 0);
                assert((w * h) / (w as int) == h && (w * h) % (w as int) == 0)
                    by (nonlinear_arith)
                    requires
                        w > 0,
                ;
            }
        }
        return false;
    }
    proof {
        let q = len / 4;
        assert(q == (q / w) * w + q % w) by (nonlinear_arith)
            requires
                w > 0,
        ;
        assert(len == w * h * 4) by (nonlinear_arith)
            requires
                q == h * w,
                len == q * 4,
        ;
    }
    true
}

/// The pixel whose channels are the four bytes of `data` from `start` on.
pub fn read_pixel(data: &Vec<u8>, start: usize) -> (p: image::Rgba<u8>)
    requires
        start + PIXEL_SIZE <= data@.len(),
    ensures
        p.0@ == data@.subrange(start as int, start + PIXEL_SIZE),
{
    let n: usize = data.len();
    assert(start + 3 < n);
    let p = image::Rgba([data[start], data[start + 1], data[start + 2], data[start + 3]]);
    assert(p.0@ =~= data@.subrange(start as int, start + PIXEL_SIZE));
    p
}

} // verus!
