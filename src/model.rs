//! The mathematical model of an RGBA8 buffer and of the pixel operations.
use vstd::prelude::*;

verus! {

/// Bytes per pixel: one for each of R, G, B and A.
pub const PIXEL_SIZE: usize = 4;

/// Index of the first byte of pixel `(x, y)` in a row-major buffer `width` pixels wide.
pub open spec fn pixel_offset(width: nat, x: nat, y: nat) -> nat {
    (y * width + x) * (PIXEL_SIZE as nat)
}

/// Every in-bounds pixel lies wholly inside the buffer.
pub proof fn lemma_pixel_fits(width: nat, height: nat, x: nat, y: nat)
    requires
        x < width,
        y < height,
    ensures
        pixel_offset(width, x, y) + PIXEL_SIZE <= width * height * PIXEL_SIZE,
        pixel_offset(width, x, y) == y * width * PIXEL_SIZE + x * PIXEL_SIZE,
{
    assert((y * width + x) * 4 + 4 <= width * height * 4) by (nonlinear_arith)
        requires
            x < width,
            y < height,
    ;
    assert((y * width + x) * 4 == y * width * 4 + x * 4) by (nonlinear_arith);
}

/// An RGBA8 image as a value: its size in pixels and its bytes.
pub struct ImageModel {
    pub width: nat,
    pub height: nat,
    pub bytes: Seq<u8>,
}

impl ImageModel {
    /// The buffer holds exactly four bytes for each pixel.
    pub open spec fn wf(self) -> bool {
        self.bytes.len() == self.width * self.height * (PIXEL_SIZE as nat)
    }

    pub open spec fn in_bounds(self, x: int, y: int) -> bool {
        0 <= x < self.width && 0 <= y < self.height
    }

    pub open spec fn offset(self, x: nat, y: nat) -> int {
        pixel_offset(self.width, x, y) as int
    }

    /// The channels `(R, G, B, A)` of pixel `(x, y)`.
    pub open spec fn pixel(self, x: nat, y: nat) -> Seq<u8> {
        self.bytes.subrange(self.offset(x, y), self.offset(x, y) + PIXEL_SIZE)
    }

    /// The image with pixel `(x, y)` replaced by the four channels `p`.
    pub open spec fn with_pixel(self, x: nat, y: nat, p: Seq<u8>) -> ImageModel {
        ImageModel {
            width: self.width,
            height: self.height,
            bytes: self.bytes.subrange(0, self.offset(x, y)) + p + self.bytes.subrange(
                self.offset(x, y) + PIXEL_SIZE,
                self.bytes.len() as int,
            ),
        }
    }

    /// The image with `src` composited over pixel `(x, y)`.
    pub open spec fn with_blended(self, x: nat, y: nat, src: Seq<u8>) -> ImageModel {
        self.with_pixel(x, y, blend_over(self.pixel(x, y), src))
    }
}

/// Replacing one pixel keeps the size, and the bytes differ from the old ones
/// exactly at that pixel's four offsets.
pub proof fn lemma_with_pixel(m: ImageModel, x: nat, y: nat, p: Seq<u8>)
    requires
        m.wf(),
        m.in_bounds(x as int, y as int),
        p.len() == PIXEL_SIZE,
    ensures
        m.with_pixel(x, y, p).wf(),
        m.with_pixel(x, y, p).bytes == m.bytes.update(m.offset(x, y), p[0]).update(
            m.offset(x, y) + 1,
            p[1],
        ).update(m.offset(x, y) + 2, p[2]).update(m.offset(x, y) + 3, p[3]),
        m.with_pixel(x, y, p).pixel(x, y) == p,
{
    lemma_pixel_fits(m.width, m.height, x, y);
    let o = m.offset(x, y);
    let n = m.with_pixel(x, y, p);
    assert(n.bytes =~= m.bytes.update(o, p[0]).update(o + 1, p[1]).update(o + 2, p[2]).update(
        o + 3,
        p[3],
    ));
    assert(n.pixel(x, y) =~= p);
}

/// Replacing one pixel leaves every other pixel as it was.
pub proof fn lemma_with_pixel_other(m: ImageModel, x: nat, y: nat, p: Seq<u8>, x2: nat, y2: nat)
    requires
        m.wf(),
        m.in_bounds(x as int, y as int),
        m.in_bounds(x2 as int, y2 as int),
        p.len() == PIXEL_SIZE,
        x != x2 || y != y2,
    ensures
        m.with_pixel(x, y, p).pixel(x2, y2) == m.pixel(x2, y2),
{
    lemma_with_pixel(m, x, y, p);
    lemma_pixel_fits(m.width, m.height, x, y);
    lemma_pixel_fits(m.width, m.height, x2, y2);
    let w = m.width;
    assert(y * w + x + 1 <= y2 * w + x2 || y2 * w + x2 + 1 <= y * w + x) by (nonlinear_arith)
        requires
            x < w,
            x2 < w,
            x != x2 || y != y2,
    {
        if y < y2 {
            assert(y * w + w <= y2 * w);
        } else if y2 < y {
            assert(y2 * w + w <= y * w);
        }
    }
    assert(m.with_pixel(x, y, p).pixel(x2, y2) =~= m.pixel(x2, y2));
}

/// A `width * height` image whose bytes are all zero.
pub open spec fn zeroed(width: nat, height: nat) -> ImageModel {
    ImageModel {
        width,
        height,
        bytes: Seq::new(width * height * (PIXEL_SIZE as nat), |i: int| 0u8),
    }
}

/// One color channel after source-over compositing with source coverage `a`.
pub open spec fn blend_channel(dst: u8, src: u8, a: u8) -> u8 {
    ((dst * (255 - a) + src * a) / 255) as u8
}

/// The alpha channel after source-over compositing.
pub open spec fn blend_alpha(dst: u8, src: u8) -> u8 {
    (src + dst * (255 - src) / 255) as u8
}

/// Pixel `src` composited over pixel `dst`, weighted by the source alpha.
pub open spec fn blend_over(dst: Seq<u8>, src: Seq<u8>) -> Seq<u8> {
    seq![
        blend_channel(dst[0], src[0], src[3]),
        blend_channel(dst[1], src[1], src[3]),
        blend_channel(dst[2], src[2], src[3]),
        blend_alpha(dst[3], src[3]),
    ]
}

} // verus!
