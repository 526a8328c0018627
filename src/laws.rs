//! Laws of the pixel operations, stated over the image model that the
//! accessors' contracts use.
use vstd::prelude::*;

use crate::model::{
    blend_alpha, blend_channel, lemma_pixel_fits, lemma_with_pixel, zeroed, ImageModel,
    PIXEL_SIZE,
};

verus! {

/// Reading a pixel right after writing it gives back exactly what was written.
pub proof fn law_put_then_get(m: ImageModel, x: nat, y: nat, p: Seq<u8>)
    requires
        m.wf(),
        m.in_bounds(x as int, y as int),
        p.len() == PIXEL_SIZE,
    ensures
        m.with_pixel(x, y, p).pixel(x, y) == p,
{
    lemma_with_pixel(m, x, y, p);
}

/// Every in-bounds pixel of an all-zero buffer is `(0, 0, 0, 0)`.
pub proof fn law_zeroed_pixel(width: nat, height: nat, x: nat, y: nat)
    requires
        x < width,
        y < height,
    ensures
        zeroed(width, height).wf(),
        zeroed(width, height).pixel(x, y) == seq![0u8, 0u8, 0u8, 0u8],
{
    lemma_pixel_fits(width, height, x, y);
    assert(zeroed(width, height).pixel(x, y) =~= seq![0u8, 0u8, 0u8, 0u8]);
}

/// Blending a fully opaque pixel writes its color channels, and leaves the
/// pixel fully opaque.
pub proof fn law_blend_opaque(m: ImageModel, x: nat, y: nat, src: Seq<u8>)
    requires
        m.wf(),
        m.in_bounds(x as int, y as int),
        src.len() == PIXEL_SIZE,
        src[3] == 255,
    ensures
        m.with_blended(x, y, src).pixel(x, y) == seq![src[0], src[1], src[2], 255u8],
{
    let dst = m.pixel(x, y);
    lemma_blend_channel_bounds(dst[0], src[0], 255);
    lemma_blend_channel_bounds(dst[1], src[1], 255);
    lemma_blend_channel_bounds(dst[2], src[2], 255);
    assert(blend_alpha(dst[3], 255) == 255);
    lemma_with_pixel(m, x, y, crate::model::blend_over(dst, src));
    assert(crate::model::blend_over(dst, src) =~= seq![src[0], src[1], src[2], 255u8]);
}

/// Blending a fully transparent pixel changes nothing.
pub proof fn law_blend_transparent(m: ImageModel, x: nat, y: nat, src: Seq<u8>)
    requires
        m.wf(),
        m.in_bounds(x as int, y as int),
        src.len() == PIXEL_SIZE,
        src[3] == 0,
    ensures
        m.with_blended(x, y, src) == m,
{
    let dst = m.pixel(x, y);
    lemma_pixel_fits(m.width, m.height, x, y);
    lemma_blend_channel_bounds(dst[0], src[0], 0);
    lemma_blend_channel_bounds(dst[1], src[1], 0);
    lemma_blend_channel_bounds(dst[2], src[2], 0);
    assert(blend_alpha(dst[3], 0) == dst[3]);
    assert(crate::model::blend_over(dst, src) =~= dst);
    assert(m.with_blended(x, y, src).bytes =~= m.bytes);
}

/// Writing the same pixel again leaves the buffer as the first write left it.
pub proof fn law_put_idempotent(m: ImageModel, x: nat, y: nat, p: Seq<u8>)
    requires
        m.wf(),
        m.in_bounds(x as int, y as int),
        p.len() == PIXEL_SIZE,
    ensures
        m.with_pixel(x, y, p).with_pixel(x, y, p) == m.with_pixel(x, y, p),
{
    let n = m.with_pixel(x, y, p);
    lemma_with_pixel(m, x, y, p);
    lemma_with_pixel(n, x, y, p);
    lemma_pixel_fits(m.width, m.height, x, y);
    let o = m.offset(x, y);
    assert(n.bytes[o] == n.pixel(x, y)[0]);
    assert(n.bytes[o + 1] == n.pixel(x, y)[1]);
    assert(n.bytes[o + 2] == n.pixel(x, y)[2]);
    assert(n.bytes[o + 3] == n.pixel(x, y)[3]);
    assert(n.with_pixel(x, y, p).bytes =~= n.bytes);
}

/// Full coverage takes the source channel; no coverage keeps the destination.
proof fn lemma_blend_channel_bounds(dst: u8, src: u8, a: u8)
    requires
        a == 0 || a == 255,
    ensures
        a == 255 ==> blend_channel(dst, src, a) == src,
        a == 0 ==> blend_channel(dst, src, a) == dst,
{
}

} // verus!
