//! Exclusive read/write pixel access over a borrowed RGBA8 buffer.
use std::ops::Range;
use vstd::prelude::*;

use crate::model::{
    blend_alpha, blend_channel, blend_over, lemma_with_pixel, ImageModel, PIXEL_SIZE,
};
use crate::pixel::{holds_image, pixel_in_place, pixel_range, read_pixel, rgba};

verus! {

/// An exclusive read/write accessor over a `width * height` RGBA8 buffer
/// that it borrows mutably.
pub struct MutableImage<'a> {
    data: &'a mut Vec<u8>,
    width: u32,
    height: u32,
}

impl<'a> View for MutableImage<'a> {
    type V = ImageModel;

    closed spec fn view(&self) -> ImageModel {
        ImageModel { width: self.width as nat, height: self.height as nat, bytes: (*self.data)@ }
    }
}

impl<'a> MutableImage<'a> {
    /// The borrowed buffer: what it finally holds is what the lender's vector
    /// holds when the borrow ends.
    pub closed spec fn buffer(self) -> &'a mut Vec<u8> {
        self.data
    }

    /// Accesses `data` as a `width * height` image; `None` unless it holds
    /// exactly four bytes for each pixel. Once the accessor is gone, `data`
    /// holds the accessor's bytes as they were last written.
    pub fn new(data: &'a mut Vec<u8>, width: u32, height: u32) -> (r: Option<Self>)
        ensures
            r is Some <==> old(data)@.len() == width * height * PIXEL_SIZE,
            r matches Some(m) ==> m@ == (ImageModel {
                width: width as nat,
                height: height as nat,
                bytes: old(data)@,
            }),
            r matches Some(m) ==> m@.wf(),
            r is None ==> final(data)@ == old(data)@,
            r matches Some(m) ==> *final(data) == *final(m.buffer()),
    {
        if holds_image(data.len(), width, height) {
            Some(MutableImage { data, width, height })
        } else {
            None
        }
    }

    /// The byte range that pixel `(x, y)` occupies.
    pub fn pixel_range(&self, x: u32, y: u32) -> (r: Range<usize>)
        requires
            self@.wf(),
            self@.in_bounds(x as int, y as int),
        ensures
            r.start == self@.offset(x as nat, y as nat),
            r.end == r.start + PIXEL_SIZE,
            r.end <= self@.bytes.len(),
    {
        let n: usize = self.data.len();
        assert(self.width * self.height * PIXEL_SIZE == n);
        pixel_range(self.width, self.height, x, y)
    }

    /// `(width, height)`.
    pub fn dimensions(&self) -> (r: (u32, u32))
        ensures
            r.0 == self@.width && r.1 == self@.height,
    {
        (self.width, self.height)
    }

    /// `(0, 0, width, height)`.
    pub fn bounds(&self) -> (r: (u32, u32, u32, u32))
        ensures
            r.0 == 0 && r.1 == 0 && r.2 == self@.width && r.3 == self@.height,
    {
        (0, 0, self.width, self.height)
    }

    pub fn width(&self) -> (r: u32)
        ensures
            r == self@.width,
    {
        self.width
    }

    pub fn height(&self) -> (r: u32)
        ensures
            r == self@.height,
    {
        self.height
    }

    /// The channels of pixel `(x, y)`.
    pub fn get_pixel(&self, x: u32, y: u32) -> (p: image::Rgba<u8>)
        requires
            self@.wf(),
            self@.in_bounds(x as int, y as int),
        ensures
            p.0@ == self@.pixel(x as nat, y as nat),
    {
        let r = self.pixel_range(x, y);
        read_pixel(self.data, r.start)
    }

    /// Pixel `(x, y)` borrowed in place: what is written through it becomes
    /// that pixel of the buffer.
    pub fn get_pixel_mut(&mut self, x: u32, y: u32) -> (p: &mut image::Rgba<u8>)
        requires
            old(self)@.wf(),
            old(self)@.in_bounds(x as int, y as int),
        ensures
            p.0@ == old(self)@.pixel(x as nat, y as nat),
            final(self)@.width == old(self)@.width,
            final(self)@.height == old(self)@.height,
            final(self)@.bytes == old(self)@.bytes.subrange(0, old(self)@.offset(x as nat, y as nat))
                + (final(p).0@ + old(self)@.bytes.subrange(
                old(self)@.offset(x as nat, y as nat) + PIXEL_SIZE,
                old(self)@.bytes.len() as int,
            )),
            final(self)@ == old(self)@.with_pixel(x as nat, y as nat, final(p).0@),
            final(self)@.wf(),
            *final(final(self).buffer()) == *final(old(self).buffer()),
    {
        let r = self.pixel_range(x, y);
        let all: &mut [u8] = self.data.as_mut_slice();
        let (head, rest) = all.split_at_mut(r.start);
        let (px, tail) = rest.split_at_mut(PIXEL_SIZE);
        let p = pixel_in_place(px);
        proof {
            assert(final(head)@ == head@);
            assert(final(tail)@ == tail@);
            lemma_with_pixel(old(self)@, x as nat, y as nat, final(p).0@);
            let m = old(self)@;
            let o = m.offset(x as nat, y as nat);
            assert(m.bytes.subrange(0, o) + (final(p).0@ + m.bytes.subrange(
                o + PIXEL_SIZE,
                m.bytes.len() as int,
            )) =~= m.with_pixel(x as nat, y as nat, final(p).0@).bytes);
        }
        p
    }

    /// Overwrites the four channel bytes of pixel `(x, y)` with `pixel`.
    pub fn put_pixel(&mut self, x: u32, y: u32, pixel: image::Rgba<u8>)
        requires
            old(self)@.wf(),
            old(self)@.in_bounds(x as int, y as int),
        ensures
            final(self)@ == old(self)@.with_pixel(x as nat, y as nat, pixel.0@),
            final(self)@.wf(),
            *final(final(self).buffer()) == *final(old(self).buffer()),
    {
        let p = self.get_pixel_mut(x, y);
        *p = pixel;
    }

    /// Composites `pixel` over pixel `(x, y)`: each color channel becomes
    /// `(dst * (255 - a) + src * a) / 255`, with `a` the source alpha and
    /// truncating division, and the alpha becomes `a + dst_a * (255 - a) / 255`.
    pub fn blend_pixel(&mut self, x: u32, y: u32, pixel: image::Rgba<u8>)
        requires
            old(self)@.wf(),
            old(self)@.in_bounds(x as int, y as int),
        ensures
            final(self)@ == old(self)@.with_blended(x as nat, y as nat, pixel.0@),
            final(self)@.wf(),
            *final(final(self).buffer()) == *final(old(self).buffer()),
    {
        let p = self.get_pixel_mut(x, y);
        let dst = *p;
        let a = pixel.0[3];
        let blended = rgba(
            mix_channel(dst.0[0], pixel.0[0], a),
            mix_channel(dst.0[1], pixel.0[1], a),
            mix_channel(dst.0[2], pixel.0[2], a),
            mix_alpha(dst.0[3], a),
        );
        assert(blended.0@ =~= blend_over(dst.0@, pixel.0@));
        *p = blended;
    }
}

/// One color channel composited with source coverage `a`.
fn mix_channel(dst: u8, src: u8, a: u8) -> (r: u8)
    ensures
        r == blend_channel(dst, src, a),
{
    assert(dst * (255 - a) + src * a <= 255 * 255) by (nonlinear_arith)
        requires
            dst <= 255,
            src <= 255,
            a <= 255,
    ;
    ((dst as u16 * (255 - a) as u16 + src as u16 * a as u16) / 255) as u8
}

/// The alpha channel composited with source alpha `a`.
fn mix_alpha(dst: u8, a: u8) -> (r: u8)
    ensures
        r == blend_alpha(dst, a),
{
    assert(dst * (255 - a) <= 255 * (255 - a)) by (nonlinear_arith)
        requires
            dst <= 255,
            a <= 255,
    ;
    assert(dst * (255 - a) / 255 <= 255 - a) by (nonlinear_arith)
        requires
            dst * (255 - a) <= 255 * (255 - a),
            a <= 255,
    ;
    (a as u16 + dst as u16 * (255 - a) as u16 / 255) as u8
}

} // verus!
