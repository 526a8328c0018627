//! Read-only pixel access over a borrowed RGBA8 buffer.
use std::ops::Range;
use vstd::prelude::*;

use crate::model::{ImageModel, PIXEL_SIZE};
use crate::pixel::{holds_image, pixel_range, read_pixel};

verus! {

/// A read-only view of a `width * height` RGBA8 buffer that it borrows.
pub struct MutableImageView<'a> {
    data: &'a Vec<u8>,
    width: u32,
    height: u32,
}

impl<'a> View for MutableImageView<'a> {
    type V = ImageModel;

    closed spec fn view(&self) -> ImageModel {
        ImageModel { width: self.width as nat, height: self.height as nat, bytes: self.data@ }
    }
}

impl<'a> MutableImageView<'a> {
    /// Views `data` as a `width * height` image; `None` unless it holds exactly
    /// four bytes for each pixel.
    pub fn new(data: &'a Vec<u8>, width: u32, height: u32) -> (r: Option<Self>)
        ensures
            r is Some <==> data@.len() == width * height * PIXEL_SIZE,
            r matches Some(v) ==> v@ == (ImageModel {
                width: width as nat,
                height: height as nat,
                bytes: data@,
            }),
            r matches Some(v) ==> v@.wf(),
    {
        if holds_image(data.len(), width, height) {
            Some(MutableImageView { data, width, height })
        } else {
            None
        }
    }

    /// The byte range that pixel `(x, y)` occupies.
    pub fn pixel_range(&self, x: u32, y: u32) -> (r: Range<usize>)
        requires
            self@.wf(),
            self@.in_bounds(x as int, y as int),
        ensures
            r.start == self@.offset(x as nat, y as nat),
            r.end == r.start + PIXEL_SIZE,
            r.end <= self@.bytes.len(),
    {
        let n: usize = self.data.len();
        assert(self.width * self.height * PIXEL_SIZE == n);
        pixel_range(self.width, self.height, x, y)
    }

    /// `(width, height)`.
    pub fn dimensions(&self) -> (r: (u32, u32))
        ensures
            r.0 == self@.width && r.1 == self@.height,
    {
        (self.width, self.height)
    }

    /// `(0, 0, width, height)`.
    pub fn bounds(&self) -> (r: (u32, u32, u32, u32))
        ensures
            r.0 == 0 && r.1 == 0 && r.2 == self@.width && r.3 == self@.height,
    {
        (0, 0, self.width, self.height)
    }

    pub fn width(&self) -> (r: u32)
        ensures
            r == self@.width,
    {
        self.width
    }

    pub fn height(&self) -> (r: u32)
        ensures
            r == self@.height,
    {
        self.height
    }

    /// The channels of pixel `(x, y)`.
    pub fn get_pixel(&self, x: u32, y: u32) -> (p: image::Rgba<u8>)
        requires
            self@.wf(),
            self@.in_bounds(x as int, y as int),
        ensures
            p.0@ == self@.pixel(x as nat, y as nat),
    {
        let r = self.pixel_range(x, y);
        read_pixel(self.data, r.start)
    }
}

} // verus!
