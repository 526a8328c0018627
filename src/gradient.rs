//! The animated gradient: a fill that sets every pixel from its position and
//! a blue level, and the triangle wave that moves the blue level frame by frame.
use vstd::prelude::*;

use crate::model::{lemma_with_pixel, lemma_with_pixel_other, ImageModel};
use crate::mutable::MutableImage;
use crate::pixel::rgba;

verus! {

/// The gradient's pixel at `(x, y)`: red grows left to right, green top to
/// bottom, blue is `blue`, and the pixel is opaque.
pub open spec fn gradient_pixel(width: nat, height: nat, x: nat, y: nat, blue: u8) -> Seq<u8> {
    seq![(x * 255 / width) as u8, (y * 255 / height) as u8, blue, 255u8]
}

/// Every pixel of `m` is the gradient's pixel for `blue`.
pub open spec fn is_gradient(m: ImageModel, blue: u8) -> bool {
    forall|x: nat, y: nat|
        x < m.width && y < m.height ==> #[trigger] m.pixel(x, y) == gradient_pixel(
            m.width,
            m.height,
            x,
            y,
            blue,
        )
}

/// `x * 255 / n`, for `x < n`, as a channel value.
fn ramp(x: u32, n: u32) -> (r: u8)
    requires
        x < n,
    ensures
        r as int == (x as int) * 255 / (n as int),
{
    assert((x as int) * 255 / (n as int) < 255) by (nonlinear_arith)
        requires
            x < n,
    ;
    (x as u64 * 255 / n as u64) as u8
}

/// Overwrites every pixel of `image` with the gradient for `blue`, column by
/// column.
pub fn fill_gradient(image: &mut MutableImage, blue: u8)
    requires
        old(image)@.wf(),
    ensures
        final(image)@.wf(),
        final(image)@.width == old(image)@.width,
        final(image)@.height == old(image)@.height,
        is_gradient(final(image)@, blue),
        *final(final(image).buffer()) == *final(old(image).buffer()),
{
    let (left, top, right, bottom) = image.bounds();
    let width = image.width();
    let height = image.height();
    let mut x: u32 = left;
    while x < right
        invariant
            image@.wf(),
            image@.width == width,
            image@.height == height,
            left == 0 && top == 0 && right == width && bottom == height,
            x <= width,
            forall|i: nat, j: nat|
                i < x && j < height ==> #[trigger] image@.pixel(i, j) == gradient_pixel(
                    width as nat,
                    height as nat,
                    i,
                    j,
                    blue,
                ),
            *final(image.buffer()) == *final(old(image).buffer()),
        decreases right - x,
    {
        let red = ramp(x, width);
        let mut y: u32 = top;
        while y < bottom
            invariant
                image@.wf(),
                image@.width == width,
                image@.height == height,
                left == 0 && top == 0 && right == width && bottom == height,
                x < width,
                y <= height,
                red as int == (x as int) * 255 / (width as int),
                forall|i: nat, j: nat|
                    (i < x && j < height) || (i == x && j < y) ==> #[trigger] image@.pixel(i, j)
                        == gradient_pixel(width as nat, height as nat, i, j, blue),
                *final(image.buffer()) == *final(old(image).buffer()),
            decreases bottom - y,
        {
            let green = ramp(y, height);
            let p = rgba(red, green, blue, 255);
            let ghost before = image@;
            image.put_pixel(x, y, p);
            proof {
                lemma_with_pixel(before, x as nat, y as nat, p.0@);
                assert(p.0@ =~= gradient_pixel(width as nat, height as nat, x as nat, y as nat, blue));
                assert forall|i: nat, j: nat|
                    (i < x && j < height) || (i == x && j < y + 1) implies #[trigger] image@.pixel(
                    i,
                    j,
                ) == gradient_pixel(width as nat, height as nat, i, j, blue) by {
                    if i != x || j != y {
                        lemma_with_pixel_other(before, x as nat, y as nat, p.0@, i, j);
                    }
                }
            }
            y = y + 1;
        }
        x = x + 1;
    }
}

/// The blue level of the animation: it climbs by three each frame up to 255,
/// then falls by one each frame down to 0, and so on.
#[derive(Clone, Copy, Debug, PartialEq, Eq)]
pub struct BlueWave {
    pub blue: i16,
    pub decreasing: bool,
}

/// The wave's `(blue, decreasing)` one frame after `(blue, decreasing)`.
pub open spec fn wave_step(blue: int, decreasing: bool) -> (int, bool) {
    let b = if decreasing {
        blue - 1
    } else {
        blue + 3
    };
    if b > 255 {
        (255, true)
    } else if b < 0 {
        (0, false)
    } else {
        (b, decreasing)
    }
}

impl BlueWave {
    /// The wave at its first frame: blue 0, rising.
    pub fn new() -> (r: BlueWave)
        ensures
            r.blue == 0 && !r.decreasing,
    {
        BlueWave { blue: 0, decreasing: false }
    }

    /// Moves the wave on by one frame.
    pub fn step(&mut self)
        requires
            old(self).decreasing ==> old(self).blue > i16::MIN,
            !old(self).decreasing ==> old(self).blue <= i16::MAX - 3,
        ensures
            (final(self).blue as int, final(self).decreasing) == wave_step(
                old(self).blue as int,
                old(self).decreasing,
            ),
            0 <= final(self).blue <= 255,
    {
        if self.decreasing {
            self.blue = self.blue - 1;
        } else {
            self.blue = self.blue + 3;
        }
        if self.blue > 255 {
            self.blue = 255;
            self.decreasing = true;
        } else if self.blue < 0 {
            self.blue = 0;
            self.decreasing = false;
        }
    }

    /// The blue channel value for this frame.
    pub fn channel(&self) -> (r: u8)
        ensures
            r == self.blue as u8,
            0 <= self.blue <= 255 ==> r == self.blue,
    {
        self.blue as u8
    }
}

} // verus!
