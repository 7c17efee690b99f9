use vstd::prelude::*;

verus! {

/// One RGBA pixel, four 8-bit channels.
#[derive(Clone, Copy, Debug, PartialEq, Eq, Structural)]
pub struct Rgba {
    pub r: u8,
    pub g: u8,
    pub b: u8,
    pub a: u8,
}

/// A dense row-major RGBA image: `width * height` pixels, four bytes each.
pub struct PixelBuffer {
    pub width: u32,
    pub height: u32,
    pub data: Vec<u8>,
}

/// Row-major byte positions of a pixel stay inside the buffer.
pub proof fn lemma_rm_index_bound(w: int, h: int, x: int, y: int)
    by (nonlinear_arith)
    requires
        0 <= x < w,
        0 <= y < h,
    ensures
        0 <= y * w + x,
        y * w + x + 1 <= w * h,
{
}

/// Row-major positions grow along the pixel order.
pub proof fn lemma_rm_index_lt(w: int, x1: int, y1: int, x2: int, y2: int)
    by (nonlinear_arith)
    requires
        0 <= x1 < w,
        0 <= x2 < w,
        0 <= y1,
        0 <= y2,
        y1 < y2 || (y1 == y2 && x1 < x2),
    ensures
        y1 * w + x1 < y2 * w + x2,
{
}

/// Distinct pixel coordinates occupy distinct row-major positions.
pub proof fn lemma_rm_index_injective(w: int, x1: int, y1: int, x2: int, y2: int)
    by (nonlinear_arith)
    requires
        0 <= x1 < w,
        0 <= x2 < w,
        y1 != y2 || x1 != x2,
        0 <= y1,
        0 <= y2,
    ensures
        y1 * w + x1 != y2 * w + x2,
{
}

impl PixelBuffer {
    /// The buffer holds exactly four bytes for every pixel.
    pub open spec fn wf(self) -> bool {
        self.data@.len() == 4 * ((self.width as int) * (self.height as int))
    }

    pub open spec fn in_bounds(self, x: int, y: int) -> bool {
        0 <= x < self.width && 0 <= y < self.height
    }

    /// The pixel stored at `(x, y)`, read from the row-major byte layout.
    pub open spec fn pixel_of(self, x: int, y: int) -> Rgba {
        let i = 4 * (y * (self.width as int) + x);
        Rgba { r: self.data@[i], g: self.data@[i + 1], b: self.data@[i + 2], a: self.data@[i + 3] }
    }

    /// Two buffers hold the same image.
    pub open spec fn same_image(self, other: PixelBuffer) -> bool {
        self.width == other.width && self.height == other.height && self.data@ == other.data@
    }

    /// Byte offset of the pixel at `(x, y)`.
    fn byte_index(&self, x: u32, y: u32) -> (i: usize)
        requires
            self.wf(),
            x < self.width,
            y < self.height,
        ensures
            i == 4 * ((y as int) * (self.width as int) + (x as int)),
            i + 4 <= self.data@.len(),
    {
        let _n: usize = self.data.len();
        proof {
            lemma_rm_index_bound(self.width as int, self.height as int, x as int, y as int);
        }
        4 * ((y as usize) * (self.width as usize) + (x as usize))
    }

    /// Read the pixel at `(x, y)`.
    pub fn get_pixel(&self, x: u32, y: u32) -> (p: Rgba)
        requires
            self.wf(),
            x < self.width,
            y < self.height,
        ensures
            p == self.pixel_of(x as int, y as int),
    {
        let i = self.byte_index(x, y);
        Rgba { r: self.data[i], g: self.data[i + 1], b: self.data[i + 2], a: self.data[i + 3] }
    }

    /// Overwrite the pixel at `(x, y)`, leaving every other pixel as it was.
    pub fn put_pixel(&mut self, x: u32, y: u32, p: Rgba)
        requires
            old(self).wf(),
            x < old(self).width,
            y < old(self).height,
        ensures
            final(self).wf(),
            final(self).width == old(self).width,
            final(self).height == old(self).height,
            final(self).pixel_of(x as int, y as int) == p,
            forall|xx: int, yy: int|
                old(self).in_bounds(xx, yy) && !(xx == x && yy == y) ==> final(self).pixel_of(
                    xx,
                    yy,
                ) == old(self).pixel_of(xx, yy),
    {
        let i = self.byte_index(x, y);
        self.data.set(i, p.r);
        self.data.set(i + 1, p.g);
        self.data.set(i + 2, p.b);
        self.data.set(i + 3, p.a);
        proof {
            assert forall|xx: int, yy: int|
                old(self).in_bounds(xx, yy) && !(xx == x && yy == y) implies final(self).pixel_of(
                xx,
                yy,
            ) == old(self).pixel_of(xx, yy) by {
                lemma_rm_index_bound(self.width as int, self.height as int, xx, yy);
                lemma_rm_index_injective(
                    self.width as int,
                    x as int,
                    y as int,
                    xx,
                    yy,
                );
                let j = 4 * (yy * (self.width as int) + xx);
                let iw = 4 * ((y as int) * (self.width as int) + (x as int));
                assert(j + 3 < self.data@.len());
                assert(j != iw && j + 1 != iw && j + 2 != iw && j + 3 != iw
                    && j != iw + 1 && j + 1 != iw + 1 && j + 2 != iw + 1 && j + 3 != iw + 1
                    && j != iw + 2 && j + 1 != iw + 2 && j + 2 != iw + 2 && j + 3 != iw + 2
                    && j != iw + 3 && j + 1 != iw + 3 && j + 2 != iw + 3 && j + 3 != iw + 3);
            }
        }
    }

    /// A fresh buffer holding the same pixels as this one.
    pub fn duplicate(&self) -> (out: PixelBuffer)
        ensures
            out.same_image(*self),
            self.wf() ==> out.wf(),
    {
        PixelBuffer {
            width: self.width,
            height: self.height,
            data: vstd::slice::slice_to_vec(self.data.as_slice()),
        }
    }
}

} // verus!
