//! The frame of packed colors that a render pass fills.
use vstd::prelude::*;

verus! {

/// A `width` by `height` grid of packed `0xRRGGBB` colors, row by row from
/// the top.
#[derive(Clone, Debug)]
pub struct Framebuffer {
    pub width: usize,
    pub height: usize,
    pub buffer: Vec<u32>,
}

impl Framebuffer {
    /// One cell per pixel.
    pub open spec fn wf(&self) -> bool {
        self.buffer@.len() == self.width * self.height
    }

    /// A black frame of `width` by `height` pixels.
    pub fn new(width: usize, height: usize) -> (fb: Framebuffer)
        requires
            width * height <= usize::MAX,
        ensures
            fb.wf(),
            fb.width == width,
            fb.height == height,
            forall|i: int| 0 <= i < width * height ==> fb.buffer@[i] == 0,
    {
        let n = width * height;
        let mut buffer: Vec<u32> = Vec::with_capacity(n);
        let mut i: usize = 0;
        while i < n
            invariant
                i <= n,
                buffer@.len() == i,
                forall|j: int| 0 <= j < i ==> buffer@[j] == 0,
            decreases n - i,
        {
            buffer.push(0);
            i += 1;
        }
        Framebuffer { width, height, buffer }
    }

    /// Column and row of the pixel stored at `index`.
    pub fn pixel_position(&self, index: usize) -> (p: (usize, usize))
        requires
            self.wf(),
            index < self.width * self.height,
        ensures
            p.0 < self.width,
            p.1 < self.height,
            p.1 * self.width + p.0 == index,
    {
        let x = index % self.width;
        let y = index / self.width;
        proof {
            let (w, h, i) = (self.width as int, self.height as int, index as int);
            vstd::arithmetic::div_mod::lemma_fundamental_div_mod(i, w);
            vstd::arithmetic::mul::lemma_mul_is_commutative(w, i / w);
            assert(y < h) by (nonlinear_arith)
                requires
                    y == i / w,
                    i < w * h,
                    w > 0,
                    i == w * (i / w) + i % w,
                    i % w >= 0,
            ;
        }
        (x, y)
    }

    /// Replaces the whole frame by `pixels`, one packed color per cell in
    /// storage order.
    pub fn store_frame(&mut self, pixels: Vec<u32>)
        requires
            old(self).wf(),
            pixels@.len() == old(self).width * old(self).height,
        ensures
            final(self).wf(),
            final(self).width == old(self).width,
            final(self).height == old(self).height,
            final(self).buffer@ == pixels@,
    {
        self.buffer = pixels;
    }
}

} // verus!
