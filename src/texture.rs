//! Texel storage of a decoded image and wrapped texel lookup.
use vstd::prelude::*;

use crate::color::{pack_rgb, packed};

verus! {

/// The packed color of pixel `i` in row-major RGB bytes.
pub open spec fn rgb_texel(rgb: Seq<u8>, i: int) -> int {
    packed(rgb[3 * i], rgb[3 * i + 1], rgb[3 * i + 2])
}

/// A decoded image held as packed `0xRRGGBB` texels, row by row from the top.
#[derive(Clone, Debug)]
pub struct Texture {
    pub width: usize,
    pub height: usize,
    pub colors: Vec<u32>,
}

impl Texture {
    /// Non-empty, with one texel per pixel.
    pub open spec fn wf(&self) -> bool {
        &&& self.width > 0
        &&& self.height > 0
        &&& self.colors@.len() == self.width * self.height
    }

    /// The texel stored for column `x` and row `y`.
    pub open spec fn texel(&self, x: int, y: int) -> u32 {
        self.colors@[y * self.width + x]
    }

    /// Builds a texture from row-major RGB bytes, three per pixel.
    pub fn new(width: usize, height: usize, rgb: &Vec<u8>) -> (t: Texture)
        requires
            width > 0,
            height > 0,
            rgb@.len() == 3 * (width * height),
        ensures
            t.wf(),
            t.width == width,
            t.height == height,
            forall|i: int| 0 <= i < width * height ==> t.colors@[i] == rgb_texel(rgb@, i),
    {
        let len = rgb.len();
        assert(width * height <= len) by (nonlinear_arith)
            requires
                len == 3 * (width * height),
                width * height >= 0,
        ;
        let n = width * height;
        let mut colors: Vec<u32> = Vec::with_capacity(n);
        let mut i: usize = 0;
        while i < n
            invariant
                n == width * height,
                rgb@.len() == 3 * n,
                len == rgb@.len(),
                i <= n,
                colors@.len() == i,
                forall|j: int| 0 <= j < i ==> colors@[j] == rgb_texel(rgb@, j),
            decreases n - i,
        {
            assert(3 * i + 2 < rgb@.len()) by (nonlinear_arith)
                requires
                    i < n,
                    rgb@.len() == 3 * n,
            ;
            let k = 3 * i;
            let c = pack_rgb(rgb[k], rgb[k + 1], rgb[k + 2]);
            colors.push(c);
            i += 1;
        }
        Texture { width, height, colors }
    }

    /// The texel at column `x` and row `y`, each wrapped around the image's
    /// extent; row 0 is the top of the image.
    pub fn get_color(&self, x: usize, y: usize) -> (c: u32)
        requires
            self.wf(),
        ensures
            c == self.texel((x % self.width) as int, (y % self.height) as int),
    {
        let len = self.colors.len();
        let col = x % self.width;
        let row = y % self.height;
        proof {
            lemma_cell_in_grid(col as int, row as int, self.width as int, self.height as int);
            assert(0 <= row * self.width <= row * self.width + col) by (nonlinear_arith)
                requires
                    row >= 0,
                    self.width > 0,
                    col >= 0,
            ;
        }
        self.colors[row * self.width + col]
    }
}

/// A cell of a `w` by `h` grid has a row-major index inside the grid.
pub proof fn lemma_cell_in_grid(x: int, y: int, w: int, h: int)
    requires
        0 <= x < w,
        0 <= y < h,
    ensures
        0 <= y * w + x < w * h,
{
    assert(y * w <= (h - 1) * w) by (nonlinear_arith)
        requires
            0 <= y <= h - 1,
            w > 0,
    ;
    assert((h - 1) * w == w * h - w) by (nonlinear_arith);
    assert(0 <= y * w) by (nonlinear_arith)
        requires
            y >= 0,
            w >= 0,
    ;
}

} // verus!
