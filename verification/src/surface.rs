//! The pixel surface: a fixed-size grid of colour indices with checked access.

use vstd::prelude::*;

verus! {

/// A `width` by `height` grid of colour indices, one byte per pixel, stored
/// row by row: the pixel at column `x` of row `y` is element `y * width + x`.
pub struct PixelSurface {
    width: usize,
    height: usize,
    pixels: Vec<u8>,
}

/// A cell of a `w` by `h` grid has its linear index inside the grid, and two
/// cells with one linear index are the same cell.
pub proof fn lemma_cell_index(w: int, h: int, x: int, y: int)
    requires
        0 <= x < w,
        0 <= y < h,
    ensures
        0 <= y * w + x < w * h,
        (y * w + x) / w == y,
        (y * w + x) % w == x,
{
    assert(y * w + x < w * h) by (nonlinear_arith)
        requires
            0 <= x < w,
            0 <= y < h,
    {
        assert(y * w + w <= h * w) by (nonlinear_arith)
            requires
                y + 1 <= h,
                w > 0,
        {
        }
    }
    assert(0 <= y * w + x) by (nonlinear_arith)
        requires
            0 <= x < w,
            0 <= y < h,
    ;
    vstd::arithmetic::div_mod::lemma_fundamental_div_mod_converse(y * w + x, w, y, x);
}

impl View for PixelSurface {
    type V = Seq<u8>;

    /// The pixels in storage order.
    closed spec fn view(&self) -> Seq<u8> {
        self.pixels@
    }
}

impl PixelSurface {
    /// The number of columns.
    pub closed spec fn spec_width(&self) -> usize {
        self.width
    }

    /// The number of rows.
    pub closed spec fn spec_height(&self) -> usize {
        self.height
    }

    /// The surface holds exactly one byte for each cell of its grid.
    pub open spec fn wf(&self) -> bool {
        &&& self@.len() == self.width() * self.height()
        &&& self.width() * self.height() <= usize::MAX
    }

    /// Whether `(x, y)` names a cell of the grid.
    pub open spec fn contains(&self, x: int, y: int) -> bool {
        0 <= x < self.width() && 0 <= y < self.height()
    }

    /// The colour at `(x, y)`; outside the grid it is 0, the value that a
    /// read there returns.
    pub open spec fn pixel(&self, x: int, y: int) -> u8 {
        if self.contains(x, y) {
            self@[y * self.width() + x]
        } else {
            0
        }
    }

    /// Two surfaces have the same size.
    pub open spec fn same_size(&self, other: &PixelSurface) -> bool {
        self.width() == other.width() && self.height() == other.height()
    }

    #[verifier::when_used_as_spec(spec_width)]
    pub fn width(&self) -> (w: usize)
        ensures
            w == self.width(),
    {
        self.width
    }

    #[verifier::when_used_as_spec(spec_height)]
    pub fn height(&self) -> (h: usize)
        ensures
            h == self.height(),
    {
        self.height
    }

    /// A surface of the given size with every pixel 0.
    pub fn new(width: usize, height: usize) -> (s: PixelSurface)
        requires
            width * height <= usize::MAX,
        ensures
            s.wf(),
            s.width() == width,
            s.height() == height,
            forall|x: int, y: int| #[trigger] s.pixel(x, y) == 0,
    {
        let n: usize = width * height;
        let s = PixelSurface { width, height, pixels: vec![0u8; n] };
        assert forall|x: int, y: int| #[trigger] s.pixel(x, y) == 0 by {
            if s.contains(x, y) {
                lemma_cell_index(width as int, height as int, x, y);
            }
        }
        s
    }

    /// Reads the pixel at `(x, y)`, or 0 outside the grid.
    pub fn get(&self, x: usize, y: usize) -> (c: u8)
        requires
            self.wf(),
        ensures
            c == self.pixel(x as int, y as int),
    {
        if x < self.width && y < self.height {
            proof {
                lemma_cell_index(self.width as int, self.height as int, x as int, y as int);
            }
            self.pixels[y * self.width + x]
        } else {
            0
        }
    }

    /// Writes `color` at `(x, y)`. Outside the grid nothing is written.
    pub fn set(&mut self, x: usize, y: usize, color: u8)
        requires
            old(self).wf(),
        ensures
            final(self).wf(),
            final(self).same_size(old(self)),
            forall|i: int, j: int| #[trigger]
                final(self).pixel(i, j) == if i == x && j == y && old(self).contains(i, j) {
                    color
                } else {
                    old(self).pixel(i, j)
                },
            !old(self).contains(x as int, y as int) ==> *final(self) == *old(self),
    {
        if x < self.width && y < self.height {
            proof {
                lemma_cell_index(self.width as int, self.height as int, x as int, y as int);
            }
            let idx: usize = y * self.width + x;
            self.pixels.set(idx, color);
            assert forall|i: int, j: int| #[trigger]
                self.pixel(i, j) == if i == x && j == y && old(self).contains(i, j) {
                    color
                } else {
                    old(self).pixel(i, j)
                } by {
                if self.contains(i, j) {
                    lemma_cell_index(self.width as int, self.height as int, i, j);
                }
            }
        }
    }

    /// Writes `color` to every pixel.
    pub fn fill(&mut self, color: u8)
        requires
            old(self).wf(),
        ensures
            final(self).wf(),
            final(self).same_size(old(self)),
            forall|i: int, j: int| #[trigger]
                final(self).pixel(i, j) == if old(self).contains(i, j) {
                    color
                } else {
                    0
                },
    {
        let n: usize = self.pixels.len();
        let mut k: usize = 0;
        while k < n
            invariant
                k <= n,
                n == self.pixels@.len(),
                self.wf(),
                self.same_size(old(self)),
                forall|m: int| 0 <= m < k ==> self.pixels@[m] == color,
            decreases n - k,
        {
            self.pixels.set(k, color);
            k += 1;
        }
        assert forall|i: int, j: int| #[trigger]
            self.pixel(i, j) == if old(self).contains(i, j) {
                color
            } else {
                0
            } by {
            if self.contains(i, j) {
                lemma_cell_index(self.width as int, self.height as int, i, j);
            }
        }
    }

    /// Overwrites every pixel with the pixel of `src` at the same place, in
    /// storage order.
    pub fn copy_from(&mut self, src: &PixelSurface)
        requires
            old(self).wf(),
            src.wf(),
            old(self).same_size(src),
        ensures
            final(self).wf(),
            final(self).same_size(old(self)),
            final(self)@ == src@,
            forall|i: int, j: int| #[trigger] final(self).pixel(i, j) == src.pixel(i, j),
    {
        let n: usize = self.pixels.len();
        let mut k: usize = 0;
        while k < n
            invariant
                k <= n,
                n == self.pixels@.len(),
                n == src.pixels@.len(),
                self.wf(),
                self.same_size(old(self)),
                forall|m: int| 0 <= m < k ==> self.pixels@[m] == src.pixels@[m],
            decreases n - k,
        {
            let c: u8 = src.pixels[k];
            self.pixels.set(k, c);
            k += 1;
        }
        assert(self@ =~= src@);
    }
}

} // verus!
