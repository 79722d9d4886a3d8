use vstd::prelude::*;

verus! {

/// A `width × height` grid of pixels stored row-major, origin top-left:
/// pixel `(y, x)` sits at index `y * width + x`.
#[derive(Debug)]
pub struct Canvas<T> {
    width: usize,
    height: usize,
    pixels: Vec<T>,
}

/// Position of pixel `(y, x)` in the row-major storage of a canvas `width` wide.
pub open spec fn pixel_index(width: int, y: int, x: int) -> int {
    y * width + x
}

impl<T: Copy> Canvas<T> {
    /// The canvas holds exactly one pixel per coordinate.
    pub closed spec fn wf(&self) -> bool {
        &&& self.width * self.height <= usize::MAX
        &&& self.pixels@.len() == self.width * self.height
    }

    pub closed spec fn spec_width(&self) -> nat {
        self.width as nat
    }

    pub closed spec fn spec_height(&self) -> nat {
        self.height as nat
    }

    /// The pixels in row-major order.
    pub closed spec fn cells(&self) -> Seq<T> {
        self.pixels@
    }

    /// The pixel at row `y`, column `x`.
    pub open spec fn pixel(&self, y: int, x: int) -> T {
        self.cells()[pixel_index(self.spec_width() as int, y, x)]
    }

    /// A canvas of the given size with every pixel set to `fill`.
    pub fn new(width: usize, height: usize, fill: T) -> (c: Self)
        requires
            width * height <= usize::MAX,
        ensures
            c.wf(),
            c.spec_width() == width,
            c.spec_height() == height,
            c.cells() == Seq::new((width * height) as nat, |i: int| fill),
    {
        let n = width * height;
        let mut pixels: Vec<T> = Vec::with_capacity(n);
        let mut i: usize = 0;
        while i < n
            invariant
                i <= n,
                pixels@ == Seq::new(i as nat, |j: int| fill),
            decreases n - i,
        {
            pixels.push(fill);
            i = i + 1;
        }
        Canvas { width, height, pixels }
    }

    /// A canvas of the given size whose pixel `(y, x)` is `f(y, x)`; the
    /// pixels are computed one by one in raster order (row by row, each row
    /// left to right), and each call depends only on its own coordinate.
    pub fn from_fn<F: Fn(usize, usize) -> T>(width: usize, height: usize, f: F) -> (c: Self)
        requires
            width * height <= usize::MAX,
            forall|y: usize, x: usize| y < height && x < width ==> #[trigger] f.requires((y, x)),
        ensures
            c.wf(),
            c.spec_width() == width,
            c.spec_height() == height,
            forall|y: int, x: int|
                0 <= y < height && 0 <= x < width ==> f.ensures(
                    (y as usize, x as usize),
                    #[trigger] c.pixel(y, x),
                ),
    {
        let mut pixels: Vec<T> = Vec::with_capacity(width * height);
        let mut y: usize = 0;
        while y < height
            invariant
                y <= height,
                width * height <= usize::MAX,
                forall|y: usize, x: usize| y < height && x < width ==> #[trigger] f.requires((y, x)),
                pixels@.len() == y * width,
                forall|yy: int, xx: int|
                    0 <= yy < y && 0 <= xx < width ==> f.ensures(
                        (yy as usize, xx as usize),
                        #[trigger] pixels@[pixel_index(width as int, yy, xx)],
                    ),
            decreases height - y,
        {
            let mut x: usize = 0;
            proof {
                lemma_row_start(width as int, height as int, y as int);
            }
            while x < width
                invariant
                    y < height,
                    x <= width,
                    width * height <= usize::MAX,
                    (y + 1) * width <= width * height,
                    forall|y: usize, x: usize| y < height && x < width ==> #[trigger] f.requires((y, x)),
                    pixels@.len() == y * width + x,
                    forall|yy: int, xx: int|
                        0 <= yy < y && 0 <= xx < width ==> f.ensures(
                            (yy as usize, xx as usize),
                            #[trigger] pixels@[pixel_index(width as int, yy, xx)],
                        ),
                    forall|xx: int|
                        0 <= xx < x ==> f.ensures(
                            (y, xx as usize),
                            #[trigger] pixels@[pixel_index(width as int, y as int, xx)],
                        ),
                decreases width - x,
            {
                let v = f(y, x);
                let ghost before = pixels@;
                pixels.push(v);
                proof {
                    assert forall|yy: int, xx: int|
                        0 <= yy < y && 0 <= xx < width implies f.ensures(
                        (yy as usize, xx as usize),
                        #[trigger] pixels@[pixel_index(width as int, yy, xx)],
                    ) by {
                        lemma_index_in_bounds(width as int, y as int, yy, xx);
                        assert(pixels@[pixel_index(width as int, yy, xx)] == before[pixel_index(width as int, yy, xx)]);
                    }
                    assert forall|xx: int|
                        0 <= xx < x + 1 implies f.ensures(
                        (y, xx as usize),
                        #[trigger] pixels@[pixel_index(width as int, y as int, xx)],
                    ) by {
                        if xx < x {
                            assert(pixels@[pixel_index(width as int, y as int, xx)] == before[pixel_index(width as int, y as int, xx)]);
                        }
                    }
                }
                x = x + 1;
            }
            proof {
                assert forall|yy: int, xx: int|
                    0 <= yy < y + 1 && 0 <= xx < width implies f.ensures(
                    (yy as usize, xx as usize),
                    #[trigger] pixels@[pixel_index(width as int, yy, xx)],
                ) by {
                    if yy == y {
                        assert((yy as usize) == y);
                    }
                }
                assert(pixels@.len() == (y + 1) * width) by (nonlinear_arith)
                    requires
                        pixels@.len() == y * width + width,
                ;
            }
            y = y + 1;
        }
        proof {
            assert(pixels@.len() == width * height) by (nonlinear_arith)
                requires
                    pixels@.len() == y * width,
                    y == height,
            ;
        }
        Canvas { width, height, pixels }
    }

    pub fn width(&self) -> (w: usize)
        ensures
            w == self.spec_width(),
    {
        self.width
    }

    pub fn height(&self) -> (h: usize)
        ensures
            h == self.spec_height(),
    {
        self.height
    }

    /// The pixels in row-major order.
    pub fn pixels(&self) -> (p: &Vec<T>)
        ensures
            p@ == self.cells(),
    {
        &self.pixels
    }

    /// The pixel at row `y`, column `x`.
    pub fn get(&self, y: usize, x: usize) -> (v: T)
        requires
            self.wf(),
            y < self.spec_height(),
            x < self.spec_width(),
        ensures
            v == self.pixel(y as int, x as int),
    {
        proof {
            lemma_index_in_bounds(self.width as int, self.height as int, y as int, x as int);
        }
        self.pixels[y * self.width + x]
    }

    /// Writes `v` at row `y`, column `x`; every other pixel is kept.
    pub fn set(&mut self, y: usize, x: usize, v: T)
        requires
            old(self).wf(),
            y < old(self).spec_height(),
            x < old(self).spec_width(),
        ensures
            final(self).wf(),
            final(self).spec_width() == old(self).spec_width(),
            final(self).spec_height() == old(self).spec_height(),
            final(self).cells() == old(self).cells().update(
                pixel_index(old(self).spec_width() as int, y as int, x as int),
                v,
            ),
    {
        proof {
            lemma_index_in_bounds(self.width as int, self.height as int, y as int, x as int);
        }
        let i = y * self.width + x;
        self.pixels.set(i, v);
    }
}

/// A row that starts inside the grid ends inside it.
proof fn lemma_row_start(width: int, height: int, y: int)
    requires
        0 <= y < height,
        0 <= width,
    ensures
        (y + 1) * width <= width * height,
        y * width + width == (y + 1) * width,
{
    assert((y + 1) * width <= width * height) by (nonlinear_arith)
        requires
            0 <= y < height,
            0 <= width,
    ;
    assert(y * width + width == (y + 1) * width) by (nonlinear_arith);
}

/// A pixel coordinate inside the grid has its index inside the storage.
proof fn lemma_index_in_bounds(width: int, height: int, y: int, x: int)
    requires
        0 <= y < height,
        0 <= x < width,
    ensures
        0 <= pixel_index(width, y, x) < width * height,
        pixel_index(width, y, x) < height * width,
        pixel_index(width, y, x) == y * width + x,
{
    assert(width * height == height * width) by (nonlinear_arith);
    assert(y * width + x < width * height) by (nonlinear_arith)
        requires
            0 <= y < height,
            0 <= x < width,
    ;
    assert(0 <= y * width) by (nonlinear_arith)
        requires
            0 <= y,
            0 <= width,
    ;
}

} // verus!
