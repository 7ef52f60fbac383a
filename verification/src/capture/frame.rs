use vstd::prelude::*;

verus! {

/// The mathematical value of a [`Frame`]: its size and its pixels in row-major order.
pub struct FrameView {
    pub width: nat,
    pub height: nat,
    pub pixels: Seq<u8>,
}

/// The pixel in column `x` of row `y`.
pub open spec fn pixel(f: FrameView, x: int, y: int) -> u8 {
    f.pixels[y * f.width + x]
}

/// An 8-bit grayscale camera frame.
pub struct Frame {
    width: usize,
    height: usize,
    pixels: Vec<u8>,
}

impl Frame {
    /// Every frame holds exactly one byte per pixel.
    #[verifier::type_invariant]
    spec fn inv(self) -> bool {
        self.pixels@.len() == self.width * self.height
    }
}

impl View for Frame {
    type V = FrameView;

    closed spec fn view(&self) -> FrameView {
        FrameView { width: self.width as nat, height: self.height as nat, pixels: self.pixels@ }
    }
}

/// A pixel inside a grid of width `w` and height `h` has a row-major index below `w * h`.
pub proof fn lemma_grid_index(x: int, y: int, w: int, h: int)
    requires
        0 <= x < w,
        0 <= y < h,
    ensures
        0 <= y * w + x < w * h,
{
    assert(0 <= y * w) by (nonlinear_arith)
        requires
            0 <= y,
            0 <= w,
    {}
    assert(y * w + x < w * h) by (nonlinear_arith)
        requires
            0 <= x < w,
            0 <= y < h,
    {}
}

/// Distinct pixels of a grid of width `w` have distinct row-major indices.
pub proof fn lemma_grid_index_unique(x1: int, y1: int, x2: int, y2: int, w: int)
    requires
        0 <= x1 < w,
        0 <= x2 < w,
        0 <= y1,
        0 <= y2,
        y1 * w + x1 == y2 * w + x2,
    ensures
        x1 == x2,
        y1 == y2,
{
    if y1 < y2 {
        assert(y1 * w + x1 < y2 * w + x2) by (nonlinear_arith)
            requires
                0 <= x1 < w,
                0 <= x2,
                y1 < y2,
        {}
    } else if y2 < y1 {
        assert(y2 * w + x2 < y1 * w + x1) by (nonlinear_arith)
            requires
                0 <= x2 < w,
                0 <= x1,
                y2 < y1,
        {}
    }
}

impl Frame {
    /// A black frame of the given size.
    pub fn empty(width: u32, height: u32) -> (r: Frame)
        requires
            width * height <= usize::MAX,
        ensures
            r@.width == width,
            r@.height == height,
            r@.pixels == Seq::new((width * height) as nat, |i: int| 0u8),
    {
        let w = width as usize;
        let h = height as usize;
        let n = w * h;
        let pixels = vec![0u8; n];
        assert(pixels@ =~= Seq::new((width * height) as nat, |i: int| 0u8));
        Frame { width: w, height: h, pixels }
    }

    /// A frame of the given size holding `pixels` in row-major order, or `None`
    /// when `pixels` does not hold exactly one byte per pixel.
    pub fn from_pixels(width: usize, height: usize, pixels: Vec<u8>) -> (r: Option<Frame>)
        ensures
            match r {
                Some(f) => f@ == (FrameView { width: width as nat, height: height as nat, pixels: pixels@ }),
                None => pixels@.len() != width * height,
            },
    {
        if height != 0 && width > pixels.len() / height {
            assert(width * height > pixels@.len()) by (nonlinear_arith)
                requires
                    height != 0,
                    width > (pixels@.len() as int) / (height as int),
            {}
            return None;
        }
        if height == 0 {
            if pixels.len() != 0 {
                return None;
            }
            return Some(Frame { width, height, pixels });
        }
        assert(width * height <= pixels.len()) by (nonlinear_arith)
            requires
                height != 0,
                width <= pixels.len() / height,
        {}
        if width * height != pixels.len() {
            return None;
        }
        Some(Frame { width, height, pixels })
    }

    /// Width in pixels.
    pub fn width(&self) -> (r: usize)
        ensures
            r == self@.width,
    {
        self.width
    }

    /// Height in pixels.
    pub fn height(&self) -> (r: usize)
        ensures
            r == self@.height,
    {
        self.height
    }

    /// The pixels in row-major order.
    pub fn as_slice(&self) -> (r: &[u8])
        ensures
            r@ == self@.pixels,
            r@.len() == self@.width * self@.height,
    {
        proof {
            use_type_invariant(self);
        }
        self.pixels.as_slice()
    }

    /// The pixel in column `x` of row `y`.
    pub fn get_pixel(&self, x: usize, y: usize) -> (r: u8)
        requires
            x < self@.width,
            y < self@.height,
        ensures
            r == pixel(self@, x as int, y as int),
    {
        proof {
            use_type_invariant(self);
            lemma_grid_index(x as int, y as int, self.width as int, self.height as int);
        }
        let n = self.pixels.len();
        assert(y * self.width + x < n);
        self.pixels[y * self.width + x]
    }

    /// Sets the pixel in column `x` of row `y` to `value`.
    pub fn set_pixel(&mut self, x: usize, y: usize, value: u8)
        requires
            x < old(self)@.width,
            y < old(self)@.height,
        ensures
            final(self)@.width == old(self)@.width,
            final(self)@.height == old(self)@.height,
            final(self)@.pixels == old(self)@.pixels.update(y * old(self)@.width + x, value),
            pixel(final(self)@, x as int, y as int) == value,
            forall|xx: int, yy: int|
                0 <= xx < old(self)@.width && 0 <= yy < old(self)@.height && (xx != x || yy != y)
                    ==> #[trigger] pixel(final(self)@, xx, yy) == pixel(old(self)@, xx, yy),
    {
        proof {
            use_type_invariant(&*self);
            lemma_grid_index(x as int, y as int, self.width as int, self.height as int);
        }
        let n = self.pixels.len();
        assert(y * self.width + x < n);
        let i = y * self.width + x;
        self.pixels[i] = value;
        proof {
            assert forall|xx: int, yy: int|
                0 <= xx < self.width && 0 <= yy < self.height && (xx != x || yy != y)
                    implies #[trigger] pixel(self@, xx, yy) == pixel(old(self)@, xx, yy) by {
                lemma_grid_index(xx, yy, self.width as int, self.height as int);
                if yy * self.width + xx == y * self.width + x {
                    lemma_grid_index_unique(xx, yy, x as int, y as int, self.width as int);
                }
            }
        }
    }
}

/// The smaller of two integers.
pub open spec fn min_int(a: int, b: int) -> int {
    if a <= b {
        a
    } else {
        b
    }
}

/// The region of `f` that a crop at (`x`, `y`) of `width` by `height` keeps,
/// as (column, row, width, height): the corner is moved inside the frame, and
/// the size is cut to what lies inside it.
pub open spec fn crop_region(f: FrameView, x: int, y: int, width: int, height: int) -> (int, int, int, int) {
    let cx = min_int(x, f.width as int);
    let cy = min_int(y, f.height as int);
    (cx, cy, min_int(width, f.width - cx), min_int(height, f.height - cy))
}

/// A crop keeps the size asked for wherever the region lies inside the frame,
/// is cut at the frame's right and bottom edges, and is empty along an axis
/// where it starts outside the frame; pixel `(i, j)` of the crop is pixel
/// `(x + i, y + j)` of the frame.
pub proof fn lemma_crop_region(f: FrameView, x: nat, y: nat, width: nat, height: nat)
    ensures
        ({
            let (cx, cy, cw, ch) = crop_region(f, x as int, y as int, width as int, height as int);
            &&& x + width <= f.width ==> cw == width
            &&& y + height <= f.height ==> ch == height
            &&& x < f.width < x + width ==> cw == f.width - x
            &&& y < f.height < y + height ==> ch == f.height - y
            &&& x >= f.width ==> cw == 0
            &&& y >= f.height ==> ch == 0
            &&& cw > 0 ==> cx == x
            &&& ch > 0 ==> cy == y
        }),
{
}

impl Frame {
    /// A copy of the region of this frame at (`x`, `y`) of `width` by `height`,
    /// cut to what lies inside the frame (see [`crop_region`]).
    pub fn crop(&self, x: u32, y: u32, width: u32, height: u32) -> (r: Frame)
        ensures
            ({
                let (cx, cy, cw, ch) = crop_region(self@, x as int, y as int, width as int, height as int);
                &&& r@.width == cw
                &&& r@.height == ch
                &&& forall|i: int, j: int|
                    0 <= i < cw && 0 <= j < ch ==> #[trigger] pixel(r@, i, j) == pixel(self@, cx + i, cy + j)
            }),
            r@.width <= width,
            r@.height <= height,
            x + width <= self@.width ==> r@.width == width,
            y + height <= self@.height ==> r@.height == height,
            x < self@.width < x + width ==> r@.width == self@.width - x,
            y < self@.height < y + height ==> r@.height == self@.height - y,
            x >= self@.width ==> r@.width == 0,
            y >= self@.height ==> r@.height == 0,
            forall|i: int, j: int|
                0 <= i < r@.width && 0 <= j < r@.height ==> #[trigger] pixel(r@, i, j) == pixel(
                    self@,
                    x + i,
                    y + j,
                ),
    {
        proof {
            use_type_invariant(self);
        }
        let fw = self.width;
        let fh = self.height;
        let n = self.pixels.len();
        assert(fw * fh == n);
        let cx: usize = if (x as usize) < fw { x as usize } else { fw };
        let cy: usize = if (y as usize) < fh { y as usize } else { fh };
        let cw: usize = if (width as usize) < fw - cx { width as usize } else { fw - cx };
        let ch: usize = if (height as usize) < fh - cy { height as usize } else { fh - cy };
        assert(cw * ch <= fw * fh) by (nonlinear_arith)
            requires
                cw <= fw,
                ch <= fh,
        {}
        let mut out = Frame::empty(cw as u32, ch as u32);
        for j in 0..ch
            invariant
                fw == self@.width,
                fh == self@.height,
                cx + cw <= fw,
                cy + ch <= fh,
                out@.width == cw,
                out@.height == ch,
                forall|ii: int, jj: int|
                    0 <= ii < cw && 0 <= jj < j ==> #[trigger] pixel(out@, ii, jj) == pixel(self@, cx + ii, cy + jj),
        {
            for i in 0..cw
                invariant
                    fw == self@.width,
                    fh == self@.height,
                    cx + cw <= fw,
                    cy + ch <= fh,
                    j < ch,
                    out@.width == cw,
                    out@.height == ch,
                    forall|ii: int, jj: int|
                        0 <= ii < cw && 0 <= jj < j ==> #[trigger] pixel(out@, ii, jj) == pixel(self@, cx + ii, cy + jj),
                    forall|ii: int|
                        0 <= ii < i ==> #[trigger] pixel(out@, ii, j as int) == pixel(self@, cx + ii, cy + j),
            {
                let v = self.get_pixel(cx + i, cy + j);
                out.set_pixel(i, j, v);
            }
        }
        out
    }
}

} // verus!
