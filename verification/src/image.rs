use vstd::prelude::*;
use crate::color::Color;
use crate::settings::ImageSettings;

verus! {

/// A raster of colours, row after row, the first row at the bottom.
pub struct Image {
    pub width: usize,
    pub height: usize,
    pub pixels: Vec<Color>,
}

impl Image {
    /// There is one pixel for every column of every row.
    pub open spec fn wf(self) -> bool {
        self.pixels@.len() == self.width * self.height
    }

    /// The pixels in the order in which a file lists them: the top row
    /// first, each row from left to right.
    pub open spec fn rows_top_down_spec(self) -> Seq<Color> {
        Seq::new(
            self.pixels@.len(),
            |k: int|
                self.pixels@[(self.height - 1 - k / (self.width as int)) * self.width + k % (
                self.width as int)],
        )
    }

    /// Every channel of the colour is positive zero.
    pub open spec fn is_black(c: Color) -> bool {
        c.0.x.bits == 0 && c.0.y.bits == 0 && c.0.z.bits == 0
    }

    /// A black image.
    pub fn new(width: usize, height: usize) -> (image: Image)
        requires
            width * height <= usize::MAX,
        ensures
            image.wf(),
            image.width == width,
            image.height == height,
            forall|i: int|
                0 <= i < image.pixels@.len() ==> Image::is_black(#[trigger] image.pixels@[i]),
    {
        let n = width * height;
        let mut pixels: Vec<Color> = Vec::new();
        let mut i: usize = 0;
        while i < n
            invariant
                i <= n,
                pixels@.len() == i,
                forall|k: int| 0 <= k < i ==> Image::is_black(#[trigger] pixels@[k]),
            decreases n - i,
        {
            pixels.push(Color::black());
            i += 1;
        }
        Image { width, height, pixels }
    }

    /// A black image of the size that the settings give.
    pub fn from_settings(settings: ImageSettings) -> (image: Image)
        requires
            settings.image_width * settings.image_height <= usize::MAX,
        ensures
            image.wf(),
            image.width == settings.image_width,
            image.height == settings.image_height,
            forall|i: int|
                0 <= i < image.pixels@.len() ==> Image::is_black(#[trigger] image.pixels@[i]),
    {
        Image::new(settings.image_width, settings.image_height)
    }

    /// The index of the pixel in column `x` of row `y`.
    pub fn pixel_index(&self, x: usize, y: usize) -> (index: usize)
        requires
            self.wf(),
            x < self.width,
            y < self.height,
        ensures
            index == y * self.width + x,
            index < self.pixels@.len(),
    {
        proof {
            let w = self.width as int;
            let h = self.height as int;
            assert(y * w + x < w * h && 0 <= y * w) by (nonlinear_arith)
                requires
                    0 <= x < w,
                    0 <= y < h,
            ;
        }
        let len = self.pixels.len();
        y * self.width + x
    }

    /// The pixels in file order: the rows from the top one down.
    pub fn rows_top_down(&self) -> (out: Vec<Color>)
        requires
            self.wf(),
        ensures
            out@ == self.rows_top_down_spec(),
    {
        let mut out: Vec<Color> = Vec::new();
        let len = self.pixels.len();
        let ghost w = self.width as int;
        let ghost h = self.height as int;
        let ghost wanted = self.rows_top_down_spec();
        proof {
            assert(w * h == h * w) by (nonlinear_arith);
        }
        let mut j: usize = self.height;
        while j > 0
            invariant
                self.wf(),
                w == self.width,
                h == self.height,
                wanted == self.rows_top_down_spec(),
                len == h * w,
                len == self.pixels@.len(),
                j <= h,
                out@.len() == (h - j) * w,
                out@.len() <= len,
                forall|k: int| 0 <= k < out@.len() ==> #[trigger] out@[k] == wanted[k],
            decreases j,
        {
            j -= 1;
            let mut i: usize = 0;
            let ghost base = (h - 1 - j) * w;
            proof {
                assert((h - 1 - j) * w + w == (h - j) * w) by (nonlinear_arith);
                assert((h - j) * w <= h * w) by (nonlinear_arith)
                    requires
                        0 <= j < h,
                        0 <= w,
                ;
            }
            while i < self.width
                invariant
                    self.wf(),
                    w == self.width,
                    h == self.height,
                    wanted == self.rows_top_down_spec(),
                    len == h * w,
                    len == self.pixels@.len(),
                    j < h,
                    i <= w,
                    base == (h - 1 - j) * w,
                    base + w == (h - j) * w,
                    base + w <= len,
                    out@.len() == base + i,
                    forall|k: int| 0 <= k < out@.len() ==> #[trigger] out@[k] == wanted[k],
                decreases self.width - i,
            {
                let index = self.pixel_index(i, j);
                proof {
                    let k = base + i;
                    assert(k / w == h - 1 - j && k % w == i) by (nonlinear_arith)
                        requires
                            k == (h - 1 - j) * w + i,
                            0 <= i < w,
                            0 <= h - 1 - j,
                    ;
                    assert(0 <= k < self.pixels@.len());
                    assert(wanted[k] == self.pixels@[(h - 1 - k / w) * w + k % w]);
                    assert((h - 1 - k / w) * w + k % w == j * w + i);
                }
                out.push(self.pixels[index]);
                i += 1;
            }
        }
        proof {
            assert(out@.len() == (h - 0) * w);
            assert(out@ =~= wanted);
        }
        out
    }
}

} // verus!
