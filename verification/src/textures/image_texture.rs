use vstd::prelude::*;
use crate::scalar::Scalar;

verus! {

/// A decoded raster of 8-bit RGB pixels, rows from top to bottom.
pub struct ImageTexture {
    width: u32,
    height: u32,
    data: Vec<u8>,
}

/// One pixel of a raster.
#[derive(Clone, Copy, Debug, PartialEq, Eq, Structural)]
pub struct Texel {
    pub r: u8,
    pub g: u8,
    pub b: u8,
}

impl ImageTexture {
    #[verifier::type_invariant]
    spec fn inv(self) -> bool {
        &&& self.width > 0
        &&& self.height > 0
        &&& self.data@.len() == 3 * (self.width * self.height)
    }

    /// The number of columns.
    pub closed spec fn width_spec(self) -> nat {
        self.width as nat
    }

    /// The number of rows.
    pub closed spec fn height_spec(self) -> nat {
        self.height as nat
    }

    /// The bytes of the raster: three for each pixel, row after row.
    pub closed spec fn data_spec(self) -> Seq<u8> {
        self.data@
    }

    /// The raster is not empty and holds three bytes for every pixel. This
    /// holds of every image texture.
    pub open spec fn wf(self) -> bool {
        &&& self.width_spec() > 0
        &&& self.height_spec() > 0
        &&& self.data_spec().len() == 3 * (self.width_spec() * self.height_spec())
    }

    /// The pixel in column `i` of row `j`, both held to the raster.
    pub open spec fn texel_spec(self, i: nat, j: nat) -> Texel {
        let column = if i < self.width_spec() {
            i
        } else {
            (self.width_spec() - 1) as nat
        };
        let row = if j < self.height_spec() {
            j
        } else {
            (self.height_spec() - 1) as nat
        };
        let at = (3 * (row * self.width_spec() + column)) as int;
        Texel { r: self.data_spec()[at], g: self.data_spec()[at + 1], b: self.data_spec()[at + 2] }
    }

    /// The texture on a decoded raster, or nothing when the raster is empty
    /// or the number of bytes is not three times the number of pixels.
    pub fn new(width: u32, height: u32, data: Vec<u8>) -> (t: Option<ImageTexture>)
        ensures
            t is Some <==> width > 0 && height > 0 && data@.len() == 3 * (width * height),
            t matches Some(tex) ==> tex.wf() && tex.width_spec() == width && tex.height_spec()
                == height && tex.data_spec() == data@,
    {
        if width == 0 || height == 0 {
            return None;
        }
        assert(width * height <= 0xffff_ffff * 0xffff_ffff) by (nonlinear_arith)
            requires
                width <= 0xffff_ffff,
                height <= 0xffff_ffff,
        ;
        let pixels: u64 = (width as u64) * (height as u64);
        let bytes: u128 = 3 * (pixels as u128);
        if data.len() as u128 != bytes {
            return None;
        }
        Some(ImageTexture { width, height, data })
    }

    /// The number of columns.
    pub fn width(&self) -> (w: u32)
        ensures
            w == self.width_spec(),
            self.wf(),
    {
        proof {
            use_type_invariant(self);
        }
        self.width
    }

    /// The number of rows.
    pub fn height(&self) -> (h: u32)
        ensures
            h == self.height_spec(),
    {
        self.height
    }

    /// The surface coordinate held to `[0, 1]`, as the lookup asks.
    pub fn clamp_coordinate(x: Scalar) -> (r: Scalar)
        ensures
            r == x.clamp_spec(Scalar { bits: 0 }, Scalar { bits: 0x3f80_0000 }),
    {
        x.clamp(Scalar::zero(), Scalar::one())
    }

    /// The pixel in column `i` of row `j`. A column or row beyond the raster
    /// counts as the last one.
    pub fn texel(&self, i: u32, j: u32) -> (p: Texel)
        ensures
            p == self.texel_spec(i as nat, j as nat),
    {
        proof {
            use_type_invariant(self);
        }
        let column = if i < self.width {
            i
        } else {
            self.width - 1
        };
        let row = if j < self.height {
            j
        } else {
            self.height - 1
        };
        let w = self.width as usize;
        let h = self.height as usize;
        let c = column as usize;
        let r = row as usize;
        let len = self.data.len();
        proof {
            assert(r * w + c < w * h && 0 <= r * w <= w * h && w * h <= 3 * (w * h))
                by (nonlinear_arith)
                requires
                    0 <= r < h,
                    0 <= c < w,
            ;
            assert(len == 3 * (w * h));
            assert(r * w <= usize::MAX);
            assert(r * w + c <= usize::MAX);
        }
        let at: usize = 3 * (r * w + c);
        Texel { r: self.data[at], g: self.data[at + 1], b: self.data[at + 2] }
    }
}

} // verus!
