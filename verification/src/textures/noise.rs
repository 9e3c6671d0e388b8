use vstd::prelude::*;
use crate::perlin::Perlin;
use crate::scalar::Scalar;

verus! {

/// Marble-like noise: a lattice of gradients and a scale along z.
pub struct NoiseTexture {
    pub noise: Perlin,
    pub scale: Scalar,
}

impl NoiseTexture {
    /// The texture on the given noise, with the given scale along z.
    pub fn new(noise: Perlin, scale: Scalar) -> (t: NoiseTexture)
        ensures
            t.noise == noise,
            t.scale == scale,
    {
        NoiseTexture { noise, scale }
    }
}

} // verus!
