use vstd::prelude::*;

verus! {

/// The size of the image in pixels.
#[derive(Clone, Copy, Debug, PartialEq, Eq, Structural)]
pub struct ImageSettings {
    pub image_width: usize,
    pub image_height: usize,
}

/// How much work the renderer does for one pixel.
#[derive(Clone, Copy, Debug, PartialEq, Eq, Structural)]
pub struct RendererSettings {
    pub samples_per_pixel: usize,
    pub max_depth: usize,
}

impl Default for ImageSettings {
    fn default() -> (s: ImageSettings)
        ensures
            s.image_width == 1280,
            s.image_height == 720,
    {
        ImageSettings { image_width: 1280, image_height: 720 }
    }
}

impl Default for RendererSettings {
    fn default() -> (s: RendererSettings)
        ensures
            s.samples_per_pixel == 500,
            s.max_depth == 50,
    {
        RendererSettings { samples_per_pixel: 500, max_depth: 50 }
    }
}

} // verus!
