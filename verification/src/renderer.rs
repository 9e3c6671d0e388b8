use vstd::prelude::*;
use crate::color::Color;
use crate::image::Image;
use crate::settings::RendererSettings;
use crate::ProgressTicker;

verus! {

/// The driver: how many samples it takes of a pixel, and how many bounces
/// it follows a path.
#[derive(Clone, Copy, Debug, PartialEq, Eq, Structural)]
pub struct Renderer {
    pub samples_per_pixel: usize,
    pub max_depth: usize,
}

/// `total` is what adding the sample `s` to `prev` gave.
pub open spec fn sample_added<A: Fn(Color, Color) -> Color>(
    plus: A,
    prev: Color,
    s: Color,
    total: Color,
) -> bool {
    call_ensures(plus, (prev, s), total)
}

impl Renderer {
    /// `total` is a sum that `n` samples of the pixel `(x, y)` may plus up
    /// to, starting from black.
    pub open spec fn sum_outcome<S: Fn(usize, usize, usize) -> Color, A: Fn(Color, Color) -> Color>(
        n: nat,
        x: usize,
        y: usize,
        sample: S,
        plus: A,
        total: Color,
    ) -> bool
        decreases n,
    {
        if n == 0 {
            total.0.x.bits == 0 && total.0.y.bits == 0 && total.0.z.bits == 0
        } else {
            exists|prev: Color, s: Color|
                {
                    &&& #[trigger] sample_added(plus, prev, s, total)
                    &&& Renderer::sum_outcome((n - 1) as nat, x, y, sample, plus, prev)
                    &&& call_ensures(sample, (x, y, (n - 1) as usize), s)
                }
        }
    }

    /// `c` is a colour that `render_pixel` may give for the pixel `(x, y)`:
    /// the mean of a sum of its samples.
    pub open spec fn pixel_outcome<
        S: Fn(usize, usize, usize) -> Color,
        A: Fn(Color, Color) -> Color,
        D: Fn(Color, usize) -> Color,
    >(self, x: usize, y: usize, sample: S, plus: A, mean: D, c: Color) -> bool {
        exists|total: Color| #[trigger]
            Renderer::sum_outcome(self.samples_per_pixel as nat, x, y, sample, plus, total)
                && call_ensures(mean, (total, self.samples_per_pixel), c)
    }

    /// A renderer that takes the given number of samples of a pixel and
    /// follows a path for the given number of bounces.
    pub fn new(samples_per_pixel: usize, max_depth: usize) -> (r: Renderer)
        ensures
            r.samples_per_pixel == samples_per_pixel,
            r.max_depth == max_depth,
    {
        Renderer { samples_per_pixel, max_depth }
    }

    /// The renderer that the settings describe.
    pub fn from_settings(settings: RendererSettings) -> (r: Renderer)
        ensures
            r.samples_per_pixel == settings.samples_per_pixel,
            r.max_depth == settings.max_depth,
    {
        Renderer::new(settings.samples_per_pixel, settings.max_depth)
    }

    /// The column and the row of the pixel with the given index.
    pub fn pixel_position(index: usize, width: usize) -> (position: (usize, usize))
        requires
            width > 0,
        ensures
            position.0 == index % width,
            position.1 == index / width,
            position.0 < width,
            position.1 * width + position.0 == index,
    {
        proof {
            assert(index == (index / width) * width + index % width && index % width < width)
                by (nonlinear_arith)
                requires
                    width > 0,
                    index >= 0,
            ;
        }
        (index % width, index / width)
    }

    /// The colour of one pixel: the mean of `samples_per_pixel` samples.
    /// `sample` takes the sample with the given number of the pixel, `plus`
    /// adds two colours, and `mean` divides a sum by the number of samples.
    pub fn render_pixel<
        S: Fn(usize, usize, usize) -> Color,
        A: Fn(Color, Color) -> Color,
        D: Fn(Color, usize) -> Color,
    >(&self, x: usize, y: usize, sample: &S, plus: &A, mean: &D) -> (c: Color)
        requires
            forall|a: usize, b: usize, k: usize| call_requires(*sample, (a, b, k)),
            forall|a: Color, b: Color| call_requires(*plus, (a, b)),
            forall|a: Color, n: usize| call_requires(*mean, (a, n)),
        ensures
            self.pixel_outcome(x, y, *sample, *plus, *mean, c),
    {
        let mut pixel_color = Color::black();
        let mut i: usize = 0;
        while i < self.samples_per_pixel
            invariant
                i <= self.samples_per_pixel,
                forall|a: usize, b: usize, k: usize| call_requires(*sample, (a, b, k)),
                forall|a: Color, b: Color| call_requires(*plus, (a, b)),
                Renderer::sum_outcome(i as nat, x, y, *sample, *plus, pixel_color),
            decreases self.samples_per_pixel - i,
        {
            let ghost prev = pixel_color;
            let s = sample(x, y, i);
            pixel_color = plus(pixel_color, s);
            proof {
                assert(sample_added(*plus, prev, s, pixel_color));
            }
            i += 1;
        }
        mean(pixel_color, self.samples_per_pixel)
    }

    /// Renders every pixel of the image in turn and reports each finished
    /// pixel to the ticker.
    pub fn render_image<
        S: Fn(usize, usize, usize) -> Color,
        A: Fn(Color, Color) -> Color,
        D: Fn(Color, usize) -> Color,
        P: ProgressTicker,
    >(&self, image: &mut Image, sample: &S, plus: &A, mean: &D, progress_ticker: &P)
        requires
            old(image).wf(),
            forall|a: usize, b: usize, k: usize| call_requires(*sample, (a, b, k)),
            forall|a: Color, b: Color| call_requires(*plus, (a, b)),
            forall|a: Color, n: usize| call_requires(*mean, (a, n)),
        ensures
            final(image).wf(),
            final(image).width == old(image).width,
            final(image).height == old(image).height,
            forall|index: int|
                0 <= index < final(image).pixels@.len() ==> self.pixel_outcome(
                    (index % (old(image).width as int)) as usize,
                    (index / (old(image).width as int)) as usize,
                    *sample,
                    *plus,
                    *mean,
                    #[trigger] final(image).pixels@[index],
                ),
    {
        let n = image.pixels.len();
        let width = image.width;
        let mut index: usize = 0;
        while index < n
            invariant
                index <= n,
                n == image.pixels@.len(),
                width == image.width,
                image.wf(),
                image.width == old(image).width,
                image.height == old(image).height,
                forall|a: usize, b: usize, k: usize| call_requires(*sample, (a, b, k)),
                forall|a: Color, b: Color| call_requires(*plus, (a, b)),
                forall|a: Color, n: usize| call_requires(*mean, (a, n)),
                forall|k: int|
                    0 <= k < index ==> self.pixel_outcome(
                        (k % (width as int)) as usize,
                        (k / (width as int)) as usize,
                        *sample,
                        *plus,
                        *mean,
                        #[trigger] image.pixels@[k],
                    ),
            decreases n - index,
        {
            proof {
                if width == 0 {
                    assert(image.width * image.height == 0) by (nonlinear_arith)
                        requires
                            image.width == 0,
                    ;
                }
            }
            let (x, y) = Renderer::pixel_position(index, width);
            let c = self.render_pixel(x, y, sample, plus, mean);
            image.pixels.set(index, c);
            progress_ticker.tick();
            index += 1;
        }
    }
}

/// Every call of the kernel with the same arguments gives the same colour.
pub open spec fn sample_is_function<S: Fn(usize, usize, usize) -> Color>(sample: S) -> bool {
    forall|x: usize, y: usize, k: usize, a: Color, b: Color|
        #![trigger call_ensures(sample, (x, y, k), a), call_ensures(sample, (x, y, k), b)]
        call_ensures(sample, (x, y, k), a) && call_ensures(sample, (x, y, k), b) ==> a == b
}

/// Every call of the kernel with the same arguments gives the same colour.
pub open spec fn plus_is_function<A: Fn(Color, Color) -> Color>(plus: A) -> bool {
    forall|p: Color, q: Color, a: Color, b: Color|
        #![trigger call_ensures(plus, (p, q), a), call_ensures(plus, (p, q), b)]
        call_ensures(plus, (p, q), a) && call_ensures(plus, (p, q), b) ==> a == b
}

/// Every call of the kernel with the same arguments gives the same colour.
pub open spec fn mean_is_function<D: Fn(Color, usize) -> Color>(mean: D) -> bool {
    forall|p: Color, n: usize, a: Color, b: Color|
        #![trigger call_ensures(mean, (p, n), a), call_ensures(mean, (p, n), b)]
        call_ensures(mean, (p, n), a) && call_ensures(mean, (p, n), b) ==> a == b
}

/// With kernels that are functions of their arguments, the sum of the
/// samples of a pixel is determined.
pub proof fn lemma_sum_is_determined<S: Fn(usize, usize, usize) -> Color, A: Fn(Color, Color) -> Color>(
    n: nat,
    x: usize,
    y: usize,
    sample: S,
    plus: A,
    first: Color,
    second: Color,
)
    requires
        sample_is_function(sample),
        plus_is_function(plus),
        Renderer::sum_outcome(n, x, y, sample, plus, first),
        Renderer::sum_outcome(n, x, y, sample, plus, second),
    ensures
        first == second,
    decreases n,
{
    if n == 0 {
        assert(first.0.x == second.0.x);
        assert(first.0.y == second.0.y);
        assert(first.0.z == second.0.z);
    } else {
        let (p1, s1) = choose|prev: Color, s: Color|
            {
                &&& #[trigger] sample_added(plus, prev, s, first)
                &&& Renderer::sum_outcome((n - 1) as nat, x, y, sample, plus, prev)
                &&& call_ensures(sample, (x, y, (n - 1) as usize), s)
            };
        let (p2, s2) = choose|prev: Color, s: Color|
            {
                &&& #[trigger] sample_added(plus, prev, s, second)
                &&& Renderer::sum_outcome((n - 1) as nat, x, y, sample, plus, prev)
                &&& call_ensures(sample, (x, y, (n - 1) as usize), s)
            };
        lemma_sum_is_determined((n - 1) as nat, x, y, sample, plus, p1, p2);
    }
}

/// Rendering is deterministic: with kernels that are functions of their
/// arguments, as they are when every sample draws from a stream seeded by
/// its pixel and its number, two renders of a pixel give the same colour.
pub proof fn lemma_pixel_is_determined<
    S: Fn(usize, usize, usize) -> Color,
    A: Fn(Color, Color) -> Color,
    D: Fn(Color, usize) -> Color,
>(renderer: Renderer, x: usize, y: usize, sample: S, plus: A, mean: D, first: Color, second: Color)
    requires
        sample_is_function(sample),
        plus_is_function(plus),
        mean_is_function(mean),
        renderer.pixel_outcome(x, y, sample, plus, mean, first),
        renderer.pixel_outcome(x, y, sample, plus, mean, second),
    ensures
        first == second,
{
    let n = renderer.samples_per_pixel as nat;
    let t1 = choose|total: Color| #[trigger]
        Renderer::sum_outcome(n, x, y, sample, plus, total) && call_ensures(
            mean,
            (total, renderer.samples_per_pixel),
            first,
        );
    let t2 = choose|total: Color| #[trigger]
        Renderer::sum_outcome(n, x, y, sample, plus, total) && call_ensures(
            mean,
            (total, renderer.samples_per_pixel),
            second,
        );
    lemma_sum_is_determined(n, x, y, sample, plus, t1, t2);
}

/// Two renders of an image with kernels that are functions of their
/// arguments give the same pixels.
pub proof fn lemma_image_is_determined<
    S: Fn(usize, usize, usize) -> Color,
    A: Fn(Color, Color) -> Color,
    D: Fn(Color, usize) -> Color,
>(renderer: Renderer, width: usize, sample: S, plus: A, mean: D, first: Seq<Color>, second: Seq<Color>)
    requires
        sample_is_function(sample),
        plus_is_function(plus),
        mean_is_function(mean),
        first.len() == second.len(),
        forall|index: int|
            0 <= index < first.len() ==> renderer.pixel_outcome(
                (index % (width as int)) as usize,
                (index / (width as int)) as usize,
                sample,
                plus,
                mean,
                #[trigger] first[index],
            ),
        forall|index: int|
            0 <= index < second.len() ==> renderer.pixel_outcome(
                (index % (width as int)) as usize,
                (index / (width as int)) as usize,
                sample,
                plus,
                mean,
                #[trigger] second[index],
            ),
    ensures
        first == second,
{
    assert forall|index: int| 0 <= index < first.len() implies first[index] == second[index] by {
        lemma_pixel_is_determined(
            renderer,
            (index % (width as int)) as usize,
            (index / (width as int)) as usize,
            sample,
            plus,
            mean,
            first[index],
            second[index],
        );
    }
    assert(first =~= second);
}

} // verus!
