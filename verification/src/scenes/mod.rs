use vstd::prelude::*;
use crate::color::Color;
use crate::materials::ScatterRecord;
use crate::objects::HitRecord;
use crate::ray::Ray;
use crate::scalar::Scalar;
use crate::vec3::Vec3;

verus! {

/// The smallest ray parameter at which a hit counts: the binary32 number
/// nearest to 0.001. It keeps a scattered ray from hitting the surface that
/// it leaves.
pub const T_MIN_BITS: u32 = 0x3a83_126f;

/// The named scenes.
#[derive(Clone, Copy, Debug, PartialEq, Eq, Structural)]
pub enum SceneType {
    TwoSpheres,
    ThreeSpheres,
    BookCover,
    PerlinSpheres,
    Globe,
    SimpleLight,
    CornellBox,
    CornellSmoke,
    FinalScene,
}

/// The objects of a scene and the colour of what lies behind them.
pub struct Scene<T> {
    pub objects: T,
    pub background: Color,
}

/// What a surface does to a ray that hits it: the light it emits, and how
/// it scatters the ray, if it does.
#[derive(Clone, Copy, Debug)]
pub struct Shade {
    pub emitted: Color,
    pub scatter: Option<ScatterRecord>,
}

/// The colour white, with which a path starts.
pub open spec fn white() -> Color {
    Color(
        Vec3 {
            x: Scalar { bits: 0x3f80_0000 },
            y: Scalar { bits: 0x3f80_0000 },
            z: Scalar { bits: 0x3f80_0000 },
        },
    )
}

impl<T> Scene<T> {
    /// One bounce of a path that arrives along `ray` with the colour
    /// `color`: the scene answers `hit`, the surface `shade`, and the colour
    /// becomes `next`. On a miss the colour is multiplied by the background.
    /// On a hit that does not scatter it is multiplied by the emitted light.
    /// On a hit that scatters it becomes the emitted light plus the colour
    /// times the attenuation.
    pub open spec fn bounce_outcome<
        H: Fn(&T, &Ray, Scalar, Scalar) -> Option<HitRecord>,
        M: Fn(&Ray, &HitRecord) -> Shade,
        P: Fn(Color, Color) -> Color,
        L: Fn(Color, Color, Color) -> Color,
    >(
        self,
        ray: Ray,
        color: Color,
        hit: H,
        shade: M,
        product: P,
        lit: L,
        h: Option<HitRecord>,
        s: Shade,
        next: Color,
    ) -> bool {
        &&& call_ensures(
            hit,
            (&self.objects, &ray, Scalar { bits: T_MIN_BITS }, Scalar { bits: 0x7f80_0000 }),
            h,
        )
        &&& match h {
            None => call_ensures(product, (color, self.background), next),
            Some(rec) => {
                &&& call_ensures(shade, (&ray, &rec), s)
                &&& match s.scatter {
                    None => call_ensures(product, (color, s.emitted), next),
                    Some(sc) => call_ensures(lit, (s.emitted, color, sc.attenuation), next),
                }
            },
        }
    }

    /// `result` is a colour that a path may end with when it arrives along
    /// `ray` with the colour `color` and has `bounces` bounces left. With
    /// none left the colour stays as it is. A miss and a hit that does not
    /// scatter end the path.
    pub open spec fn path_outcome<
        H: Fn(&T, &Ray, Scalar, Scalar) -> Option<HitRecord>,
        M: Fn(&Ray, &HitRecord) -> Shade,
        P: Fn(Color, Color) -> Color,
        L: Fn(Color, Color, Color) -> Color,
    >(
        self,
        bounces: nat,
        ray: Ray,
        color: Color,
        hit: H,
        shade: M,
        product: P,
        lit: L,
        result: Color,
    ) -> bool
        decreases bounces,
    {
        if bounces == 0 {
            result == color
        } else {
            exists|h: Option<HitRecord>, s: Shade, next: Color|
                {
                    &&& #[trigger] self.bounce_outcome(
                        ray,
                        color,
                        hit,
                        shade,
                        product,
                        lit,
                        h,
                        s,
                        next,
                    )
                    &&& if h is Some && s.scatter is Some {
                        self.path_outcome(
                            (bounces - 1) as nat,
                            s.scatter->0.scattered,
                            next,
                            hit,
                            shade,
                            product,
                            lit,
                            result,
                        )
                    } else {
                        result == next
                    }
                }
        }
    }

    /// The scene of the given objects before the given background.
    pub fn new(objects: T, background: Color) -> (scene: Scene<T>)
        ensures
            scene.objects == objects,
            scene.background == background,
    {
        Scene { objects, background }
    }

    /// Follows a ray through the scene for at most `max_depth` bounces and
    /// returns the colour that it gathers. `hit` intersects the objects,
    /// `shade` asks the material at a hit, `product` multiplies two colours,
    /// and `lit` computes the emitted light plus the colour times the
    /// attenuation.
    pub fn ray_color<
        H: Fn(&T, &Ray, Scalar, Scalar) -> Option<HitRecord>,
        M: Fn(&Ray, &HitRecord) -> Shade,
        P: Fn(Color, Color) -> Color,
        L: Fn(Color, Color, Color) -> Color,
    >(
        &self,
        ray: &Ray,
        max_depth: usize,
        hit: &H,
        shade: &M,
        product: &P,
        lit: &L,
    ) -> (result: Color)
        requires
            forall|o: &T, q: &Ray, a: Scalar, b: Scalar| call_requires(*hit, (o, q, a, b)),
            forall|q: &Ray, h: &HitRecord| call_requires(*shade, (q, h)),
            forall|a: Color, b: Color| call_requires(*product, (a, b)),
            forall|a: Color, b: Color, c: Color| call_requires(*lit, (a, b, c)),
        ensures
            self.path_outcome(
                max_depth as nat,
                *ray,
                white(),
                *hit,
                *shade,
                *product,
                *lit,
                result,
            ),
    {
        let mut color = Color::new(Scalar::one(), Scalar::one(), Scalar::one());
        let mut current = *ray;
        let mut depth: usize = 0;
        while depth < max_depth
            invariant
                depth <= max_depth,
                forall|o: &T, q: &Ray, a: Scalar, b: Scalar| call_requires(*hit, (o, q, a, b)),
                forall|q: &Ray, h: &HitRecord| call_requires(*shade, (q, h)),
                forall|a: Color, b: Color| call_requires(*product, (a, b)),
                forall|a: Color, b: Color, c: Color| call_requires(*lit, (a, b, c)),
                forall|end: Color| #[trigger]
                    self.path_outcome(
                        (max_depth - depth) as nat,
                        current,
                        color,
                        *hit,
                        *shade,
                        *product,
                        *lit,
                        end,
                    ) ==> self.path_outcome(
                        max_depth as nat,
                        *ray,
                        white(),
                        *hit,
                        *shade,
                        *product,
                        *lit,
                        end,
                    ),
            decreases max_depth - depth,
        {
            let ghost left = (max_depth - depth) as nat;
            let ghost arriving = color;
            let ghost along = current;
            let ghost no_shade = Shade { emitted: color, scatter: None };
            let h = hit(&self.objects, &current, Scalar::from_bits(T_MIN_BITS), Scalar::infinity());
            let hr = match h {
                Some(hr) => hr,
                None => {
                    let next = product(color, self.background);
                    proof {
                        assert(self.bounce_outcome(
                            along,
                            arriving,
                            *hit,
                            *shade,
                            *product,
                            *lit,
                            h,
                            no_shade,
                            next,
                        ));
                        assert(self.path_outcome(
                            left,
                            along,
                            arriving,
                            *hit,
                            *shade,
                            *product,
                            *lit,
                            next,
                        ));
                    }
                    return next;
                },
            };
            let s = shade(&current, &hr);
            match s.scatter {
                Some(scatter) => {
                    let next = lit(s.emitted, color, scatter.attenuation);
                    proof {
                        assert(self.bounce_outcome(
                            along,
                            arriving,
                            *hit,
                            *shade,
                            *product,
                            *lit,
                            h,
                            s,
                            next,
                        ));
                        assert forall|end: Color| #[trigger]
                            self.path_outcome(
                                (left - 1) as nat,
                                scatter.scattered,
                                next,
                                *hit,
                                *shade,
                                *product,
                                *lit,
                                end,
                            ) implies self.path_outcome(
                            max_depth as nat,
                            *ray,
                            white(),
                            *hit,
                            *shade,
                            *product,
                            *lit,
                            end,
                        ) by {
                            assert(self.path_outcome(
                                left,
                                along,
                                arriving,
                                *hit,
                                *shade,
                                *product,
                                *lit,
                                end,
                            ));
                        }
                    }
                    color = next;
                    current = scatter.scattered;
                },
                None => {
                    let next = product(color, s.emitted);
                    proof {
                        assert(self.bounce_outcome(
                            along,
                            arriving,
                            *hit,
                            *shade,
                            *product,
                            *lit,
                            h,
                            s,
                            next,
                        ));
                        assert(self.path_outcome(
                            left,
                            along,
                            arriving,
                            *hit,
                            *shade,
                            *product,
                            *lit,
                            next,
                        ));
                    }
                    return next;
                },
            }
            depth += 1;
        }
        proof {
            assert(self.path_outcome(
                (max_depth - depth) as nat,
                current,
                color,
                *hit,
                *shade,
                *product,
                *lit,
                color,
            ));
        }
        color
    }
}

} // verus!
