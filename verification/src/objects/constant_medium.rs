use vstd::prelude::*;
use crate::aabb::Aabb;
use crate::objects::HitRecord;
use crate::ray::Ray;
use crate::scalar::Scalar;
use crate::time::Time;
use crate::vec3::Vec3;

verus! {

/// A homogeneous medium inside a boundary object: a ray that passes through
/// it scatters after a random free flight.
pub struct ConstantMedium<T> {
    pub boundary: T,
    /// The handle of the phase function, the material that scatters.
    pub phase_function: usize,
    /// Minus one over the density.
    pub neg_inv_density: Scalar,
}

/// The part of a ray inside the boundary: where it enters and where it leaves.
#[derive(Clone, Copy, Debug, PartialEq, Eq, Structural)]
pub struct Span {
    pub enter: Scalar,
    pub exit: Scalar,
}

/// A sampled free flight through the medium.
#[derive(Clone, Copy, Debug, PartialEq, Eq, Structural)]
pub struct FlightProbe {
    /// The sampled distance to the scattering event.
    pub hit_distance: Scalar,
    /// The length of the ray's path inside the boundary.
    pub distance_inside_boundary: Scalar,
    /// The ray parameter of the scattering event.
    pub t: Scalar,
    /// The ray at `t`.
    pub point: Vec3,
}

/// The span between two boundary crossings cut down to the query interval:
/// the entry is raised to `t_min`, the exit lowered to `t_max`; an empty span
/// is none; an entry behind the ray's origin is raised to zero.
pub open spec fn clip_span_spec(enter: Scalar, exit: Scalar, t_min: Scalar, t_max: Scalar) -> Option<
    Span,
> {
    let e1 = if enter.lt_spec(t_min) {
        t_min
    } else {
        enter
    };
    let x1 = if t_max.lt_spec(exit) {
        t_max
    } else {
        exit
    };
    if x1.le_spec(e1) {
        None
    } else if e1.lt_spec(Scalar { bits: 0 }) {
        Some(Span { enter: Scalar { bits: 0 }, exit: x1 })
    } else {
        Some(Span { enter: e1, exit: x1 })
    }
}

/// Cuts the span between two boundary crossings down to the query interval.
pub fn clip_span(enter: Scalar, exit: Scalar, t_min: Scalar, t_max: Scalar) -> (r: Option<Span>)
    ensures
        r == clip_span_spec(enter, exit, t_min, t_max),
{
    let mut e = enter;
    let mut x = exit;
    if e.lt(t_min) {
        e = t_min;
    }
    if x.gt(t_max) {
        x = t_max;
    }
    if e.ge(x) {
        return None;
    }
    if e.lt(Scalar::zero()) {
        e = Scalar::zero();
    }
    Some(Span { enter: e, exit: x })
}

impl<T> ConstantMedium<T> {
    /// What a sampled flight comes to: nothing when the ray leaves the
    /// boundary before it scatters, else a hit at the scattering event with
    /// the phase function as material. The normal `(1, 0, 0)`, the surface
    /// coordinates zero and the front face are arbitrary: the medium has no
    /// orientation.
    pub open spec fn scatter_spec(self, f: FlightProbe) -> Option<HitRecord> {
        if f.distance_inside_boundary.lt_spec(f.hit_distance) {
            None
        } else {
            Some(
                HitRecord {
                    point: f.point,
                    normal: Vec3 {
                        x: Scalar { bits: 0x3f80_0000 },
                        y: Scalar { bits: 0 },
                        z: Scalar { bits: 0 },
                    },
                    t: f.t,
                    front_face: true,
                    material: self.phase_function,
                    u: Scalar { bits: 0 },
                    v: Scalar { bits: 0 },
                },
            )
        }
    }

    /// `f` is a flight that the kernel may sample on the clipped span, and
    /// `r` is what it comes to.
    pub open spec fn flight_outcome<F: Fn(&Ray, Scalar, Span) -> FlightProbe>(
        self,
        ray: Ray,
        span: Span,
        flight: F,
        f: FlightProbe,
        r: Option<HitRecord>,
    ) -> bool {
        call_ensures(flight, (&ray, self.neg_inv_density, span), f) && r == self.scatter_spec(f)
    }

    /// The boundary answered `rec1` on the whole line and `rec2` behind
    /// `after`, which is the first crossing moved on a little.
    pub open spec fn crossing_outcome<
        H: Fn(&T, &Ray, Scalar, Scalar) -> Option<HitRecord>,
        N: Fn(Scalar) -> Scalar,
    >(
        self,
        ray: Ray,
        boundary_hit: H,
        nudge: N,
        rec1: Option<HitRecord>,
        after: Scalar,
        rec2: Option<HitRecord>,
    ) -> bool {
        &&& call_ensures(
            boundary_hit,
            (&self.boundary, &ray, Scalar { bits: 0xff80_0000 }, Scalar { bits: 0x7f80_0000 }),
            rec1,
        )
        &&& rec1 matches Some(r1) ==> {
            &&& call_ensures(nudge, (r1.t,), after)
            &&& call_ensures(
                boundary_hit,
                (&self.boundary, &ray, after, Scalar { bits: 0x7f80_0000 }),
                rec2,
            )
        }
    }

    /// `r` is an answer that `hit` may give with these kernels.
    pub open spec fn hit_outcome<
        H: Fn(&T, &Ray, Scalar, Scalar) -> Option<HitRecord>,
        N: Fn(Scalar) -> Scalar,
        F: Fn(&Ray, Scalar, Span) -> FlightProbe,
    >(
        self,
        ray: Ray,
        t_min: Scalar,
        t_max: Scalar,
        boundary_hit: H,
        nudge: N,
        flight: F,
        r: Option<HitRecord>,
    ) -> bool {
        exists|rec1: Option<HitRecord>, after: Scalar, rec2: Option<HitRecord>|
            {
                &&& #[trigger] self.crossing_outcome(ray, boundary_hit, nudge, rec1, after, rec2)
                &&& match (rec1, rec2) {
                    (Some(r1), Some(r2)) => match clip_span_spec(r1.t, r2.t, t_min, t_max) {
                        Some(span) => self.span_outcome(ray, span, flight, r),
                        None => r is None,
                    },
                    _ => r is None,
                }
            }
    }

    /// `r` is what a flight sampled on `span` may come to.
    pub open spec fn span_outcome<F: Fn(&Ray, Scalar, Span) -> FlightProbe>(
        self,
        ray: Ray,
        span: Span,
        flight: F,
        r: Option<HitRecord>,
    ) -> bool {
        exists|f: FlightProbe| #[trigger] self.flight_outcome(ray, span, flight, f, r)
    }

    /// A medium inside `boundary`. `neg_inv_density` is minus one over the
    /// density, so that a denser medium scatters sooner.
    pub fn new(boundary: T, phase_function: usize, neg_inv_density: Scalar) -> (m:
        ConstantMedium<T>)
        ensures
            m.boundary == boundary,
            m.phase_function == phase_function,
            m.neg_inv_density == neg_inv_density,
    {
        ConstantMedium { boundary, phase_function, neg_inv_density }
    }

    /// Decides on a sampled flight.
    pub fn scatter_at(&self, flight: &FlightProbe) -> (r: Option<HitRecord>)
        ensures
            r == self.scatter_spec(*flight),
    {
        if flight.hit_distance.gt(flight.distance_inside_boundary) {
            return None;
        }
        Some(
            HitRecord {
                point: flight.point,
                normal: Vec3::new(Scalar::one(), Scalar::zero(), Scalar::zero()),
                material: self.phase_function,
                u: Scalar::zero(),
                v: Scalar::zero(),
                t: flight.t,
                front_face: true,
            },
        )
    }

    /// Intersects the ray with the medium. `boundary_hit` intersects the
    /// boundary, `nudge` moves a parameter on by a small step, and `flight`
    /// samples a free flight on the clipped span.
    pub fn hit<
        H: Fn(&T, &Ray, Scalar, Scalar) -> Option<HitRecord>,
        N: Fn(Scalar) -> Scalar,
        F: Fn(&Ray, Scalar, Span) -> FlightProbe,
    >(
        &self,
        ray: &Ray,
        t_min: Scalar,
        t_max: Scalar,
        boundary_hit: &H,
        nudge: &N,
        flight: &F,
    ) -> (r: Option<HitRecord>)
        requires
            forall|o: &T, q: &Ray, a: Scalar, b: Scalar| call_requires(*boundary_hit, (o, q, a, b)),
            forall|a: Scalar| call_requires(*nudge, (a,)),
            forall|q: &Ray, d: Scalar, s: Span| call_requires(*flight, (q, d, s)),
        ensures
            self.hit_outcome(*ray, t_min, t_max, *boundary_hit, *nudge, *flight, r),
    {
        let rec1 = boundary_hit(&self.boundary, ray, Scalar::neg_infinity(), Scalar::infinity());
        let r1 = match rec1 {
            Some(r1) => r1,
            None => {
                proof {
                    assert(self.crossing_outcome(*ray, *boundary_hit, *nudge, rec1, t_min, None));
                }
                return None;
            },
        };
        let after = nudge(r1.t);
        let rec2 = boundary_hit(&self.boundary, ray, after, Scalar::infinity());
        proof {
            assert(self.crossing_outcome(*ray, *boundary_hit, *nudge, rec1, after, rec2));
        }
        let r2 = match rec2 {
            Some(r2) => r2,
            None => {
                return None;
            },
        };
        let span = match clip_span(r1.t, r2.t, t_min, t_max) {
            Some(span) => span,
            None => {
                return None;
            },
        };
        let f = flight(ray, self.neg_inv_density, span);
        let r = self.scatter_at(&f);
        proof {
            assert(self.flight_outcome(*ray, span, *flight, f, r));
        }
        r
    }

    /// The box of the medium is the box of its boundary.
    pub fn bounding_box<B: Fn(&T, Time) -> Option<Aabb>>(
        &self,
        timeframe: Time,
        object_box: &B,
    ) -> (r: Option<Aabb>)
        requires
            call_requires(*object_box, (&self.boundary, timeframe)),
        ensures
            call_ensures(*object_box, (&self.boundary, timeframe), r),
    {
        object_box(&self.boundary, timeframe)
    }
}

/// A shorter flight scatters where a longer one does: if a flight through a
/// span ends in a hit, so does every flight through it that is no longer. A
/// denser medium, whose flights are shorter, thus scatters no less.
pub proof fn lemma_shorter_flight_scatters<T>(
    m: ConstantMedium<T>,
    longer: FlightProbe,
    shorter: FlightProbe,
)
    requires
        !shorter.hit_distance.is_nan_spec(),
        !longer.hit_distance.is_nan_spec(),
        shorter.hit_distance@ <= longer.hit_distance@,
        shorter.distance_inside_boundary == longer.distance_inside_boundary,
        m.scatter_spec(longer) is Some,
    ensures
        m.scatter_spec(shorter) is Some,
{
}

/// On numbers, a clipped span ends within the query interval, before the
/// exit of the boundary, and does not start behind the origin. It is empty
/// or inverted only where the whole span lies behind the origin.
pub proof fn lemma_clip_span_bounds(enter: Scalar, exit: Scalar, t_min: Scalar, t_max: Scalar)
    requires
        !enter.is_nan_spec(),
        !exit.is_nan_spec(),
        !t_min.is_nan_spec(),
        !t_max.is_nan_spec(),
    ensures
        clip_span_spec(enter, exit, t_min, t_max) matches Some(span) ==> {
            &&& span.exit@ <= t_max@
            &&& span.exit@ <= exit@
            &&& span.enter@ >= 0
            &&& span.enter@ >= t_min@ || span.enter@ == 0
            &&& span.enter@ < span.exit@ || span.exit@ <= 0
        },
{
}

} // verus!
