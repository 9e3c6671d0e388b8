use raytracing::aabb::{slabs_overlap, Aabb, Crossing, SlabCrossings};
use raytracing::objects::bvh_node::{
    sort_along_axis, AxisOrder, BoundedObject, BvhChild, BvhNode,
};
use raytracing::objects::constant_medium::{clip_span, ConstantMedium, FlightProbe, Span};
use raytracing::objects::cuboid::Cuboid;
use raytracing::objects::object_list::{merge_boxes, ObjectList};
use raytracing::objects::rectangle::{Rectangle, RectangleError};
use raytracing::objects::sphere::{Sphere, SphereProbe, SurfacePoint, SurfaceUv};
use raytracing::objects::triangle::{Triangle, TriangleProbe};
use raytracing::objects::{closer, HitRecord};
use raytracing::ray::Ray;
use raytracing::scalar::Scalar;
use raytracing::time::Time;
use raytracing::vec3::Vec3;

fn s(x: f32) -> Scalar {
    Scalar::from_bits(x.to_bits())
}

fn f(x: Scalar) -> f32 {
    f32::from_bits(x.to_bits())
}

#[derive(Clone, Copy, Debug, PartialEq)]
struct V(f32, f32, f32);

impl V {
    fn of(v: Vec3) -> V {
        V(f(v.x()), f(v.y()), f(v.z()))
    }

    fn vec3(self) -> Vec3 {
        Vec3::new(s(self.0), s(self.1), s(self.2))
    }

    fn plus(self, o: V) -> V {
        V(self.0 + o.0, self.1 + o.1, self.2 + o.2)
    }

    fn minus(self, o: V) -> V {
        V(self.0 - o.0, self.1 - o.1, self.2 - o.2)
    }

    fn times(self, k: f32) -> V {
        V(self.0 * k, self.1 * k, self.2 * k)
    }

    fn dot(self, o: V) -> f32 {
        self.0 * o.0 + self.1 * o.1 + self.2 * o.2
    }

    fn cross(self, o: V) -> V {
        V(
            self.1 * o.2 - self.2 * o.1,
            self.2 * o.0 - self.0 * o.2,
            self.0 * o.1 - self.1 * o.0,
        )
    }

    fn length_squared(self) -> f32 {
        self.dot(self)
    }

    fn length(self) -> f32 {
        self.length_squared().sqrt()
    }

    fn normalized(self) -> V {
        self.times(1.0 / self.length())
    }

    fn rotate(self, axis: V, angle: f32) -> V {
        let c = angle.cos();
        let sn = angle.sin();
        self.times(c).plus(self.cross(axis).times(sn)).plus(axis.times((1.0 - c) * self.dot(axis)))
    }
}

fn p3(x: f32, y: f32, z: f32) -> Vec3 {
    V(x, y, z).vec3()
}

fn ray_at(ray: &Ray, t: f32) -> V {
    V::of(*ray.origin()).plus(V::of(ray.direction()).times(t))
}

fn make_ray(origin: V, direction: V) -> Ray {
    Ray::new(origin.vec3(), direction.vec3())
}

fn crossing(lo: f32, hi: f32, origin: f32, direction: f32) -> Crossing {
    Crossing { at_min: s((lo - origin) / direction), at_max: s((hi - origin) / direction) }
}

fn crossings(b: &Aabb, ray: &Ray) -> SlabCrossings {
    let lo = V::of(b.min());
    let hi = V::of(b.max());
    let o = V::of(*ray.origin());
    let d = V::of(ray.direction());
    SlabCrossings {
        x: crossing(lo.0, hi.0, o.0, d.0),
        y: crossing(lo.1, hi.1, o.1, d.1),
        z: crossing(lo.2, hi.2, o.2, d.2),
    }
}

fn triangle_probe(t: &Triangle, ray: &Ray) -> TriangleProbe {
    let v0 = V::of(t.v0);
    let e1 = V::of(t.v1).minus(v0);
    let e2 = V::of(t.v2).minus(v0);
    let d = V::of(ray.direction());
    let h = d.cross(e2);
    let a = e1.dot(h);
    let inv = 1.0 / a;
    let sv = V::of(*ray.origin()).minus(v0);
    let u = inv * sv.dot(h);
    let q = sv.cross(e1);
    let v = inv * d.dot(q);
    let t_hit = inv * e2.dot(q);
    let normal = e1.cross(e2).normalized();
    TriangleProbe {
        determinant: s(a),
        u: s(u),
        v: s(v),
        v_limit: s(1.0 - u),
        t: s(t_hit),
        point: ray_at(ray, t_hit).vec3(),
        normal: normal.vec3(),
        direction_dot_normal: s(d.dot(normal)),
    }
}

fn sphere_center(sp: &Sphere, time: f32) -> V {
    ray_at(&sp.movement, time)
}

fn sphere_roots(sp: &Sphere, ray: &Ray) -> SphereProbe {
    let oc = V::of(*ray.origin()).minus(sphere_center(sp, f(ray.time())));
    let d = V::of(ray.direction());
    let a = d.length_squared();
    let half_b = oc.dot(d);
    let r = f(sp.radius);
    let c = oc.length_squared() - r * r;
    let discriminant = half_b * half_b - a * c;
    let root = discriminant.sqrt();
    SphereProbe {
        discriminant: s(discriminant),
        near_root: s((-half_b - root) / a),
        far_root: s((-half_b + root) / a),
    }
}

fn sphere_surface(sp: &Sphere, ray: &Ray, root: Scalar) -> SurfacePoint {
    let p = ray_at(ray, f(root));
    let n = p.minus(sphere_center(sp, f(ray.time()))).times(1.0 / f(sp.radius));
    SurfacePoint {
        point: p.vec3(),
        outward_normal: n.vec3(),
        direction_dot_normal: s(V::of(ray.direction()).dot(n)),
    }
}

fn sphere_uv(sp: &Sphere, n: &Vec3) -> SurfaceUv {
    let rotation = V::of(sp.rotation);
    let p = V::of(*n).rotate(rotation, rotation.length());
    let phi = (-p.2).atan2(p.0) + std::f32::consts::PI;
    let theta = (-p.1).acos();
    SurfaceUv { u: s(phi / (2.0 * std::f32::consts::PI)), v: s(theta / std::f32::consts::PI) }
}

fn normal_gap(p0: Vec3, p1: Vec3, p2: Vec3, p3: Vec3) -> Vec3 {
    let a = V::of(p0);
    let n1 = V::of(p1).minus(a).cross(V::of(p2).minus(a)).normalized();
    let n2 = V::of(p2).minus(a).cross(V::of(p3).minus(a)).normalized();
    n1.minus(n2).vec3()
}

fn pad(b: &Aabb) -> Aabb {
    let e = V(0.0001, 0.0001, 0.0001);
    Aabb::new(V::of(b.min()).minus(e).vec3(), V::of(b.max()).plus(e).vec3())
}

fn sphere_box(sp: &Sphere, timeframe: Time) -> Aabb {
    let r = f(sp.radius);
    let e = V(r, r, r);
    Aabb::new(
        sphere_center(sp, f(timeframe.start)).minus(e).vec3(),
        sphere_center(sp, f(timeframe.end)).plus(e).vec3(),
    )
}

fn hit_sphere(sp: &Sphere, ray: &Ray, t_min: Scalar, t_max: Scalar) -> Option<HitRecord> {
    sp.hit(ray, t_min, t_max, &sphere_roots, &sphere_surface, &sphere_uv)
}

fn unit_box() -> Aabb {
    Aabb::new(p3(0.0, 0.0, 0.0), p3(1.0, 1.0, 1.0))
}

fn record(t: f32, material: usize) -> HitRecord {
    HitRecord {
        point: p3(t, 0.0, 0.0),
        normal: p3(1.0, 0.0, 0.0),
        t: s(t),
        front_face: true,
        material,
        u: s(0.0),
        v: s(0.0),
    }
}

struct Lcg(u64);

impl Lcg {
    fn next(&mut self) -> f32 {
        self.0 = self.0.wrapping_mul(6364136223846793005).wrapping_add(1442695040888963407);
        ((self.0 >> 40) as f32) / ((1u64 << 24) as f32)
    }

    fn between(&mut self, lo: f32, hi: f32) -> f32 {
        lo + (hi - lo) * self.next()
    }
}

// Bounding boxes

#[test]
fn surrounding_box_takes_min_and_max() {
    let a = Aabb::new(p3(0.0, -1.0, 2.0), p3(1.0, 1.0, 3.0));
    let b = Aabb::new(p3(-2.0, 0.0, 2.5), p3(0.5, 4.0, 2.75));
    let m = Aabb::surrounding_box(&a, &b);
    assert_eq!(m, Aabb::new(p3(-2.0, -1.0, 2.0), p3(1.0, 4.0, 3.0)));
    assert!(m.is_valid());
}

#[test]
fn surrounding_box_is_commutative_and_associative() {
    let mut rng = Lcg(7);
    for _ in 0..200 {
        let mut boxes = Vec::new();
        for _ in 0..3 {
            let lo = V(rng.between(-5.0, 5.0), rng.between(-5.0, 5.0), rng.between(-5.0, 5.0));
            let size = V(rng.between(0.0, 3.0), rng.between(0.0, 3.0), rng.between(0.0, 3.0));
            boxes.push(Aabb::new(lo.vec3(), lo.plus(size).vec3()));
        }
        let (a, b, c) = (boxes[0], boxes[1], boxes[2]);
        assert_eq!(Aabb::surrounding_box(&a, &b), Aabb::surrounding_box(&b, &a));
        assert_eq!(
            Aabb::surrounding_box(&Aabb::surrounding_box(&a, &b), &c),
            Aabb::surrounding_box(&a, &Aabb::surrounding_box(&b, &c))
        );
        assert_eq!(Aabb::surrounding_box(&a, &a), a);
    }
}

#[test]
fn invalid_box_is_told_apart() {
    assert!(unit_box().is_valid());
    assert!(!Aabb::new(p3(2.0, 0.0, 0.0), p3(1.0, 1.0, 1.0)).is_valid());
    assert!(!Aabb::new(p3(f32::NAN, 0.0, 0.0), p3(1.0, 1.0, 1.0)).is_valid());
}

#[test]
fn ray_through_box_hits() {
    let ray = make_ray(V(-1.0, 0.5, 0.5), V(1.0, 0.0, 0.0));
    assert!(unit_box().hit(&ray, s(0.001), s(f32::INFINITY), &crossings));
    // the box lies between t = 1 and t = 2
    assert!(!unit_box().hit(&ray, s(0.001), s(1.0), &crossings));
    assert!(!unit_box().hit(&ray, s(2.0), s(10.0), &crossings));
    assert!(unit_box().hit(&ray, s(1.5), s(10.0), &crossings));
}

#[test]
fn ray_beside_box_misses() {
    let ray = make_ray(V(-1.0, 1.5, 0.5), V(1.0, 0.0, 0.0));
    assert!(!unit_box().hit(&ray, s(0.001), s(f32::INFINITY), &crossings));
    let away = make_ray(V(-1.0, 0.5, 0.5), V(-1.0, 0.0, 0.0));
    assert!(!unit_box().hit(&away, s(0.001), s(f32::INFINITY), &crossings));
}

#[test]
fn negative_direction_swaps_the_crossings() {
    let ray = make_ray(V(3.0, 0.5, 0.5), V(-1.0, -0.1, 0.0));
    assert!(unit_box().hit(&ray, s(0.001), s(f32::INFINITY), &crossings));
}

#[test]
fn slab_test_on_given_crossings() {
    let c = SlabCrossings {
        x: Crossing { at_min: s(1.0), at_max: s(2.0) },
        y: Crossing { at_min: s(3.0), at_max: s(0.5) },
        z: Crossing { at_min: s(f32::NEG_INFINITY), at_max: s(f32::INFINITY) },
    };
    assert!(slabs_overlap(&c, s(0.0), s(f32::INFINITY)));
    // latest entry 1, earliest exit 2
    assert!(!slabs_overlap(&c, s(2.0), s(f32::INFINITY)));
    assert!(!slabs_overlap(&c, s(0.0), s(1.0)));
    let apart = SlabCrossings {
        x: Crossing { at_min: s(1.0), at_max: s(2.0) },
        y: Crossing { at_min: s(3.0), at_max: s(4.0) },
        z: Crossing { at_min: s(0.0), at_max: s(9.0) },
    };
    assert!(!slabs_overlap(&apart, s(0.0), s(f32::INFINITY)));
}

// Spheres

#[test]
fn sphere_round_trip() {
    let sphere = Sphere::new(p3(0.0, 0.0, 0.0), s(1.0), 3);
    let ray = make_ray(V(5.0, 0.0, 0.0), V(-1.0, 0.0, 0.0));
    let hit = hit_sphere(&sphere, &ray, s(0.001), s(f32::INFINITY)).unwrap();
    assert_eq!(f(hit.t), 4.0);
    assert_eq!(V::of(hit.normal), V(1.0, 0.0, 0.0));
    assert!(hit.front_face);
    assert_eq!(V::of(hit.point), V(1.0, 0.0, 0.0));
    assert_eq!(hit.material, 3);
}

#[test]
fn sphere_from_inside_takes_far_root() {
    let sphere = Sphere::new(p3(0.0, 0.0, 0.0), s(1.0), 0);
    let ray = make_ray(V(0.0, 0.0, 0.0), V(0.0, 0.0, 2.0));
    let hit = hit_sphere(&sphere, &ray, s(0.001), s(f32::INFINITY)).unwrap();
    assert_eq!(f(hit.t), 0.5);
    assert!(!hit.front_face);
    assert_eq!(V::of(hit.normal), V(0.0, 0.0, -1.0));
}

#[test]
fn sphere_missed_or_out_of_range() {
    let sphere = Sphere::new(p3(0.0, 0.0, 0.0), s(1.0), 0);
    let beside = make_ray(V(5.0, 2.0, 0.0), V(-1.0, 0.0, 0.0));
    assert_eq!(hit_sphere(&sphere, &beside, s(0.001), s(f32::INFINITY)), None);
    let ray = make_ray(V(5.0, 0.0, 0.0), V(-1.0, 0.0, 0.0));
    assert_eq!(hit_sphere(&sphere, &ray, s(0.001), s(4.0)), None);
    assert_eq!(hit_sphere(&sphere, &ray, s(6.5), s(f32::INFINITY)), None);
    let far = hit_sphere(&sphere, &ray, s(4.5), s(f32::INFINITY)).unwrap();
    assert_eq!(f(far.t), 6.0);
}

#[test]
fn select_root_by_cases() {
    let probe = SphereProbe { discriminant: s(1.0), near_root: s(4.0), far_root: s(6.0) };
    assert_eq!(Sphere::select_root(&probe, s(0.001), s(f32::INFINITY)), Some(s(4.0)));
    assert_eq!(Sphere::select_root(&probe, s(5.0), s(f32::INFINITY)), Some(s(6.0)));
    assert_eq!(Sphere::select_root(&probe, s(0.001), s(4.0)), None);
    assert_eq!(Sphere::select_root(&probe, s(4.0), s(5.0)), Some(s(4.0)));
    let none = SphereProbe { discriminant: s(-0.5), near_root: s(4.0), far_root: s(6.0) };
    assert_eq!(Sphere::select_root(&none, s(0.001), s(f32::INFINITY)), None);
}

#[test]
fn moving_sphere_is_hit_where_it_is() {
    let sphere = Sphere::new_moving(p3(0.0, 0.0, 0.0), p3(0.0, 2.0, 0.0), s(1.0), 0);
    let early = Ray::new_time_based(p3(5.0, 0.0, 0.0), p3(-1.0, 0.0, 0.0), s(0.0));
    let late = Ray::new_time_based(p3(5.0, 0.0, 0.0), p3(-1.0, 0.0, 0.0), s(1.0));
    assert!(hit_sphere(&sphere, &early, s(0.001), s(f32::INFINITY)).is_some());
    assert!(hit_sphere(&sphere, &late, s(0.001), s(f32::INFINITY)).is_none());
}

#[test]
fn sphere_at_rest_has_no_motion() {
    let sphere = Sphere::new(p3(1.0, 2.0, 3.0), s(0.5), 9);
    assert_eq!(*sphere.movement.origin(), p3(1.0, 2.0, 3.0));
    assert_eq!(sphere.movement.direction(), Vec3::zero());
    assert_eq!(sphere.rotation, Vec3::zero());
    assert_eq!(sphere.radius, s(0.5));
    assert_eq!(sphere.material, 9);
}

// Triangles

fn floor_triangle() -> Triangle {
    Triangle::new(p3(0.0, 0.0, 0.0), p3(1.0, 0.0, 0.0), p3(0.0, 1.0, 0.0), 5)
}

#[test]
fn triangle_hit_from_above() {
    let ray = make_ray(V(0.25, 0.25, 1.0), V(0.0, 0.0, -1.0));
    let hit = floor_triangle().hit(&ray, s(0.001), s(f32::INFINITY), &triangle_probe).unwrap();
    assert_eq!(f(hit.t), 1.0);
    assert_eq!(f(hit.u), 0.25);
    assert_eq!(f(hit.v), 0.25);
    assert_eq!(V::of(hit.normal), V(0.0, 0.0, 1.0));
    assert!(hit.front_face);
    assert_eq!(hit.material, 5);
    assert_eq!(V::of(hit.point), V(0.25, 0.25, 0.0));
}

#[test]
fn triangle_hit_from_below_turns_the_normal() {
    let ray = make_ray(V(0.25, 0.25, -2.0), V(0.0, 0.0, 1.0));
    let hit = floor_triangle().hit(&ray, s(0.001), s(f32::INFINITY), &triangle_probe).unwrap();
    assert_eq!(f(hit.t), 2.0);
    assert!(!hit.front_face);
    assert_eq!(V::of(hit.normal), V(0.0, 0.0, -1.0));
}

#[test]
fn triangle_missed_outside_its_edges_or_range() {
    let tri = floor_triangle();
    let outside = make_ray(V(0.75, 0.75, 1.0), V(0.0, 0.0, -1.0));
    assert_eq!(tri.hit(&outside, s(0.001), s(f32::INFINITY), &triangle_probe), None);
    let negative_u = make_ray(V(-0.25, 0.25, 1.0), V(0.0, 0.0, -1.0));
    assert_eq!(tri.hit(&negative_u, s(0.001), s(f32::INFINITY), &triangle_probe), None);
    let ray = make_ray(V(0.25, 0.25, 1.0), V(0.0, 0.0, -1.0));
    assert_eq!(tri.hit(&ray, s(0.001), s(1.0), &triangle_probe), None);
    assert_eq!(tri.hit(&ray, s(1.5), s(f32::INFINITY), &triangle_probe), None);
}

#[test]
fn parallel_ray_never_hits_triangle() {
    let mut rng = Lcg(11);
    for _ in 0..500 {
        let v0 = V(rng.between(-5.0, 5.0), rng.between(-5.0, 5.0), rng.between(-5.0, 5.0));
        let e1 = V(rng.between(0.5, 2.0), rng.between(-1.0, 1.0), 0.0);
        let e2 = V(rng.between(-1.0, 1.0), rng.between(0.5, 2.0), 0.0);
        let tri = Triangle::new(v0.vec3(), v0.plus(e1).vec3(), v0.plus(e2).vec3(), 0);
        // the plane is z = v0.z, so any direction without a z part is parallel to it
        let d = V(rng.between(-1.0, 1.0), rng.between(-1.0, 1.0), 0.0);
        let origin = V(rng.between(-5.0, 5.0), rng.between(-5.0, 5.0), v0.2);
        let ray = make_ray(origin, d);
        assert_eq!(tri.hit(&ray, s(0.001), s(f32::INFINITY), &triangle_probe), None);
        let above = make_ray(origin.plus(V(0.0, 0.0, 1.0)), d);
        assert_eq!(tri.hit(&above, s(0.001), s(f32::INFINITY), &triangle_probe), None);
    }
}

#[test]
fn triangle_probe_decision_by_cases() {
    let tri = floor_triangle();
    let good = TriangleProbe {
        determinant: s(1.0),
        u: s(0.25),
        v: s(0.5),
        v_limit: s(0.75),
        t: s(2.0),
        point: p3(1.0, 2.0, 3.0),
        normal: p3(0.0, 0.0, 1.0),
        direction_dot_normal: s(-1.0),
    };
    let hit = tri.hit_with(&good, s(0.001), s(10.0)).unwrap();
    assert_eq!(
        hit,
        HitRecord {
            point: p3(1.0, 2.0, 3.0),
            normal: p3(0.0, 0.0, 1.0),
            t: s(2.0),
            front_face: true,
            material: 5,
            u: s(0.25),
            v: s(0.5),
        }
    );
    let tiny = TriangleProbe { determinant: s(0.5e-8), ..good };
    assert_eq!(tri.hit_with(&tiny, s(0.001), s(10.0)), None);
    let tiny_negative = TriangleProbe { determinant: s(-0.5e-8), ..good };
    assert_eq!(tri.hit_with(&tiny_negative, s(0.001), s(10.0)), None);
    let zero = TriangleProbe { determinant: s(0.0), ..good };
    assert_eq!(tri.hit_with(&zero, s(0.001), s(10.0)), None);
    let u_one = TriangleProbe { u: s(1.0), ..good };
    assert_eq!(tri.hit_with(&u_one, s(0.001), s(10.0)), None);
    let v_at_limit = TriangleProbe { v: s(0.75), ..good };
    assert_eq!(tri.hit_with(&v_at_limit, s(0.001), s(10.0)), None);
    let v_negative = TriangleProbe { v: s(-0.1), ..good };
    assert_eq!(tri.hit_with(&v_negative, s(0.001), s(10.0)), None);
    let late = TriangleProbe { t: s(10.0), ..good };
    assert_eq!(tri.hit_with(&late, s(0.001), s(10.0)), None);
    let back = TriangleProbe { direction_dot_normal: s(1.0), ..good };
    let hit_back = tri.hit_with(&back, s(0.001), s(10.0)).unwrap();
    assert!(!hit_back.front_face);
    assert_eq!(hit_back.normal, p3(-0.0, -0.0, -1.0));
}

#[test]
fn triangle_box_is_padded_when_flat() {
    let timeframe = Time::new(s(0.0), s(1.0));
    let flat = floor_triangle();
    assert_eq!(flat.tight_box(), Aabb::new(p3(0.0, 0.0, 0.0), p3(1.0, 1.0, 0.0)));
    assert!(Triangle::is_flat(&flat.tight_box()));
    let b = flat.bounding_box(timeframe, &pad).unwrap();
    assert_eq!(b, Aabb::new(p3(-0.0001, -0.0001, -0.0001), p3(1.0001, 1.0001, 0.0001)));
    let solid = Triangle::new(p3(0.0, 0.0, 0.0), p3(1.0, 2.0, 0.5), p3(-1.0, 1.0, 3.0), 0);
    assert!(!Triangle::is_flat(&solid.tight_box()));
    assert_eq!(
        solid.bounding_box(timeframe, &pad),
        Some(Aabb::new(p3(-1.0, 0.0, 0.0), p3(1.0, 2.0, 3.0)))
    );
}

#[test]
fn triangle_moves_with_its_vertices() {
    let moved = floor_triangle().transformed(&|v: Vec3| V::of(v).plus(V(1.0, 2.0, 3.0)).vec3());
    assert_eq!(moved, Triangle::new(p3(1.0, 2.0, 3.0), p3(2.0, 2.0, 3.0), p3(1.0, 3.0, 3.0), 5));
}

// Rectangles and cuboids

#[test]
fn rectangle_is_two_triangles() {
    let r = Rectangle::new_xy(s(0.0), s(2.0), s(0.0), s(1.0), s(-3.0), 4, &normal_gap).unwrap();
    assert_eq!(
        r.triangle1,
        Triangle::new(p3(0.0, 0.0, -3.0), p3(2.0, 0.0, -3.0), p3(2.0, 1.0, -3.0), 4)
    );
    assert_eq!(
        r.triangle2,
        Triangle::new(p3(0.0, 0.0, -3.0), p3(2.0, 1.0, -3.0), p3(0.0, 1.0, -3.0), 4)
    );
    let xz = Rectangle::new_xz(s(0.0), s(2.0), s(5.0), s(6.0), s(1.0), 4, &normal_gap).unwrap();
    assert_eq!(xz.triangle1.v1, p3(2.0, 1.0, 5.0));
    assert_eq!(xz.triangle2.v2, p3(0.0, 1.0, 6.0));
    let yz = Rectangle::new_yz(s(0.0), s(2.0), s(5.0), s(6.0), s(1.0), 4, &normal_gap).unwrap();
    assert_eq!(yz.triangle1.v1, p3(1.0, 2.0, 5.0));
    assert_eq!(yz.triangle2.v2, p3(1.0, 0.0, 6.0));
}

#[test]
fn rectangle_off_its_plane_is_rejected() {
    let r = Rectangle::new(
        p3(0.0, 0.0, 0.0),
        p3(1.0, 0.0, 0.0),
        p3(1.0, 1.0, 0.0),
        p3(0.0, 1.0, 0.5),
        0,
        &normal_gap,
    );
    assert_eq!(r, Err(RectangleError::NotPlanar));
    assert_eq!(RectangleError::NotPlanar.message(), "The rectangle is not planar");
    let ok = Rectangle::from_points(
        [p3(0.0, 0.0, 0.0), p3(1.0, 0.0, 0.0), p3(1.0, 1.0, 0.0), p3(0.0, 1.0, 0.0)],
        0,
        &normal_gap,
    );
    assert!(ok.is_ok());
    let gap_given = Rectangle::with_gap(
        p3(0.0, 0.0, 0.0),
        p3(1.0, 0.0, 0.0),
        p3(1.0, 1.0, 0.0),
        p3(0.0, 1.0, 0.0),
        0,
        p3(0.0, 1.0e-7, 0.0),
    );
    assert_eq!(gap_given, Err(RectangleError::NotPlanar));
}

#[test]
fn rectangle_hit_in_either_triangle() {
    let r = Rectangle::new_xy(s(0.0), s(1.0), s(0.0), s(1.0), s(0.0), 4, &normal_gap).unwrap();
    let first = make_ray(V(0.75, 0.25, 1.0), V(0.0, 0.0, -1.0));
    let second = make_ray(V(0.25, 0.75, 1.0), V(0.0, 0.0, -1.0));
    let outside = make_ray(V(1.25, 0.75, 1.0), V(0.0, 0.0, -1.0));
    let h1 = r.hit(&first, s(0.001), s(f32::INFINITY), &triangle_probe).unwrap();
    let h2 = r.hit(&second, s(0.001), s(f32::INFINITY), &triangle_probe).unwrap();
    assert_eq!(f(h1.t), 1.0);
    assert_eq!(f(h2.t), 1.0);
    assert_eq!(h1, r.triangle1.hit(&first, s(0.001), s(f32::INFINITY), &triangle_probe).unwrap());
    assert_eq!(h2, r.triangle2.hit(&second, s(0.001), s(f32::INFINITY), &triangle_probe).unwrap());
    assert_eq!(r.hit(&outside, s(0.001), s(f32::INFINITY), &triangle_probe), None);
    let timeframe = Time::new(s(0.0), s(1.0));
    assert_eq!(
        r.bounding_box(timeframe, &pad),
        Some(Aabb::new(p3(-0.0001, -0.0001, -0.0001), p3(1.0001, 1.0001, 0.0001)))
    );
}

#[test]
fn cuboid_faces_from_corners() {
    let c = Cuboid::bounded_by(p3(0.0, 0.0, 0.0), p3(1.0, 2.0, 3.0), 8, &normal_gap).unwrap();
    let corners = [
        p3(0.0, 0.0, 0.0),
        p3(1.0, 0.0, 0.0),
        p3(1.0, 2.0, 0.0),
        p3(0.0, 2.0, 0.0),
        p3(0.0, 0.0, 3.0),
        p3(1.0, 0.0, 3.0),
        p3(1.0, 2.0, 3.0),
        p3(0.0, 2.0, 3.0),
    ];
    let faces = [[0, 1, 2, 3], [4, 5, 6, 7], [0, 1, 5, 4], [2, 3, 7, 6], [0, 3, 7, 4], [1, 2, 6, 5]];
    for (face, at) in c.faces.iter().zip(faces.iter()) {
        assert_eq!(face.triangle1, Triangle::new(corners[at[0]], corners[at[1]], corners[at[2]], 8));
        assert_eq!(face.triangle2, Triangle::new(corners[at[0]], corners[at[2]], corners[at[3]], 8));
    }
    let same = Cuboid::new(&corners, 8, &normal_gap).unwrap();
    for (a, b) in c.faces.iter().zip(same.faces.iter()) {
        assert_eq!(a, b);
    }
}

#[test]
fn cuboid_with_a_bent_face_is_rejected() {
    let corners = [
        p3(0.0, 0.0, 0.0),
        p3(1.0, 0.0, 0.0),
        p3(1.0, 2.0, 0.0),
        p3(0.0, 2.0, 0.7),
        p3(0.0, 0.0, 3.0),
        p3(1.0, 0.0, 3.0),
        p3(1.0, 2.0, 3.0),
        p3(0.0, 2.0, 3.0),
    ];
    assert!(matches!(Cuboid::new(&corners, 8, &normal_gap), Err(RectangleError::NotPlanar)));
}

#[test]
fn cuboid_hit_is_the_nearest_face() {
    let c = Cuboid::bounded_by(p3(0.0, 0.0, 0.0), p3(1.0, 1.0, 1.0), 8, &normal_gap).unwrap();
    let ray = make_ray(V(0.25, 0.5, 5.0), V(0.0, 0.0, -1.0));
    let hit = c.hit(&ray, s(0.001), s(f32::INFINITY), &triangle_probe).unwrap();
    assert_eq!(f(hit.t), 4.0);
    assert_eq!(V::of(hit.point), V(0.25, 0.5, 1.0));
    let inside = make_ray(V(0.25, 0.5, 0.5), V(0.0, 0.0, -1.0));
    let hit_inside = c.hit(&inside, s(0.001), s(f32::INFINITY), &triangle_probe).unwrap();
    assert_eq!(f(hit_inside.t), 0.5);
    let beside = make_ray(V(2.0, 0.5, 5.0), V(0.0, 0.0, -1.0));
    assert_eq!(c.hit(&beside, s(0.001), s(f32::INFINITY), &triangle_probe), None);
    let b = c.bounding_box(Time::new(s(0.0), s(1.0)), &pad).unwrap();
    assert_eq!(b, Aabb::new(p3(-0.0001, -0.0001, -0.0001), p3(1.0001, 1.0001, 1.0001)));
    let moved = c.transformed(&|v: Vec3| V::of(v).times(2.0).vec3());
    assert_eq!(moved.faces[1].triangle1.v2, p3(2.0, 2.0, 2.0));
}

// Lists

fn three_spheres() -> Vec<Sphere> {
    vec![
        Sphere::new(p3(0.0, 0.0, -5.0), s(1.0), 0),
        Sphere::new(p3(0.0, 0.0, -2.0), s(0.5), 1),
        Sphere::new(p3(3.0, 0.0, -2.0), s(0.5), 2),
    ]
}

#[test]
fn list_returns_the_closest_hit() {
    let mut list = ObjectList::new(Vec::new());
    for sp in three_spheres() {
        list.add(sp);
    }
    assert_eq!(list.objects().len(), 3);
    let ray = make_ray(V(0.0, 0.0, 0.0), V(0.0, 0.0, -1.0));
    let hit = list.hit(&ray, s(0.001), s(f32::INFINITY), &hit_sphere).unwrap();
    assert_eq!(f(hit.t), 1.5);
    assert_eq!(hit.material, 1);
    let only_far = list.hit(&ray, s(3.0), s(f32::INFINITY), &hit_sphere).unwrap();
    assert_eq!(f(only_far.t), 4.0);
    assert_eq!(only_far.material, 0);
    let up = make_ray(V(0.0, 0.0, 0.0), V(0.0, 1.0, 0.0));
    assert_eq!(list.hit(&up, s(0.001), s(f32::INFINITY), &hit_sphere), None);
}

#[test]
fn list_box_is_the_merge_or_nothing() {
    let timeframe = Time::new(s(0.0), s(1.0));
    let boxed = |sp: &Sphere, tf: Time| Some(sphere_box(sp, tf));
    let list = ObjectList::new(three_spheres());
    assert_eq!(
        list.bounding_box(timeframe, &boxed),
        Some(Aabb::new(p3(-1.0, -1.0, -6.0), p3(3.5, 1.0, -1.5)))
    );
    let empty: ObjectList<Sphere> = ObjectList::new(Vec::new());
    assert_eq!(empty.bounding_box(timeframe, &boxed), None);
    let unbounded = |sp: &Sphere, tf: Time| {
        if sp.material == 1 {
            None
        } else {
            Some(sphere_box(sp, tf))
        }
    };
    assert_eq!(list.bounding_box(timeframe, &unbounded), None);
    assert_eq!(merge_boxes(&vec![]), None);
    assert_eq!(merge_boxes(&vec![Some(unit_box())]), Some(unit_box()));
    assert_eq!(merge_boxes(&vec![Some(unit_box()), None]), None);
    assert_eq!(
        merge_boxes(&vec![Some(unit_box()), Some(Aabb::new(p3(-1.0, 0.5, 0.5), p3(0.5, 2.0, 0.75)))]),
        Some(Aabb::new(p3(-1.0, 0.0, 0.0), p3(1.0, 2.0, 1.0)))
    );
}

#[test]
fn closer_prefers_the_smaller_parameter() {
    assert_eq!(closer(Some(record(1.0, 0)), Some(record(2.0, 1))), Some(record(1.0, 0)));
    assert_eq!(closer(Some(record(3.0, 0)), Some(record(2.0, 1))), Some(record(2.0, 1)));
    assert_eq!(closer(Some(record(2.0, 0)), Some(record(2.0, 1))), Some(record(2.0, 1)));
    assert_eq!(closer(Some(record(1.0, 0)), None), Some(record(1.0, 0)));
    assert_eq!(closer(None, Some(record(2.0, 1))), Some(record(2.0, 1)));
    assert_eq!(closer(None, None), None);
}

// The hierarchy

fn bounded(handle: usize, lo: V, hi: V) -> BoundedObject {
    let b = Aabb::new(lo.vec3(), hi.vec3());
    BoundedObject { handle, reference_box: b, bounding_box: b }
}

fn leaves(child: &BvhChild, out: &mut Vec<usize>) {
    match child {
        BvhChild::Leaf(h) => out.push(*h),
        BvhChild::Node(n) => {
            leaves(&n.left, out);
            leaves(&n.right, out);
        }
    }
}

fn check_boxes(node: &BvhNode, objects: &[BoundedObject]) -> Aabb {
    let side = |child: &BvhChild| match child {
        BvhChild::Leaf(h) => objects.iter().find(|o| o.handle == *h).unwrap().bounding_box,
        BvhChild::Node(n) => check_boxes(n, objects),
    };
    let merged = Aabb::surrounding_box(&side(&node.left), &side(&node.right));
    assert_eq!(node.bounding_box, merged);
    merged
}

#[test]
fn hierarchy_on_one_object_holds_it_twice() {
    let objects = vec![bounded(7, V(0.0, 0.0, 0.0), V(1.0, 1.0, 1.0))];
    let node = BvhNode::new(&objects);
    assert!(matches!(node.left, BvhChild::Leaf(7)));
    assert!(matches!(node.right, BvhChild::Leaf(7)));
    assert_eq!(node.bounding_box, objects[0].bounding_box);
    assert_eq!(node.bounding_box(), Some(objects[0].bounding_box));
}

#[test]
fn hierarchy_on_two_objects_orders_them() {
    // whatever axis is drawn, the second object comes first along it
    let objects = vec![
        bounded(0, V(5.0, 5.0, 5.0), V(6.0, 6.0, 6.0)),
        bounded(1, V(1.0, 1.0, 1.0), V(2.0, 2.0, 2.0)),
    ];
    for _ in 0..20 {
        let node = BvhNode::new(&objects);
        assert!(matches!(node.left, BvhChild::Leaf(1)));
        assert!(matches!(node.right, BvhChild::Leaf(0)));
        assert_eq!(node.bounding_box, Aabb::new(p3(1.0, 1.0, 1.0), p3(6.0, 6.0, 6.0)));
    }
    // a tie keeps the given order
    let tied = vec![
        bounded(0, V(1.0, 1.0, 1.0), V(6.0, 6.0, 6.0)),
        bounded(1, V(1.0, 1.0, 1.0), V(2.0, 2.0, 2.0)),
    ];
    let node = BvhNode::new(&tied);
    assert!(matches!(node.left, BvhChild::Leaf(0)));
    assert!(matches!(node.right, BvhChild::Leaf(1)));
}

#[test]
fn hierarchy_splits_in_the_middle() {
    // the objects lie on the diagonal, so every axis sorts them alike
    let mut objects = Vec::new();
    for i in [4usize, 0, 3, 1, 2] {
        let at = i as f32;
        objects.push(bounded(i, V(at, at, at), V(at + 0.5, at + 0.5, at + 0.5)));
    }
    let node = BvhNode::new(&objects);
    let mut left = Vec::new();
    let mut right = Vec::new();
    leaves(&node.left, &mut left);
    leaves(&node.right, &mut right);
    assert_eq!(left, vec![0, 1]);
    // the odd object out is alone in its node, as both children
    assert_eq!(right, vec![2, 2, 3, 4]);
    assert!(matches!(node.left, BvhChild::Node(_)));
    check_boxes(&node, &objects);
    assert_eq!(node.bounding_box, Aabb::new(p3(0.0, 0.0, 0.0), p3(4.5, 4.5, 4.5)));
    let list = ObjectList::new(objects);
    let again = BvhNode::from_list(&list);
    let mut all = Vec::new();
    leaves(&again.left, &mut all);
    leaves(&again.right, &mut all);
    all.dedup();
    assert_eq!(all, vec![0, 1, 2, 3, 4]);
}

#[test]
fn sort_along_axis_is_stable() {
    let objects = vec![
        bounded(0, V(2.0, 0.0, 9.0), V(3.0, 1.0, 10.0)),
        bounded(1, V(1.0, 5.0, 9.0), V(3.0, 6.0, 10.0)),
        bounded(2, V(2.0, 3.0, 9.0), V(3.0, 4.0, 10.0)),
        bounded(3, V(-0.0, 4.0, 9.0), V(3.0, 5.0, 10.0)),
        bounded(4, V(0.0, 4.0, 9.0), V(3.0, 5.0, 10.0)),
    ];
    let handles = |v: Vec<BoundedObject>| v.iter().map(|o| o.handle).collect::<Vec<usize>>();
    assert_eq!(handles(sort_along_axis(&objects, 0)), vec![3, 4, 1, 0, 2]);
    assert_eq!(handles(sort_along_axis(&objects, 1)), vec![0, 2, 3, 4, 1]);
    assert_eq!(handles(sort_along_axis(&objects, 2)), vec![0, 1, 2, 3, 4]);
    assert_eq!(BvhNode::compare_along_axis(&objects[0], &objects[1], 0), AxisOrder::Greater);
    assert_eq!(BvhNode::compare_along_axis(&objects[0], &objects[1], 1), AxisOrder::Less);
    assert_eq!(BvhNode::compare_along_axis(&objects[0], &objects[1], 2), AxisOrder::Equal);
    assert_eq!(BvhNode::compare_along_axis(&objects[3], &objects[4], 0), AxisOrder::Equal);
}

#[test]
fn hierarchy_agrees_with_linear_scan() {
    let mut rng = Lcg(2024);
    let timeframe = Time::new(s(0.0), s(0.0));
    let mut spheres = Vec::new();
    let mut objects = Vec::new();
    for handle in 0..60 {
        let center = V(rng.between(-10.0, 10.0), rng.between(-10.0, 10.0), rng.between(-10.0, 10.0));
        let sphere = Sphere::new(center.vec3(), s(rng.between(0.2, 1.5)), handle);
        let b = sphere_box(&sphere, timeframe);
        objects.push(BoundedObject { handle, reference_box: b, bounding_box: b });
        spheres.push(sphere);
    }
    let node = BvhNode::new(&objects);
    check_boxes(&node, &objects);
    let mut all = Vec::new();
    leaves(&node.left, &mut all);
    leaves(&node.right, &mut all);
    all.sort();
    all.dedup();
    assert_eq!(all, (0..60).collect::<Vec<usize>>());
    let list = ObjectList::new(spheres.clone());
    let leaf_hit = |handle: usize, ray: &Ray, t_min: Scalar, t_max: Scalar| -> Option<HitRecord> {
        hit_sphere(&spheres[handle], ray, t_min, t_max)
    };
    let mut hits = 0;
    for _ in 0..1200 {
        let origin = V(rng.between(-15.0, 15.0), rng.between(-15.0, 15.0), rng.between(-15.0, 15.0));
        let target = V(rng.between(-8.0, 8.0), rng.between(-8.0, 8.0), rng.between(-8.0, 8.0));
        let ray = make_ray(origin, target.minus(origin));
        let from_tree = node.hit(&ray, s(0.001), s(f32::INFINITY), &crossings, &leaf_hit);
        let from_scan = list.hit(&ray, s(0.001), s(f32::INFINITY), &hit_sphere);
        assert_eq!(from_tree.is_some(), from_scan.is_some());
        if let (Some(a), Some(b)) = (from_tree, from_scan) {
            assert_eq!(f(a.t), f(b.t));
            hits += 1;
        }
    }
    assert!(hits > 100);
}

// Media

#[test]
fn span_is_clipped_to_the_query() {
    assert_eq!(
        clip_span(s(1.0), s(3.0), s(0.001), s(f32::INFINITY)),
        Some(Span { enter: s(1.0), exit: s(3.0) })
    );
    assert_eq!(
        clip_span(s(-1.0), s(3.0), s(0.001), s(2.0)),
        Some(Span { enter: s(0.001), exit: s(2.0) })
    );
    assert_eq!(clip_span(s(1.0), s(3.0), s(3.0), s(9.0)), None);
    assert_eq!(clip_span(s(1.0), s(3.0), s(0.0), s(1.0)), None);
    assert_eq!(
        clip_span(s(-4.0), s(3.0), s(-2.0), s(9.0)),
        Some(Span { enter: s(0.0), exit: s(3.0) })
    );
}

#[test]
fn medium_scatters_within_the_boundary() {
    let medium = ConstantMedium::new(Sphere::new(p3(0.0, 0.0, 0.0), s(1.0), 0), 6, s(-1.0 / 0.5));
    let inside = FlightProbe {
        hit_distance: s(0.5),
        distance_inside_boundary: s(2.0),
        t: s(4.5),
        point: p3(0.5, 0.0, 0.0),
    };
    assert_eq!(
        medium.scatter_at(&inside),
        Some(HitRecord {
            point: p3(0.5, 0.0, 0.0),
            normal: p3(1.0, 0.0, 0.0),
            t: s(4.5),
            front_face: true,
            material: 6,
            u: s(0.0),
            v: s(0.0),
        })
    );
    let at_the_edge = FlightProbe { hit_distance: s(2.0), ..inside };
    assert!(medium.scatter_at(&at_the_edge).is_some());
    let beyond = FlightProbe { hit_distance: s(2.5), ..inside };
    assert_eq!(medium.scatter_at(&beyond), None);
}

fn fixed_flight(distance: f32) -> impl Fn(&Ray, Scalar, Span) -> FlightProbe {
    move |ray: &Ray, _neg_inv_density: Scalar, span: Span| {
        let length = V::of(ray.direction()).length();
        let t = f(span.enter) + distance / length;
        FlightProbe {
            hit_distance: s(distance),
            distance_inside_boundary: s((f(span.exit) - f(span.enter)) * length),
            t: s(t),
            point: ray_at(ray, t).vec3(),
        }
    }
}

#[test]
fn medium_hit_through_its_boundary() {
    let medium = ConstantMedium::new(Sphere::new(p3(0.0, 0.0, 0.0), s(1.0), 0), 6, s(-2.0));
    let nudge = |t: Scalar| s(f(t) + 0.0001);
    let ray = make_ray(V(5.0, 0.0, 0.0), V(-1.0, 0.0, 0.0));
    let hit = medium
        .hit(&ray, s(0.001), s(f32::INFINITY), &hit_sphere, &nudge, &fixed_flight(0.5))
        .unwrap();
    assert_eq!(f(hit.t), 4.5);
    assert_eq!(hit.material, 6);
    assert_eq!(V::of(hit.point), V(0.5, 0.0, 0.0));
    // the ray leaves the sphere after two units
    assert_eq!(
        medium.hit(&ray, s(0.001), s(f32::INFINITY), &hit_sphere, &nudge, &fixed_flight(2.5)),
        None
    );
    // the query ends before the ray enters
    assert_eq!(medium.hit(&ray, s(0.001), s(3.0), &hit_sphere, &nudge, &fixed_flight(0.5)), None);
    let beside = make_ray(V(5.0, 3.0, 0.0), V(-1.0, 0.0, 0.0));
    assert_eq!(
        medium.hit(&beside, s(0.001), s(f32::INFINITY), &hit_sphere, &nudge, &fixed_flight(0.5)),
        None
    );
    // from inside, the span starts at the origin of the ray
    let within = make_ray(V(0.0, 0.0, 0.0), V(-1.0, 0.0, 0.0));
    let hit_within = medium
        .hit(&within, s(0.001), s(f32::INFINITY), &hit_sphere, &nudge, &fixed_flight(0.5))
        .unwrap();
    assert_eq!(f(hit_within.t), 0.501);
    let boxed = |sp: &Sphere, tf: Time| Some(sphere_box(sp, tf));
    assert_eq!(
        medium.bounding_box(Time::new(s(0.0), s(1.0)), &boxed),
        Some(Aabb::new(p3(-1.0, -1.0, -1.0), p3(1.0, 1.0, 1.0)))
    );
}

#[test]
fn denser_medium_scatters_sooner_on_average() {
    // free flights -ln(U) / density through a boundary too large to leave
    let mut mean_flight = |density: f32, seed: u64| {
        let medium =
            ConstantMedium::new(Sphere::new(p3(0.0, 0.0, 0.0), s(1000.0), 0), 6, s(-1.0 / density));
        let rng = std::cell::RefCell::new(Lcg(seed));
        let sampled = |ray: &Ray, neg_inv_density: Scalar, span: Span| {
            let u = rng.borrow_mut().next().max(1.0e-7);
            let distance = f(neg_inv_density) * u.ln();
            fixed_flight(distance)(ray, neg_inv_density, span)
        };
        let nudge = |t: Scalar| s(f(t) + 0.0001);
        let ray = make_ray(V(0.0, 0.0, 0.0), V(1.0, 0.0, 0.0));
        let mut total = 0.0f64;
        for _ in 0..20000 {
            let hit = medium
                .hit(&ray, s(0.0), s(f32::INFINITY), &hit_sphere, &nudge, &sampled)
                .unwrap();
            total += f(hit.t) as f64;
        }
        total / 20000.0
    };
    let thin = mean_flight(0.5, 99);
    let thick = mean_flight(2.0, 100);
    assert!((thin - 2.0).abs() < 0.1);
    assert!((thick - 0.5).abs() < 0.05);
    assert!(thick < thin);
}
