//! Sphere geometry: the ray–sphere intersection test, the transient hit
//! record, and the scene — an ordered list of spheres with nearest-hit
//! aggregation.

use vstd::prelude::*;
use crate::fixed::{
    fx_div_spec, fx_mul_spec, fx_neg_spec, fx_sqrt_spec, fx_sub_spec, fx_div, fx_mul,
    fx_neg, fx_sqrt, fx_sub, FX_ONE,
};
use crate::material::Material;
use crate::ray::{point_at_spec, Ray, RayV};
use crate::rng::gen_unit_raw;
use crate::vector::{
    dot, dot_spec, v3_div_scalar, v3_div_scalar_spec, v3_sub, v3_sub_spec, Vector3, V3,
};

verus! {

/// A point the rejection sampler may hand out: inside the unit ball, with
/// each coordinate drawn from `[-1, 1]`.
pub open spec fn unit_ball_sample(p: V3) -> bool {
    &&& dot_spec(p, p) < FX_ONE as int
    &&& -(FX_ONE as int) <= p.x <= FX_ONE as int
    &&& -(FX_ONE as int) <= p.y <= FX_ONE as int
    &&& -(FX_ONE as int) <= p.z <= FX_ONE as int
}

/// Rejection sampling: draw a point uniformly in the cube `[-1, 1]^3` until
/// its squared length is below 1, which yields a uniform distribution inside
/// the unit ball. The draw loop carries a fuel counter only because every
/// loop here must name a decreasing measure; the fallback (the ball's center)
/// is unreachable in practice, as it takes 2^64 consecutive rejections.
pub fn random_in_unit_sphere() -> (p: Vector3)
    ensures
        unit_ball_sample(p@),
{
    let mut fuel: u64 = 0xffff_ffff_ffff_ffff;
    while 0 < fuel
        invariant
            true,
        decreases fuel,
    {
        let x: i64 = 2 * gen_unit_raw() - FX_ONE;
        let y: i64 = 2 * gen_unit_raw() - FX_ONE;
        let z: i64 = 2 * gen_unit_raw() - FX_ONE;
        let p = Vector3::new(x, y, z);
        if dot(&p, &p) < FX_ONE {
            return p;
        }
        fuel = fuel - 1;
    }
    Vector3::new(0, 0, 0)
}

/// Spec-level view of a hit record.
pub ghost struct HitView {
    pub t: int,
    pub p: V3,
    pub normal: V3,
    pub material: Material,
}

/// The transient result of an intersection query, consumed immediately by
/// the integrator.
#[derive(Clone, Copy, PartialEq, Eq, Structural, Debug)]
pub struct HitRecord {
    pub t: i64,
    pub p: Vector3,
    pub normal: Vector3,
    pub material: Material,
}

impl View for HitRecord {
    type V = HitView;

    open spec fn view(&self) -> HitView {
        HitView { t: self.t as int, p: self.p@, normal: self.normal@, material: self.material }
    }
}

impl HitRecord {
    pub fn new(t: i64, p: Vector3, normal: Vector3, material: Material) -> (r: HitRecord)
        ensures
            r.t == t,
            r.p == p,
            r.normal == normal,
            r.material == material,
    {
        HitRecord { t, p, normal, material }
    }
}

/// Spec-level view of a sphere.
pub ghost struct SphereV {
    pub center: V3,
    pub radius: int,
    pub material: Material,
}

/// A sphere with a center, a radius (which may be negative, flipping the
/// outward normal to build hollow shells) and a material.
#[derive(Clone, Copy, PartialEq, Eq, Structural, Debug)]
pub struct Sphere {
    pub center: Vector3,
    pub radius: i64,
    pub material: Material,
}

impl View for Sphere {
    type V = SphereV;

    open spec fn view(&self) -> SphereV {
        SphereV { center: self.center@, radius: self.radius as int, material: self.material }
    }
}

impl Sphere {
    pub fn new(center: Vector3, radius: i64, material: Material) -> (r: Sphere)
        ensures
            r.center == center,
            r.radius == radius,
            r.material == material,
    {
        Sphere { center, radius, material }
    }
}

/// The quadratic coefficients of `|O + tD - C|^2 = r^2`: `a = dot(D, D)`,
/// `b = dot(O - C, D)`, `c = dot(O - C, O - C) - r^2`.
pub open spec fn sphere_quad_a(s: SphereV, r: RayV) -> int {
    dot_spec(r.direction, r.direction)
}

pub open spec fn sphere_quad_b(s: SphereV, r: RayV) -> int {
    dot_spec(v3_sub_spec(r.origin, s.center), r.direction)
}

pub open spec fn sphere_quad_c(s: SphereV, r: RayV) -> int {
    fx_sub_spec(
        dot_spec(v3_sub_spec(r.origin, s.center), v3_sub_spec(r.origin, s.center)),
        fx_mul_spec(s.radius, s.radius),
    )
}

/// The discriminant `b^2 - a*c`.
pub open spec fn sphere_discriminant(s: SphereV, r: RayV) -> int {
    fx_sub_spec(
        fx_mul_spec(sphere_quad_b(s, r), sphere_quad_b(s, r)),
        fx_mul_spec(sphere_quad_a(s, r), sphere_quad_c(s, r)),
    )
}

/// The smaller quadratic root `(-b - sqrt(disc)) / a`; the larger root is
/// intentionally never tried.
pub open spec fn sphere_root(s: SphereV, r: RayV) -> int {
    fx_div_spec(
        fx_sub_spec(fx_neg_spec(sphere_quad_b(s, r)), fx_sqrt_spec(sphere_discriminant(s, r))),
        sphere_quad_a(s, r),
    )
}

/// What a sphere's intersection test returns: a hit when the discriminant is
/// strictly positive (a tangent ray counts as a miss) and the smaller root
/// lies in the open interval `(t_min, t_max)`. The normal
/// `(point - center) / radius` flips naturally for a negative radius.
pub open spec fn sphere_hit_spec(s: SphereV, r: RayV, t_min: int, t_max: int) -> Option<HitView> {
    let disc = sphere_discriminant(s, r);
    let t = sphere_root(s, r);
    if disc > 0 && t_min < t && t < t_max {
        Some(
            HitView {
                t,
                p: point_at_spec(r, t),
                normal: v3_div_scalar_spec(v3_sub_spec(point_at_spec(r, t), s.center), s.radius),
                material: s.material,
            },
        )
    } else {
        None
    }
}

/// Views an optional hit record.
pub open spec fn opt_hit_view(o: Option<HitRecord>) -> Option<HitView> {
    match o {
        Some(h) => Some(h@),
        None => None,
    }
}

/// Anything a ray can be tested against, with the result pinned to a
/// spec-level description of the intersection.
pub trait Hitable {
    spec fn hit_spec(&self, ray: RayV, t_min: int, t_max: int) -> Option<HitView>;

    fn hit(&self, ray: &Ray, t_min: i64, t_max: i64) -> (r: Option<HitRecord>)
        ensures
            opt_hit_view(r) == self.hit_spec(ray@, t_min as int, t_max as int),
    ;
}

impl Hitable for Sphere {
    open spec fn hit_spec(&self, ray: RayV, t_min: int, t_max: int) -> Option<HitView> {
        sphere_hit_spec(self@, ray, t_min, t_max)
    }

    fn hit(&self, ray: &Ray, t_min: i64, t_max: i64) -> (r: Option<HitRecord>)
    {
        let oc = v3_sub(&ray.origin, &self.center);
        let a = dot(&ray.direction, &ray.direction);
        let b = dot(&oc, &ray.direction);
        let c = fx_sub(dot(&oc, &oc), fx_mul(self.radius, self.radius));
        let discriminant = fx_sub(fx_mul(b, b), fx_mul(a, c));

        if discriminant > 0 {
            let temp = fx_div(fx_sub(fx_neg(b), fx_sqrt(discriminant)), a);
            if temp < t_max && temp > t_min {
                let p = ray.point_at_parameter(temp);
                return Some(
                    HitRecord::new(
                        temp,
                        p,
                        v3_div_scalar(&v3_sub(&p, &self.center), self.radius),
                        self.material,
                    ),
                );
            }
        }

        None
    }
}

/// The scene: an ordered list of spheres.
pub struct SphereList {
    pub list: Vec<Sphere>,
}

/// The linear scan over the list, tightening the upper bound to the best hit
/// found so far: exactly what `SphereList::hit` computes.
pub open spec fn scan_hit(spheres: Seq<Sphere>, ray: RayV, t_min: int, t_max: int) -> Option<
    HitView,
>
    decreases spheres.len(),
{
    if spheres.len() == 0 {
        None
    } else {
        let prev = scan_hit(spheres.drop_last(), ray, t_min, t_max);
        let bound = match prev {
            Some(h) => h.t,
            None => t_max,
        };
        match sphere_hit_spec(spheres.last()@, ray, t_min, bound) {
            Some(h) => Some(h),
            None => prev,
        }
    }
}

impl Hitable for SphereList {
    open spec fn hit_spec(&self, ray: RayV, t_min: int, t_max: int) -> Option<HitView> {
        scan_hit(self.list@, ray, t_min, t_max)
    }

    fn hit(&self, ray: &Ray, t_min: i64, t_max: i64) -> (r: Option<HitRecord>)
    {
        let mut closest_so_far: i64 = t_max;
        let mut record: Option<HitRecord> = None;
        let mut i: usize = 0;

        while i < self.list.len()
            invariant
                i <= self.list.len(),
                opt_hit_view(record) == scan_hit(
                    self.list@.take(i as int),
                    ray@,
                    t_min as int,
                    t_max as int,
                ),
                closest_so_far as int == match opt_hit_view(record) {
                    Some(h) => h.t,
                    None => t_max as int,
                },
            decreases self.list.len() - i,
        {
            let sphere = &self.list[i];
            let res = sphere.hit(ray, t_min, closest_so_far);
            proof {
                assert(self.list@.take(i as int + 1).drop_last() =~= self.list@.take(i as int));
                assert(self.list@.take(i as int + 1).last() == self.list@[i as int]);
            }
            match res {
                Some(temp_record) => {
                    closest_so_far = temp_record.t;
                    record = Some(temp_record);
                },
                None => {},
            }
            i = i + 1;
        }
        proof {
            assert(self.list@.take(self.list@.len() as int) =~= self.list@);
        }
        record
    }
}

/// The hit of sphere `s` (over the full range) is no nearer than `t`.
pub open spec fn hit_beats(s: Sphere, ray: RayV, t_min: int, t_max: int, t: int) -> bool {
    match sphere_hit_spec(s@, ray, t_min, t_max) {
        Some(g) => t <= g.t,
        None => true,
    }
}

/// Tightening the upper bound keeps exactly the hits that beat it.
proof fn lemma_sphere_hit_tighten(s: Sphere, ray: RayV, t_min: int, c: int, t_max: int)
    requires
        c <= t_max,
    ensures
        sphere_hit_spec(s@, ray, t_min, c) == (match sphere_hit_spec(s@, ray, t_min, t_max) {
            Some(h) => if h.t < c {
                Some(h)
            } else {
                None::<HitView>
            },
            None => None::<HitView>,
        }),
{
}

/// Normal orientation: at any hit the normal `(point - center) / radius`
/// points away from the center for a positive radius and toward it for a
/// negative radius (each rounded component keeps the sign of the exact one,
/// so the inner product cannot cross zero).
pub proof fn lemma_normal_orientation(s: SphereV, r: RayV, t_min: int, t_max: int)
    ensures
        match sphere_hit_spec(s, r, t_min, t_max) {
            Some(h) => {
                &&& s.radius > 0 ==> dot_spec(h.normal, v3_sub_spec(h.p, s.center)) >= 0
                &&& s.radius < 0 ==> dot_spec(h.normal, v3_sub_spec(h.p, s.center)) <= 0
            },
            None => true,
        },
{
    match sphere_hit_spec(s, r, t_min, t_max) {
        Some(h) => {
            let pc = v3_sub_spec(h.p, s.center);
            crate::fixed::lemma_fx_div_sign(pc.x, s.radius);
            crate::fixed::lemma_fx_div_sign(pc.y, s.radius);
            crate::fixed::lemma_fx_div_sign(pc.z, s.radius);
            crate::fixed::lemma_fx_mul_sign(fx_div_spec(pc.x, s.radius), pc.x);
            crate::fixed::lemma_fx_mul_sign(fx_div_spec(pc.y, s.radius), pc.y);
            crate::fixed::lemma_fx_mul_sign(fx_div_spec(pc.z, s.radius), pc.z);
        },
        None => {},
    }
}

/// Nearest-hit invariant: the scan returns the record of some sphere whose
/// hit parameter is minimal among all spheres tested independently over the
/// full range, and returns nothing exactly when every sphere misses.
pub proof fn lemma_nearest_hit(spheres: Seq<Sphere>, ray: RayV, t_min: int, t_max: int)
    ensures
        match scan_hit(spheres, ray, t_min, t_max) {
            Some(h) => {
                &&& t_min < h.t < t_max
                &&& exists|i: int|
                    0 <= i < spheres.len() && sphere_hit_spec(spheres[i]@, ray, t_min, t_max)
                        == Some(h)
                &&& forall|i: int|
                    0 <= i < spheres.len() ==> hit_beats(spheres[i], ray, t_min, t_max, h.t)
            },
            None => forall|i: int|
                0 <= i < spheres.len() ==> sphere_hit_spec(spheres[i]@, ray, t_min, t_max)
                    == None::<HitView>,
        },
    decreases spheres.len(),
{
    if spheres.len() > 0 {
        let rest = spheres.drop_last();
        lemma_nearest_hit(rest, ray, t_min, t_max);
        let prev = scan_hit(rest, ray, t_min, t_max);
        let bound = match prev {
            Some(h) => h.t,
            None => t_max,
        };
        let last = spheres.last();
        lemma_sphere_hit_tighten(last, ray, t_min, bound, t_max);
        assert(forall|i: int| 0 <= i < rest.len() ==> spheres[i] == rest[i]);
        let n = spheres.len() - 1;
        match sphere_hit_spec(last@, ray, t_min, bound) {
            Some(h) => {
                assert(sphere_hit_spec(spheres[n]@, ray, t_min, t_max) == Some(h));
                assert(forall|i: int|
                    0 <= i < n ==> hit_beats(spheres[i], ray, t_min, t_max, h.t));
            },
            None => {
                match prev {
                    Some(hp) => {
                        let w = choose|i: int|
                            0 <= i < rest.len() && sphere_hit_spec(rest[i]@, ray, t_min, t_max)
                                == Some(hp);
                        assert(sphere_hit_spec(spheres[w]@, ray, t_min, t_max) == Some(hp));
                        assert(hit_beats(spheres[n], ray, t_min, t_max, hp.t));
                    },
                    None => {
                        assert(sphere_hit_spec(spheres[n]@, ray, t_min, t_max)
                            == None::<HitView>);
                    },
                }
            },
        }
    }
}

} // verus!
