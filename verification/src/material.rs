//! The scattering model: a closed variant over diffuse (Lambertian),
//! reflective (Metal) and refractive (Dielectric) surfaces. `scatter` turns an
//! incoming ray and a hit into an outgoing ray and a color attenuation, or
//! declares the ray absorbed.

use vstd::prelude::*;
use crate::fixed::{
    clamp01_spec, fx_add, fx_add_spec, fx_div, fx_div_spec, fx_mul, fx_mul_spec, fx_neg,
    fx_neg_spec, fx_sub, fx_sub_spec, fx_sqrt, fx_sqrt_spec, FX_ONE,
};
use crate::ray::{Ray, RayV};
use crate::rng::gen_unit_raw;
use crate::sphere::{random_in_unit_sphere, unit_ball_sample, HitRecord, HitView};
use crate::vector::{
    dot, dot_spec, unit_vector, unit_vector_spec, v3_add, v3_add_spec, v3_neg, v3_neg_spec,
    v3_scale, v3_scale_spec, v3_sub, v3_sub_spec, vector_length, vector_length_spec, Vector3, V3,
};

verus! {

/// Albedo components lie in `[0, 1]`.
pub open spec fn albedo_wf(a: V3) -> bool {
    &&& 0 <= a.x <= FX_ONE as int
    &&& 0 <= a.y <= FX_ONE as int
    &&& 0 <= a.z <= FX_ONE as int
}

/// A diffuse surface with a base color.
#[derive(Clone, Copy, PartialEq, Eq, Structural, Debug)]
pub struct Lambertian {
    pub albedo: Vector3,
}

/// A reflective surface with a base color and a roughness in `[0, 1]`.
#[derive(Clone, Copy, PartialEq, Eq, Structural, Debug)]
pub struct Metal {
    pub albedo: Vector3,
    pub fuzz: i64,
}

/// A glass-like surface with a positive refractive index.
#[derive(Clone, Copy, PartialEq, Eq, Structural, Debug)]
pub struct Dielectric {
    pub ref_idx: i64,
}

/// The closed set of materials a sphere can carry.
#[derive(Clone, Copy, PartialEq, Eq, Structural, Debug)]
pub enum Material {
    Lambertian(Lambertian),
    Metal(Metal),
    Dielectric(Dielectric),
}

/// Validity of a material's parameters: albedo in `[0, 1]^3`, fuzz in
/// `[0, 1]`, refractive index positive.
pub open spec fn material_wf(m: Material) -> bool {
    match m {
        Material::Lambertian(l) => albedo_wf(l.albedo@),
        Material::Metal(mt) => albedo_wf(mt.albedo@) && 0 <= mt.fuzz <= FX_ONE,
        Material::Dielectric(d) => d.ref_idx > 0,
    }
}

impl Lambertian {
    pub fn new(albedo_x: i64, albedo_y: i64, albedo_z: i64) -> (r: Lambertian)
        requires
            0 <= albedo_x <= FX_ONE,
            0 <= albedo_y <= FX_ONE,
            0 <= albedo_z <= FX_ONE,
        ensures
            r.albedo == (Vector3 { x: albedo_x, y: albedo_y, z: albedo_z }),
            albedo_wf(r.albedo@),
    {
        Lambertian { albedo: Vector3::new(albedo_x, albedo_y, albedo_z) }
    }
}

impl Metal {
    /// The fuzz parameter is silently clamped into `[0, 1]`.
    pub fn new(albedo_x: i64, albedo_y: i64, albedo_z: i64, fuzz: i64) -> (r: Metal)
        requires
            0 <= albedo_x <= FX_ONE,
            0 <= albedo_y <= FX_ONE,
            0 <= albedo_z <= FX_ONE,
        ensures
            r.albedo == (Vector3 { x: albedo_x, y: albedo_y, z: albedo_z }),
            r.fuzz as int == clamp01_spec(fuzz as int),
            albedo_wf(r.albedo@),
            0 <= r.fuzz <= FX_ONE,
    {
        let f: i64 = crate::fixed::clamp01(fuzz);
        Metal { albedo: Vector3::new(albedo_x, albedo_y, albedo_z), fuzz: f }
    }
}

impl Dielectric {
    pub fn new(ref_idx: i64) -> (r: Dielectric)
        requires
            ref_idx > 0,
        ensures
            r.ref_idx == ref_idx,
    {
        Dielectric { ref_idx }
    }
}

/// Views an optional scatter result.
pub open spec fn opt_scatter_view(r: Option<(Ray, Vector3)>) -> Option<(RayV, V3)> {
    match r {
        Some((sc, att)) => Some((sc@, att@)),
        None => None,
    }
}

/// Views an optional vector.
pub open spec fn opt_v3_view(r: Option<Vector3>) -> Option<V3> {
    match r {
        Some(v) => Some(v@),
        None => None,
    }
}

/// Mirror reflection about a normal: `v - 2 * dot(v, n) * n`.
pub open spec fn reflect_spec(v: V3, n: V3) -> V3 {
    v3_sub_spec(v, v3_scale_spec(n, fx_add_spec(dot_spec(v, n), dot_spec(v, n))))
}

pub fn reflect(v: &Vector3, n: &Vector3) -> (r: Vector3)
    ensures
        r@ == reflect_spec(v@, n@),
{
    let d = dot(v, n);
    v3_sub(v, &v3_scale(n, fx_add(d, d)))
}

/// Snell refraction of `v` through a surface with outward normal `n` and
/// index ratio `ni_over_nt`; `None` means total internal reflection.
pub open spec fn refract_spec(v: V3, n: V3, ni_over_nt: int) -> Option<V3> {
    let uv = unit_vector_spec(v);
    let dt = dot_spec(uv, n);
    let disc = fx_sub_spec(
        FX_ONE as int,
        fx_mul_spec(fx_mul_spec(ni_over_nt, ni_over_nt), fx_sub_spec(FX_ONE as int, fx_mul_spec(dt, dt))),
    );
    if disc > 0 {
        Some(
            v3_sub_spec(
                v3_scale_spec(v3_sub_spec(uv, v3_scale_spec(n, dt)), ni_over_nt),
                v3_scale_spec(n, fx_sqrt_spec(disc)),
            ),
        )
    } else {
        None
    }
}

fn refract(v: &Vector3, n: &Vector3, ni_over_nt: i64) -> (r: Option<Vector3>)
    ensures
        opt_v3_view(r) == refract_spec(v@, n@, ni_over_nt as int),
{
    let uv = unit_vector(v);
    let dt = dot(&uv, n);
    let discriminant = fx_sub(
        FX_ONE,
        fx_mul(fx_mul(ni_over_nt, ni_over_nt), fx_sub(FX_ONE, fx_mul(dt, dt))),
    );

    if discriminant > 0 {
        Some(
            v3_sub(
                &v3_scale(&v3_sub(&uv, &v3_scale(n, dt)), ni_over_nt),
                &v3_scale(n, fx_sqrt(discriminant)),
            ),
        )
    } else {
        None
    }
}

/// The fifth power, as the chained fixed-point product.
pub open spec fn fx_pow5_spec(a: int) -> int {
    fx_mul_spec(fx_mul_spec(fx_mul_spec(fx_mul_spec(a, a), a), a), a)
}

/// Schlick's approximation of the Fresnel reflectance:
/// `r0 + (1 - r0) * (1 - cosine)^5` with `r0 = ((1 - ri) / (1 + ri))^2`.
pub open spec fn schlick_spec(cosine: int, ref_idx: int) -> int {
    let r0 = fx_div_spec(
        fx_sub_spec(FX_ONE as int, ref_idx),
        fx_add_spec(FX_ONE as int, ref_idx),
    );
    let r0sq = fx_mul_spec(r0, r0);
    fx_add_spec(
        r0sq,
        fx_mul_spec(
            fx_sub_spec(FX_ONE as int, r0sq),
            fx_pow5_spec(fx_sub_spec(FX_ONE as int, cosine)),
        ),
    )
}

fn schlick(cosine: i64, ref_idx: i64) -> (r: i64)
    ensures
        r as int == schlick_spec(cosine as int, ref_idx as int),
{
    let r0 = fx_div(fx_sub(FX_ONE, ref_idx), fx_add(FX_ONE, ref_idx));
    let r0sq = fx_mul(r0, r0);
    let base = fx_sub(FX_ONE, cosine);
    let pow5 = fx_mul(fx_mul(fx_mul(fx_mul(base, base), base), base), base);
    fx_add(r0sq, fx_mul(fx_sub(FX_ONE, r0sq), pow5))
}

/// A surface's scattering behavior, pinned to a spec-level predicate over the
/// incoming ray, the hit and the result.
pub trait Scatterable {
    spec fn scatter_ok(&self, ray: RayV, rec: HitView, r: Option<(RayV, V3)>) -> bool;

    fn scatter(&self, ray_in: &Ray, record: &HitRecord) -> (r: Option<(Ray, Vector3)>)
        ensures
            self.scatter_ok(ray_in@, record@, opt_scatter_view(r)),
    ;
}

/// A diffuse bounce: `normal + q` for a sample `q` in the unit ball.
pub open spec fn lambertian_direction(rec: HitView, q: V3) -> V3 {
    v3_add_spec(rec.normal, q)
}

/// Diffuse surfaces always scatter from the hit point, attenuated by the
/// albedo.
pub open spec fn lambertian_scatter_ok(
    albedo: V3,
    ray: RayV,
    rec: HitView,
    r: Option<(RayV, V3)>,
) -> bool {
    match r {
        Some((sc, att)) => {
            &&& att == albedo
            &&& sc.origin == rec.p
            &&& exists|q: V3| unit_ball_sample(q) && sc.direction == lambertian_direction(rec, q)
        },
        None => false,
    }
}

impl Scatterable for Lambertian {
    open spec fn scatter_ok(&self, ray: RayV, rec: HitView, r: Option<(RayV, V3)>) -> bool {
        lambertian_scatter_ok(self.albedo@, ray, rec, r)
    }

    fn scatter(&self, ray_in: &Ray, record: &HitRecord) -> (r: Option<(Ray, Vector3)>)
    {
        let sample = random_in_unit_sphere();
        let scattered = Ray::new(record.p, v3_add(&record.normal, &sample));
        proof {
            assert(unit_ball_sample(sample@) && scattered@.direction == lambertian_direction(
                record@,
                sample@,
            ));
        }
        Some((scattered, self.albedo))
    }
}

/// A metallic bounce: the unit incoming direction mirrored about the normal,
/// perturbed by `fuzz * q` for a sample `q` in the unit ball.
pub open spec fn metal_direction(m: Metal, ray: RayV, rec: HitView, q: V3) -> V3 {
    v3_add_spec(
        reflect_spec(unit_vector_spec(ray.direction), rec.normal),
        v3_scale_spec(q, m.fuzz as int),
    )
}

/// Rough metal scatters the fuzzed mirror direction, attenuated by the
/// albedo, and absorbs the ray when that direction points into the surface.
pub open spec fn metal_scatter_ok(m: Metal, ray: RayV, rec: HitView, r: Option<(RayV, V3)>) -> bool {
    match r {
        Some((sc, att)) => {
            &&& att == m.albedo@
            &&& sc.origin == rec.p
            &&& exists|q: V3| unit_ball_sample(q) && sc.direction == metal_direction(m, ray, rec, q)
            &&& dot_spec(sc.direction, rec.normal) > 0
        },
        None => exists|q: V3|
            unit_ball_sample(q) && dot_spec(metal_direction(m, ray, rec, q), rec.normal) <= 0,
    }
}

impl Scatterable for Metal {
    open spec fn scatter_ok(&self, ray: RayV, rec: HitView, r: Option<(RayV, V3)>) -> bool {
        metal_scatter_ok(*self, ray, rec, r)
    }

    fn scatter(&self, ray_in: &Ray, record: &HitRecord) -> (r: Option<(Ray, Vector3)>)
    {
        let reflected = reflect(&unit_vector(&ray_in.direction), &record.normal);
        let sample = random_in_unit_sphere();
        let scattered = Ray::new(record.p, v3_add(&reflected, &v3_scale(&sample, self.fuzz)));
        proof {
            assert(unit_ball_sample(sample@) && scattered@.direction == metal_direction(
                *self,
                ray_in@,
                record@,
                sample@,
            ));
        }
        if dot(&scattered.direction, &record.normal) > 0 {
            Some((scattered, self.albedo))
        } else {
            None
        }
    }
}

/// The outward-facing normal at a dielectric interface: flipped when the ray
/// exits the material.
pub open spec fn dielectric_outward(ray: RayV, rec: HitView) -> V3 {
    if dot_spec(ray.direction, rec.normal) > 0 {
        v3_neg_spec(rec.normal)
    } else {
        rec.normal
    }
}

/// The refraction ratio at the interface: `ri` on exit, `1 / ri` on entry.
pub open spec fn dielectric_ratio(d: Dielectric, ray: RayV, rec: HitView) -> int {
    if dot_spec(ray.direction, rec.normal) > 0 {
        d.ref_idx as int
    } else {
        fx_div_spec(FX_ONE as int, d.ref_idx as int)
    }
}

/// The cosine handed to the Schlick approximation.
pub open spec fn dielectric_cosine(d: Dielectric, ray: RayV, rec: HitView) -> int {
    let dd = dot_spec(ray.direction, rec.normal);
    let len = vector_length_spec(ray.direction);
    if dd > 0 {
        fx_div_spec(fx_mul_spec(d.ref_idx as int, dd), len)
    } else {
        fx_div_spec(fx_neg_spec(dd), len)
    }
}

/// Where a dielectric sends the ray, as a function of the uniform draw `u`:
/// the Snell refraction when one exists and the draw does not fall under the
/// Schlick reflectance, else the mirror reflection (which also covers total
/// internal reflection).
pub open spec fn dielectric_direction(d: Dielectric, ray: RayV, rec: HitView, u: int) -> V3 {
    match refract_spec(ray.direction, dielectric_outward(ray, rec), dielectric_ratio(d, ray, rec)) {
        Some(refr) => if u >= schlick_spec(dielectric_cosine(d, ray, rec), d.ref_idx as int) {
            refr
        } else {
            reflect_spec(ray.direction, rec.normal)
        },
        None => reflect_spec(ray.direction, rec.normal),
    }
}

/// Glass always scatters from the hit point and attenuates by exactly
/// `(1, 1, 1)`: no color is lost or gained at the interface, whichever of the
/// stochastic reflect/refract choices is taken.
pub open spec fn dielectric_scatter_ok(
    d: Dielectric,
    ray: RayV,
    rec: HitView,
    r: Option<(RayV, V3)>,
) -> bool {
    match r {
        Some((sc, att)) => {
            &&& att == (V3 { x: FX_ONE as int, y: FX_ONE as int, z: FX_ONE as int })
            &&& sc.origin == rec.p
            &&& exists|u: int|
                0 <= u < FX_ONE as int && sc.direction == dielectric_direction(d, ray, rec, u)
        },
        None => false,
    }
}

impl Scatterable for Dielectric {
    open spec fn scatter_ok(&self, ray: RayV, rec: HitView, r: Option<(RayV, V3)>) -> bool {
        dielectric_scatter_ok(*self, ray, rec, r)
    }

    fn scatter(&self, ray_in: &Ray, record: &HitRecord) -> (r: Option<(Ray, Vector3)>)
    {
        let dir = dot(&ray_in.direction, &record.normal);
        let outward_normal = if dir > 0 {
            v3_neg(&record.normal)
        } else {
            record.normal
        };
        let ni_over_nt = if dir > 0 {
            self.ref_idx
        } else {
            fx_div(FX_ONE, self.ref_idx)
        };
        let len = vector_length(&ray_in.direction);
        let cosine = if dir > 0 {
            fx_div(fx_mul(self.ref_idx, dir), len)
        } else {
            fx_div(fx_neg(dir), len)
        };

        let white = Vector3::new(FX_ONE, FX_ONE, FX_ONE);
        let draw = gen_unit_raw();
        match refract(&ray_in.direction, &outward_normal, ni_over_nt) {
            Some(refracted) => {
                if draw >= schlick(cosine, self.ref_idx) {
                    let out = Ray::new(record.p, refracted);
                    proof {
                        assert(0 <= draw as int && (draw as int) < FX_ONE as int && out@.direction
                            == dielectric_direction(*self, ray_in@, record@, draw as int));
                    }
                    return Some((out, white));
                }
                let out = Ray::new(record.p, reflect(&ray_in.direction, &record.normal));
                proof {
                    assert(0 <= draw as int && (draw as int) < FX_ONE as int && out@.direction
                        == dielectric_direction(*self, ray_in@, record@, draw as int));
                }
                Some((out, white))
            },
            None => {
                let out = Ray::new(record.p, reflect(&ray_in.direction, &record.normal));
                proof {
                    assert(0 <= draw as int && (draw as int) < FX_ONE as int && out@.direction
                        == dielectric_direction(*self, ray_in@, record@, draw as int));
                }
                Some((out, white))
            },
        }
    }
}

/// The material's behavior is its variant's behavior.
pub open spec fn material_scatter_ok(
    m: Material,
    ray: RayV,
    rec: HitView,
    r: Option<(RayV, V3)>,
) -> bool {
    match m {
        Material::Lambertian(l) => lambertian_scatter_ok(l.albedo@, ray, rec, r),
        Material::Metal(mt) => metal_scatter_ok(mt, ray, rec, r),
        Material::Dielectric(d) => dielectric_scatter_ok(d, ray, rec, r),
    }
}

impl Scatterable for Material {
    open spec fn scatter_ok(&self, ray: RayV, rec: HitView, r: Option<(RayV, V3)>) -> bool {
        material_scatter_ok(*self, ray, rec, r)
    }

    fn scatter(&self, ray_in: &Ray, record: &HitRecord) -> (r: Option<(Ray, Vector3)>)
    {
        match self {
            Material::Lambertian(inner) => inner.scatter(ray_in, record),
            Material::Metal(inner) => inner.scatter(ray_in, record),
            Material::Dielectric(inner) => inner.scatter(ray_in, record),
        }
    }
}

/// The most a material can pass along per channel: its albedo for diffuse
/// and metallic surfaces, white for glass.
pub open spec fn material_att_cap(m: Material) -> V3 {
    match m {
        Material::Lambertian(l) => l.albedo@,
        Material::Metal(mt) => mt.albedo@,
        Material::Dielectric(d) => V3 { x: FX_ONE as int, y: FX_ONE as int, z: FX_ONE as int },
    }
}

/// Whatever a well-formed material returns, the attenuation components lie in
/// `[0, 1]`: Lambertian and Metal attenuate by their albedo, Dielectric by
/// `(1, 1, 1)`.
pub proof fn lemma_scatter_attenuation_wf(
    m: Material,
    ray: RayV,
    rec: HitView,
    r: Option<(RayV, V3)>,
)
    requires
        material_wf(m),
        material_scatter_ok(m, ray, rec, r),
    ensures
        match r {
            Some((sc, att)) => albedo_wf(att),
            None => true,
        },
{
}

} // verus!
