//! The camera: maps normalized image-plane coordinates `(s, t)` in `[0, 1]^2`
//! to primary rays, with an optional lens aperture for depth of field. With a
//! zero aperture the camera is a pinhole: `get_ray` is deterministic.

use vstd::prelude::*;
use crate::fixed::{
    fx_add, fx_add_spec, fx_div, fx_div_spec, fx_mul, fx_mul_spec, fx_sub, fx_sub_spec, FX_ONE,
};
use crate::ray::{Ray, RayV};
use crate::rng::gen_unit_raw;
use crate::vector::{
    cross, cross_spec, dot, dot_spec, unit_vector, unit_vector_spec, v3_add, v3_add_spec,
    v3_scale, v3_scale_spec, v3_sub, v3_sub_spec, Vector3, V3,
};

verus! {

/// Fixed-point pi.
pub const PI_FX: i64 = 205887;

/// Fixed-point 360.
pub const DEG_360_FX: i64 = 23592960;

/// A point the disk sampler may hand out: inside the unit disk in the
/// `z = 0` plane.
pub open spec fn unit_disk_sample(p: V3) -> bool {
    &&& dot_spec(p, p) < FX_ONE as int
    &&& -(FX_ONE as int) <= p.x <= FX_ONE as int
    &&& -(FX_ONE as int) <= p.y <= FX_ONE as int
    &&& p.z == 0
}

/// Rejection sampling restricted to the `z = 0` plane: draw uniformly in the
/// square `[-1, 1]^2` until the point falls inside the unit disk. The fuel
/// counter only names a decreasing measure for the loop; the fallback (the
/// disk's center) takes 2^64 consecutive rejections to reach.
fn random_in_unit_disk() -> (p: Vector3)
    ensures
        unit_disk_sample(p@),
{
    let mut fuel: u64 = 0xffff_ffff_ffff_ffff;
    while 0 < fuel
        invariant
            true,
        decreases fuel,
    {
        let x: i64 = 2 * gen_unit_raw() - FX_ONE;
        let y: i64 = 2 * gen_unit_raw() - FX_ONE;
        let p = Vector3::new(x, y, 0);
        if dot(&p, &p) < FX_ONE {
            return p;
        }
        fuel = fuel - 1;
    }
    Vector3::new(0, 0, 0)
}

/// Sine by its odd series up to the seventh power:
/// `x - x^3/6 + x^5/120 - x^7/5040`.
pub open spec fn sin_poly_spec(x: int) -> int {
    let x2 = fx_mul_spec(x, x);
    let x3 = fx_mul_spec(x2, x);
    let x5 = fx_mul_spec(x3, x2);
    let x7 = fx_mul_spec(x5, x2);
    fx_sub_spec(
        fx_add_spec(fx_sub_spec(x, fx_div_spec(x3, 393216)), fx_div_spec(x5, 7864320)),
        fx_div_spec(x7, 330301440),
    )
}

/// Cosine by its even series up to the sixth power:
/// `1 - x^2/2 + x^4/24 - x^6/720`.
pub open spec fn cos_poly_spec(x: int) -> int {
    let x2 = fx_mul_spec(x, x);
    let x4 = fx_mul_spec(x2, x2);
    let x6 = fx_mul_spec(x4, x2);
    fx_sub_spec(
        fx_add_spec(fx_sub_spec(FX_ONE as int, fx_div_spec(x2, 131072)), fx_div_spec(x4, 1572864)),
        fx_div_spec(x6, 47185920),
    )
}

/// The tangent of half the vertical field of view, from degrees:
/// `tan(vfov * pi / 360) = sin / cos` on the series above.
pub open spec fn tan_half_fov_spec(vfov: int) -> int {
    let half = fx_div_spec(fx_mul_spec(vfov, PI_FX as int), DEG_360_FX as int);
    fx_div_spec(sin_poly_spec(half), cos_poly_spec(half))
}

fn sin_poly(x: i64) -> (r: i64)
    ensures
        r as int == sin_poly_spec(x as int),
{
    let x2 = fx_mul(x, x);
    let x3 = fx_mul(x2, x);
    let x5 = fx_mul(x3, x2);
    let x7 = fx_mul(x5, x2);
    fx_sub(
        fx_add(fx_sub(x, fx_div(x3, 393216)), fx_div(x5, 7864320)),
        fx_div(x7, 330301440),
    )
}

fn cos_poly(x: i64) -> (r: i64)
    ensures
        r as int == cos_poly_spec(x as int),
{
    let x2 = fx_mul(x, x);
    let x4 = fx_mul(x2, x2);
    let x6 = fx_mul(x4, x2);
    fx_sub(
        fx_add(fx_sub(FX_ONE, fx_div(x2, 131072)), fx_div(x4, 1572864)),
        fx_div(x6, 47185920),
    )
}

fn tan_half_fov(vfov: i64) -> (r: i64)
    ensures
        r as int == tan_half_fov_spec(vfov as int),
{
    let half = fx_div(fx_mul(vfov, PI_FX), DEG_360_FX);
    fx_div(sin_poly(half), cos_poly(half))
}

/// Spec-level view of a camera.
pub ghost struct CameraV {
    pub origin: V3,
    pub lower_left_corner: V3,
    pub horizontal: V3,
    pub vertical: V3,
    pub u: V3,
    pub v: V3,
    pub lens_radius: int,
}

/// The derived camera basis, immutable for the render's duration.
#[derive(Clone, Copy, PartialEq, Eq, Structural, Debug)]
pub struct Camera {
    pub origin: Vector3,
    pub lower_left_corner: Vector3,
    pub horizontal: Vector3,
    pub vertical: Vector3,
    pub u: Vector3,
    pub v: Vector3,
    pub lens_radius: i64,
}

impl View for Camera {
    type V = CameraV;

    open spec fn view(&self) -> CameraV {
        CameraV {
            origin: self.origin@,
            lower_left_corner: self.lower_left_corner@,
            horizontal: self.horizontal@,
            vertical: self.vertical@,
            u: self.u@,
            v: self.v@,
            lens_radius: self.lens_radius as int,
        }
    }
}

/// The camera basis derived from the user-facing parameters: an orthonormal
/// frame `w = unit(lookfrom - lookat)`, `u = unit(vup x w)`, `v = w x u`, an
/// image plane placed at the focus distance, and `lens_radius = aperture / 2`.
pub open spec fn camera_setup_spec(
    lookfrom: V3,
    lookat: V3,
    vup: V3,
    vfov: int,
    aspect: int,
    aperture: int,
    focus_dist: int,
) -> CameraV {
    let half_height = tan_half_fov_spec(vfov);
    let half_width = fx_mul_spec(aspect, half_height);
    let w = unit_vector_spec(v3_sub_spec(lookfrom, lookat));
    let u = unit_vector_spec(cross_spec(vup, w));
    let v = cross_spec(w, u);
    let hwf = fx_mul_spec(half_width, focus_dist);
    let hhf = fx_mul_spec(half_height, focus_dist);
    CameraV {
        origin: lookfrom,
        lower_left_corner: v3_sub_spec(
            v3_sub_spec(v3_sub_spec(lookfrom, v3_scale_spec(u, hwf)), v3_scale_spec(v, hhf)),
            v3_scale_spec(w, focus_dist),
        ),
        horizontal: v3_scale_spec(u, fx_add_spec(hwf, hwf)),
        vertical: v3_scale_spec(v, fx_add_spec(hhf, hhf)),
        u: u,
        v: v,
        lens_radius: fx_div_spec(aperture, 131072),
    }
}

/// The ray for image-plane coordinates `(s, t)` and a lens sample `q`: it
/// starts at the origin shifted by the scaled sample projected on the camera
/// basis, and aims at the image-plane point minus that same shift.
pub open spec fn lens_ray_spec(c: CameraV, s: int, t: int, q: V3) -> RayV {
    let rd = v3_scale_spec(q, c.lens_radius);
    let offset = v3_add_spec(v3_scale_spec(c.u, rd.x), v3_scale_spec(c.v, rd.y));
    RayV {
        origin: v3_add_spec(c.origin, offset),
        direction: v3_sub_spec(
            v3_sub_spec(
                v3_add_spec(
                    c.lower_left_corner,
                    v3_add_spec(v3_scale_spec(c.horizontal, s), v3_scale_spec(c.vertical, t)),
                ),
                c.origin,
            ),
            offset,
        ),
    }
}

/// The pinhole ray: the lens ray with the zero lens sample.
pub open spec fn pinhole_ray_spec(c: CameraV, s: int, t: int) -> RayV {
    lens_ray_spec(c, s, t, V3 { x: 0, y: 0, z: 0 })
}

impl Camera {
    pub fn new(
        lookfrom: Vector3,
        lookat: Vector3,
        vup: Vector3,
        vfov: i64,
        aspect: i64,
        aperture: i64,
        focus_dist: i64,
    ) -> (r: Camera)
        requires
            0 < vfov < 180 * FX_ONE,
            aspect > 0,
            aperture >= 0,
            focus_dist > 0,
        ensures
            r@ == camera_setup_spec(
                lookfrom@,
                lookat@,
                vup@,
                vfov as int,
                aspect as int,
                aperture as int,
                focus_dist as int,
            ),
    {
        let half_height = tan_half_fov(vfov);
        let half_width = fx_mul(aspect, half_height);

        let w = unit_vector(&v3_sub(&lookfrom, &lookat));
        let u = unit_vector(&cross(&vup, &w));
        let v = cross(&w, &u);

        let hwf = fx_mul(half_width, focus_dist);
        let hhf = fx_mul(half_height, focus_dist);

        Camera {
            origin: lookfrom,
            lower_left_corner: v3_sub(
                &v3_sub(&v3_sub(&lookfrom, &v3_scale(&u, hwf)), &v3_scale(&v, hhf)),
                &v3_scale(&w, focus_dist),
            ),
            horizontal: v3_scale(&u, fx_add(hwf, hwf)),
            vertical: v3_scale(&v, fx_add(hhf, hhf)),
            u: u,
            v: v,
            lens_radius: fx_div(aperture, 131072),
        }
    }

    /// With a zero aperture (`lens_radius == 0`) the result is deterministic
    /// and equals the pinhole ray.
    pub fn get_ray(&self, s: i64, t: i64) -> (r: Ray)
        ensures
            exists|q: V3| unit_disk_sample(q) && r@ == lens_ray_spec(self@, s as int, t as int, q),
            self.lens_radius == 0 ==> r@ == pinhole_ray_spec(self@, s as int, t as int),
    {
        let sample = random_in_unit_disk();
        let rd = v3_scale(&sample, self.lens_radius);
        let offset = v3_add(&v3_scale(&self.u, rd.x), &v3_scale(&self.v, rd.y));
        let r = Ray::new(
            v3_add(&self.origin, &offset),
            v3_sub(
                &v3_sub(
                    &v3_add(
                        &self.lower_left_corner,
                        &v3_add(&v3_scale(&self.horizontal, s), &v3_scale(&self.vertical, t)),
                    ),
                    &self.origin,
                ),
                &offset,
            ),
        );
        proof {
            assert(unit_disk_sample(sample@) && r@ == lens_ray_spec(
                self@,
                s as int,
                t as int,
                sample@,
            ));
            if self.lens_radius == 0 {
                let zq = V3 { x: 0, y: 0, z: 0 };
                assert(v3_scale_spec(sample@, 0) == v3_scale_spec(zq, 0));
                assert(r@ == lens_ray_spec(self@, s as int, t as int, zq));
            }
        }
        r
    }
}

} // verus!
