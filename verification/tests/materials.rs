//! Material tests: the scattering contracts of the three surface kinds and
//! the reflection helper. Raw values are scaled by 65536.

use raytrace::fixed::FX_ONE;
use raytrace::material::{reflect, Dielectric, Lambertian, Material, Metal, Scatterable};
use raytrace::ray::Ray;
use raytrace::sphere::HitRecord;
use raytrace::vector::{dot, Vector3};

const S: i64 = FX_ONE;

fn front_hit() -> HitRecord {
    // A hit on a surface whose outward normal is +z.
    HitRecord::new(
        S,
        Vector3::new(0, 0, -32768),
        Vector3::new(0, 0, S),
        Material::Lambertian(Lambertian::new(52429, 52429, 52429)),
    )
}

#[test]
fn reflect_exact() {
    let v = Vector3::new(46341, 0, -46341);
    let n = Vector3::new(0, 0, S);
    assert_eq!(reflect(&v, &n), Vector3::new(46341, 0, 46341));
}

#[test]
fn lambertian_always_scatters_with_albedo() {
    let mat = Lambertian::new(52429, 13107, 6554);
    let ray = Ray::new(Vector3::new(0, 0, 0), Vector3::new(0, 0, -S));
    let rec = front_hit();
    let (scattered, attenuation) = mat.scatter(&ray, &rec).expect("diffuse always scatters");
    // Attenuation is exactly the albedo: energy is never amplified.
    assert_eq!(attenuation, Vector3::new(52429, 13107, 6554));
    // The bounce starts at the hit point.
    assert_eq!(scattered.origin, rec.p);
    // direction = normal + sample with |sample| < 1: the z component stays
    // positive and every component stays within the normal plus the ball.
    assert!(scattered.direction.z > 0);
    assert!(scattered.direction.x.abs() <= S);
    assert!(scattered.direction.y.abs() <= S);
}

#[test]
fn metal_zero_fuzz_reflects_exactly() {
    let mat = Metal::new(45875, 39322, 32768, 0);
    // Incoming at 45 degrees in the x-z plane onto a +z surface.
    let ray = Ray::new(Vector3::new(-S, 0, 0), Vector3::new(S, 0, -S));
    let rec = front_hit();
    let (scattered, attenuation) = mat.scatter(&ray, &rec).expect("reflection leaves surface");
    assert_eq!(attenuation, Vector3::new(45875, 39322, 32768));
    assert_eq!(scattered.origin, rec.p);
    // reflect(unit(1, 0, -1), (0, 0, 1)) with zero fuzz, exactly.
    assert_eq!(scattered.direction, Vector3::new(46341, 0, 46341));
}

#[test]
fn metal_absorbs_into_surface() {
    // An incoming ray from behind the surface reflects further inward and is
    // absorbed (dot(scattered, normal) <= 0).
    let mat = Metal::new(45875, 39322, 32768, 0);
    let ray = Ray::new(Vector3::new(0, 0, -2 * S), Vector3::new(0, 0, S));
    let rec = front_hit();
    assert!(mat.scatter(&ray, &rec).is_none());
}

#[test]
fn metal_fuzz_is_clamped() {
    assert_eq!(Metal::new(S, S, S, 200000).fuzz, S);
    assert_eq!(Metal::new(S, S, S, -5).fuzz, 0);
    assert_eq!(Metal::new(S, S, S, 32768).fuzz, 32768);
}

#[test]
fn dielectric_attenuation_is_always_white() {
    // Straight-on hit entering glass with index 1.5: whichever of the
    // stochastic reflect/refract choices is taken, the attenuation is exactly
    // (1, 1, 1) and the direction is one of the two analytic answers.
    let mat = Dielectric::new(98304);
    let ray = Ray::new(Vector3::new(0, 0, 0), Vector3::new(0, 0, -S));
    let rec = front_hit();
    for _ in 0..32 {
        let (scattered, attenuation) = mat.scatter(&ray, &rec).expect("glass always scatters");
        assert_eq!(attenuation, Vector3::new(S, S, S));
        assert_eq!(scattered.origin, rec.p);
        assert_eq!(scattered.direction.x, 0);
        assert_eq!(scattered.direction.y, 0);
        // Refracted straight through (-1) or mirrored back (+1).
        assert!(scattered.direction.z == -S || scattered.direction.z == S);
    }
}

#[test]
fn dielectric_total_internal_reflection() {
    // Exiting glass at 45 degrees, beyond the critical angle for index 1.5:
    // no refraction solution exists, so the ray always mirrors, with the
    // attenuation still exactly white.
    let mat = Dielectric::new(98304);
    let ray = Ray::new(Vector3::new(-S, 0, -S - 32768), Vector3::new(S, 0, S));
    let rec = front_hit();
    for _ in 0..32 {
        let (scattered, attenuation) = mat.scatter(&ray, &rec).expect("glass always scatters");
        assert_eq!(attenuation, Vector3::new(S, S, S));
        assert_eq!(scattered.direction, Vector3::new(S, 0, -S));
    }
}

#[test]
fn material_dispatch_matches_variant() {
    let ray = Ray::new(Vector3::new(0, 0, 0), Vector3::new(0, 0, -S));
    let rec = front_hit();
    let lam = Material::Lambertian(Lambertian::new(52429, 52429, 52429));
    let (_, att) = lam.scatter(&ray, &rec).expect("diffuse scatters");
    assert_eq!(att, Vector3::new(52429, 52429, 52429));
    let die = Material::Dielectric(Dielectric::new(98304));
    let (_, att2) = die.scatter(&ray, &rec).expect("glass scatters");
    assert_eq!(att2, Vector3::new(S, S, S));
}

#[test]
fn unit_sphere_samples_stay_in_ball() {
    for _ in 0..256 {
        let p = raytrace::sphere::random_in_unit_sphere();
        assert!(dot(&p, &p) < S);
        assert!(p.x.abs() <= S && p.y.abs() <= S && p.z.abs() <= S);
    }
}
