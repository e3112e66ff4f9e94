//! Integrator tests: gamma correction, the recursion bound, the sky
//! background, the end-to-end two-sphere scenario and the depth-of-field
//! collapse of the camera. Raw values are scaled by 65536.

use raytrace::camera::Camera;
use raytrace::fixed::FX_ONE;
use raytrace::material::{Dielectric, Lambertian, Material};
use raytrace::scene::random_scene;
use raytrace::sphere::{Sphere, SphereList};
use raytrace::ray::Ray;
use raytrace::tracer::{color, gamma_byte, render};
use raytrace::vector::Vector3;

const S: i64 = FX_ONE;

fn gray08() -> Material {
    Material::Lambertian(Lambertian::new(52429, 52429, 52429))
}

/// The end-to-end scenario's scene: a small sphere ahead of the camera and a
/// large ground sphere below, both diffuse with albedo 0.8.
fn two_sphere_scene() -> SphereList {
    SphereList {
        list: vec![
            Sphere::new(Vector3::new(0, 0, -S), 32768, gray08()),
            Sphere::new(Vector3::new(0, -6586368, -S), 6553600, gray08()),
        ],
    }
}

#[test]
fn gamma_formula_exact() {
    // byte = floor(255.99 * sqrt(clamp(c, 0, 1)))
    assert_eq!(gamma_byte(S), 255);
    assert_eq!(gamma_byte(0), 0);
    assert_eq!(gamma_byte(16384), 127); // sqrt(0.25) = 0.5
    assert_eq!(gamma_byte(32768), 181); // sqrt(0.5)
    assert_eq!(gamma_byte(-5), 0); // clamped from below
    assert_eq!(gamma_byte(100000), 255); // clamped from above
}

#[test]
fn trace_miss_returns_background_gradient() {
    let world = two_sphere_scene();
    // Aimed up and away from both spheres: the exact sky gradient.
    let ray = Ray::new(Vector3::new(0, 0, 0), Vector3::new(0, 655, S));
    let c = color(&ray, &world, 0);
    assert_eq!(c, Vector3::new(48988, 55607, S));
}

#[test]
fn trace_at_depth_bound_returns_black() {
    // A hit at depth 50 must be black, whatever the material.
    let world = two_sphere_scene();
    let ray = Ray::new(Vector3::new(0, 0, 0), Vector3::new(0, 0, -S));
    assert_eq!(color(&ray, &world, 50), Vector3::new(0, 0, 0));
    assert_eq!(color(&ray, &world, 51), Vector3::new(0, 0, 0));
}

#[test]
fn glass_bounce_keeps_background_energy() {
    // A single dielectric bounce attenuates by exactly (1, 1, 1): whichever
    // of the reflected and refracted directions the draw picks, both escape
    // here to the same sky color, so the traced color equals that background
    // exactly — never a darkened version of it.
    let world = SphereList {
        list: vec![Sphere::new(
            Vector3::new(0, 0, -2 * S),
            S,
            Material::Dielectric(Dielectric::new(98304)),
        )],
    };
    let ray = Ray::new(Vector3::new(0, 0, 0), Vector3::new(0, 0, -S));
    for _ in 0..8 {
        assert_eq!(color(&ray, &world, 0), Vector3::new(49152, 55705, S));
    }
}

#[test]
fn diffuse_sphere_darker_than_sky() {
    // A ray through the image center hits the 0.8-albedo sphere; its red
    // channel after gamma must be strictly below the sky's red channel for a
    // ray aimed just above the horizon, which misses both spheres.
    let world = two_sphere_scene();
    let camera = Camera::new(
        Vector3::new(0, 0, 0),
        Vector3::new(0, 0, -S),
        Vector3::new(0, S, 0),
        90 * S,
        S,
        0,
        S,
    );
    let center_ray = camera.get_ray(32768, 32768);
    assert_eq!(center_ray.direction, Vector3::new(0, 0, -S));

    let miss_ray = Ray::new(Vector3::new(0, 0, 0), Vector3::new(0, 655, S));
    let miss_red = gamma_byte(color(&miss_ray, &world, 0).x);
    assert_eq!(miss_red, 221);

    for _ in 0..8 {
        let hit_red = gamma_byte(color(&center_ray, &world, 0).x);
        assert!(hit_red < miss_red, "hit {hit_red} vs sky {miss_red}");
    }
}

#[test]
fn pinhole_camera_is_deterministic() {
    // With aperture 0, get_ray draws no observable randomness: every call
    // returns the same ray, equal to the pinhole formula.
    let camera = Camera::new(
        Vector3::new(0, 0, 0),
        Vector3::new(0, 0, -S),
        Vector3::new(0, S, 0),
        90 * S,
        S,
        0,
        S,
    );
    assert_eq!(camera.lens_radius, 0);
    let first = camera.get_ray(13107, 52429);
    for _ in 0..16 {
        let again = camera.get_ray(13107, 52429);
        assert_eq!(again.origin, first.origin);
        assert_eq!(again.direction, first.direction);
    }
    // The corner ray of the 90-degree, square, focus-1 camera.
    let corner = camera.get_ray(0, 0);
    assert_eq!(corner.origin, Vector3::new(0, 0, 0));
    assert_eq!(corner.direction, Vector3::new(-S, -S, -S));
}

#[test]
fn camera_basis_for_canonical_setup() {
    // 90-degree vertical field of view, square aspect, focus distance 1,
    // looking down -z: the image plane is the square [-1, 1]^2 at z = -1.
    let camera = Camera::new(
        Vector3::new(0, 0, 0),
        Vector3::new(0, 0, -S),
        Vector3::new(0, S, 0),
        90 * S,
        S,
        0,
        S,
    );
    assert_eq!(camera.origin, Vector3::new(0, 0, 0));
    assert_eq!(camera.lower_left_corner, Vector3::new(-S, -S, -S));
    assert_eq!(camera.horizontal, Vector3::new(2 * S, 0, 0));
    assert_eq!(camera.vertical, Vector3::new(0, 2 * S, 0));
    assert_eq!(camera.u, Vector3::new(S, 0, 0));
    assert_eq!(camera.v, Vector3::new(0, S, 0));
}

#[test]
fn aperture_halved_into_lens_radius() {
    let camera = Camera::new(
        Vector3::new(0, 0, 0),
        Vector3::new(0, 0, -S),
        Vector3::new(0, S, 0),
        90 * S,
        S,
        13107, // aperture 0.2
        S,
    );
    assert_eq!(camera.lens_radius, 6553); // 0.1
}

#[test]
fn render_produces_opaque_rgba_rows() {
    let world = two_sphere_scene();
    let camera = Camera::new(
        Vector3::new(0, 0, 0),
        Vector3::new(0, 0, -S),
        Vector3::new(0, S, 0),
        90 * S,
        S,
        0,
        S,
    );
    let buf = render(&world, &camera, 4, 3, 2);
    assert_eq!(buf.len(), 4 * 4 * 3);
    for px in buf.chunks(4) {
        assert_eq!(px[3], 255);
    }
}

#[test]
fn random_scene_is_well_formed() {
    let world = random_scene();
    assert!(world.list.len() >= 4 && world.list.len() <= 488);
    // The ground sphere comes first.
    assert_eq!(world.list[0].center, Vector3::new(0, -65536000, 0));
    assert_eq!(world.list[0].radius, 65536000);
    // The three feature spheres come last: glass, diffuse, metal.
    let n = world.list.len();
    assert_eq!(world.list[n - 3].center, Vector3::new(0, S, 0));
    assert!(matches!(world.list[n - 3].material, Material::Dielectric(_)));
    assert_eq!(world.list[n - 2].center, Vector3::new(-4 * S, S, 0));
    assert!(matches!(world.list[n - 2].material, Material::Lambertian(_)));
    assert_eq!(world.list[n - 1].center, Vector3::new(4 * S, S, 0));
    assert!(matches!(world.list[n - 1].material, Material::Metal(_)));
    // Every grid sphere rests at height 0.2 with radius 0.2.
    for sph in &world.list[1..n - 3] {
        assert_eq!(sph.radius, 13107);
        assert_eq!(sph.center.y, 13107);
    }
    // Every material parameter lies in its documented range.
    for sph in &world.list {
        match sph.material {
            Material::Lambertian(l) => {
                assert!((0..=S).contains(&l.albedo.x));
                assert!((0..=S).contains(&l.albedo.y));
                assert!((0..=S).contains(&l.albedo.z));
            }
            Material::Metal(m) => {
                assert!((0..=S).contains(&m.albedo.x));
                assert!((0..=S).contains(&m.fuzz));
            }
            Material::Dielectric(d) => assert!(d.ref_idx > 0),
        }
    }
}
