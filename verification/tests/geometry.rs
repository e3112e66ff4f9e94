//! Geometry tests: vector algebra, ray evaluation, ray-sphere intersection
//! and nearest-hit aggregation over a scene. All values are fixed-point raw
//! values scaled by 65536.

use raytrace::fixed::{FX_LIMIT, FX_ONE};
use raytrace::material::{Lambertian, Material};
use raytrace::ray::Ray;
use raytrace::sphere::{Hitable, Sphere, SphereList};
use raytrace::vector::{cross, dot, unit_vector, vector_length, vector_multiply, Vector3};

const S: i64 = FX_ONE;

fn gray() -> Material {
    Material::Lambertian(Lambertian::new(32768, 32768, 32768))
}

#[test]
fn dot_product_exact() {
    let a = Vector3::new(S, 2 * S, 3 * S);
    let b = Vector3::new(4 * S, -5 * S, 6 * S);
    // 1*4 - 2*5 + 3*6 = 12
    assert_eq!(dot(&a, &b), 12 * S);
}

#[test]
fn cross_product_exact() {
    let a = Vector3::new(S, 0, 0);
    let b = Vector3::new(0, S, 0);
    assert_eq!(cross(&a, &b), Vector3::new(0, 0, S));
    assert_eq!(cross(&b, &a), Vector3::new(0, 0, -S));
}

#[test]
fn vector_multiply_componentwise() {
    let a = Vector3::new(32768, S, 2 * S);
    let b = Vector3::new(S, 16384, -S);
    assert_eq!(vector_multiply(&a, &b), Vector3::new(32768, 16384, -2 * S));
}

#[test]
fn vector_length_exact() {
    // |(3, 4, 0)| = 5
    assert_eq!(vector_length(&Vector3::new(3 * S, 4 * S, 0)), 5 * S);
}

#[test]
fn unit_vector_diagonal() {
    let u = unit_vector(&Vector3::new(S, 0, -S));
    assert_eq!(u, Vector3::new(46341, 0, -46341));
}

#[test]
fn ray_point_at_parameter() {
    let r = Ray::new(Vector3::new(S, 0, 0), Vector3::new(0, 0, -S));
    assert_eq!(r.point_at_parameter(2 * S), Vector3::new(S, 0, -2 * S));
}

#[test]
fn axis_ray_hits_unit_sphere_at_smaller_root() {
    // Sphere at the origin with radius 1; ray from (0, 0, 3) toward -z.
    // Analytic roots are t = 2 and t = 4; the smaller one is reported.
    let sphere = Sphere::new(Vector3::new(0, 0, 0), S, gray());
    let ray = Ray::new(Vector3::new(0, 0, 3 * S), Vector3::new(0, 0, -S));
    let hit = sphere.hit(&ray, 66, FX_LIMIT).expect("must hit");
    assert_eq!(hit.t, 2 * S);
    assert_eq!(hit.p, Vector3::new(0, 0, S));
    assert_eq!(hit.normal, Vector3::new(0, 0, S));
}

#[test]
fn larger_root_is_never_tried() {
    // With t_min above the smaller root the larger root (t = 4) is not used.
    let sphere = Sphere::new(Vector3::new(0, 0, 0), S, gray());
    let ray = Ray::new(Vector3::new(0, 0, 3 * S), Vector3::new(0, 0, -S));
    assert!(sphere.hit(&ray, 163840, FX_LIMIT).is_none());
}

#[test]
fn ray_beyond_radius_misses() {
    // Closest approach is 2 > 1.
    let sphere = Sphere::new(Vector3::new(0, 0, 0), S, gray());
    let ray = Ray::new(Vector3::new(2 * S, 0, 3 * S), Vector3::new(0, 0, -S));
    assert!(sphere.hit(&ray, 66, FX_LIMIT).is_none());
}

#[test]
fn tangent_ray_counts_as_miss() {
    // Closest approach exactly 1: zero discriminant is a miss.
    let sphere = Sphere::new(Vector3::new(0, 0, 0), S, gray());
    let ray = Ray::new(Vector3::new(S, 0, 3 * S), Vector3::new(0, 0, -S));
    assert!(sphere.hit(&ray, 66, FX_LIMIT).is_none());
}

#[test]
fn normal_is_unit_length_and_outward() {
    let sphere = Sphere::new(Vector3::new(0, 0, 0), S, gray());
    let ray = Ray::new(Vector3::new(S / 2, S / 4, 3 * S), Vector3::new(0, 0, -S));
    let hit = sphere.hit(&ray, 66, FX_LIMIT).expect("must hit");
    // Unit length within 1e-5 (the raw value 65536 stands for 1).
    let nn = dot(&hit.normal, &hit.normal);
    assert!((nn - S).abs() <= 2, "normal squared length {nn}");
    // Outward: away from the center for a positive radius.
    let pc = Vector3::new(hit.p.x, hit.p.y, hit.p.z);
    assert!(dot(&hit.normal, &pc) > 0);
}

#[test]
fn negative_radius_flips_normal() {
    let sphere = Sphere::new(Vector3::new(0, 0, 0), -S, gray());
    let ray = Ray::new(Vector3::new(0, 0, 3 * S), Vector3::new(0, 0, -S));
    let hit = sphere.hit(&ray, 66, FX_LIMIT).expect("must hit");
    assert_eq!(hit.t, 2 * S);
    // The normal points toward the center.
    assert_eq!(hit.normal, Vector3::new(0, 0, -S));
    assert!(dot(&hit.normal, &hit.p) < 0);
}

#[test]
fn scene_returns_nearest_hit() {
    // Two spheres along one ray: the scan must return the smaller t,
    // identical to testing each sphere independently and taking the minimum.
    let near = Sphere::new(Vector3::new(0, 0, -2 * S), S, gray());
    let far = Sphere::new(Vector3::new(0, 0, -4 * S), S, gray());
    let ray = Ray::new(Vector3::new(0, 0, 0), Vector3::new(0, 0, -S));

    let t_near = near.hit(&ray, 66, FX_LIMIT).expect("near hits").t;
    let t_far = far.hit(&ray, 66, FX_LIMIT).expect("far hits").t;
    assert_eq!(t_near, S);
    assert_eq!(t_far, 3 * S);

    let world = SphereList { list: vec![far, near] };
    let hit = world.hit(&ray, 66, FX_LIMIT).expect("scene hits");
    assert_eq!(hit.t, t_near.min(t_far));

    // Order in the list does not change the result.
    let world2 = SphereList { list: vec![near, far] };
    let hit2 = world2.hit(&ray, 66, FX_LIMIT).expect("scene hits");
    assert_eq!(hit2.t, hit.t);
    assert_eq!(hit2.p, hit.p);
}

#[test]
fn empty_scene_misses() {
    let world = SphereList { list: vec![] };
    let ray = Ray::new(Vector3::new(0, 0, 0), Vector3::new(0, 0, -S));
    assert!(world.hit(&ray, 66, FX_LIMIT).is_none());
}
