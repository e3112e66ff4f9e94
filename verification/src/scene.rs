//! The demo scene: a large ground sphere, a grid of small randomly placed and
//! randomly colored spheres, and three large feature spheres. The contract
//! pins the four deterministic spheres exactly and bounds every random grid
//! sphere: its radius, height, clearance from the metal feature sphere, and
//! the parameter ranges of its material.

use vstd::prelude::*;
use crate::fixed::{
    fx_add, fx_mul, fx_mul_spec, lemma_energy_non_amplification, FX_ONE,
};
use crate::material::{Dielectric, Lambertian, Material, Metal};
use crate::rng::gen_unit_raw;
use crate::sphere::{Sphere, SphereList};
use crate::tracer::scene_wf;
use crate::vector::{v3_sub, v3_sub_spec, vector_length, vector_length_spec, Vector3, V3};
use vstd::arithmetic::div_mod::{lemma_div_is_ordered, lemma_div_multiples_vanish};

verus! {

/// The large diffuse ground sphere, pushed first.
pub open spec fn ground_sphere() -> Sphere {
    Sphere {
        center: Vector3 { x: 0, y: -65536000i64, z: 0 },
        radius: 65536000,
        material: Material::Lambertian(
            Lambertian { albedo: Vector3 { x: 32768, y: 32768, z: 32768 } },
        ),
    }
}

/// The central glass feature sphere.
pub open spec fn feature_glass() -> Sphere {
    Sphere {
        center: Vector3 { x: 0, y: 65536, z: 0 },
        radius: 65536,
        material: Material::Dielectric(Dielectric { ref_idx: 98304 }),
    }
}

/// The left diffuse feature sphere.
pub open spec fn feature_diffuse() -> Sphere {
    Sphere {
        center: Vector3 { x: -262144i64, y: 65536, z: 0 },
        radius: 65536,
        material: Material::Lambertian(
            Lambertian { albedo: Vector3 { x: 26214, y: 13107, z: 6554 } },
        ),
    }
}

/// The right metal feature sphere.
pub open spec fn feature_metal() -> Sphere {
    Sphere {
        center: Vector3 { x: 262144, y: 65536, z: 0 },
        radius: 65536,
        material: Material::Metal(
            Metal { albedo: Vector3 { x: 45875, y: 39322, z: 32768 }, fuzz: 0 },
        ),
    }
}

/// The materials the random grid hands out: diffuse with albedo components in
/// `[0, 1)` (products of two uniform draws), metal with albedo components in
/// `[0.5, 1)` and fuzz in `[0, 0.5)`, or glass with index 1.5.
pub open spec fn grid_material_ok(m: Material) -> bool {
    match m {
        Material::Lambertian(l) => {
            &&& 0 <= l.albedo@.x < FX_ONE as int
            &&& 0 <= l.albedo@.y < FX_ONE as int
            &&& 0 <= l.albedo@.z < FX_ONE as int
        },
        Material::Metal(mt) => {
            &&& 32768 <= mt.albedo@.x < FX_ONE as int
            &&& 32768 <= mt.albedo@.y < FX_ONE as int
            &&& 32768 <= mt.albedo@.z < FX_ONE as int
            &&& 0 <= mt.fuzz < 32768
        },
        Material::Dielectric(d) => d.ref_idx == 98304,
    }
}

/// A random grid sphere: radius 0.2, resting at height 0.2, placed farther
/// than 0.9 from the metal feature sphere's base point, with a grid material.
pub open spec fn grid_sphere_ok(s: Sphere) -> bool {
    &&& s.radius == 13107
    &&& s.center@.y == 13107
    &&& vector_length_spec(v3_sub_spec(s.center@, V3 { x: 262144, y: 13107, z: 0 })) > 58982
    &&& grid_material_ok(s.material)
}

/// The bounds of the random metal parameters: halving `1 + r` for a uniform
/// draw `r` in `[0, 1)` lands in `[0.5, 1)`, and halving `r` lands in
/// `[0, 0.5)`.
proof fn lemma_metal_grid_bounds(r: int)
    requires
        0 <= r < 65536,
    ensures
        32768 <= fx_mul_spec(32768, 65536 + r) <= 65535,
        0 <= fx_mul_spec(32768, r) <= 32767,
{
    lemma_div_is_ordered((32768 * 65536) as int, 32768 * (65536 + r), 65536);
    lemma_div_is_ordered(32768 * (65536 + r), (32768 * 131071) as int, 65536);
    lemma_div_multiples_vanish(32768, 65536);
    lemma_div_is_ordered(0, 32768 * r, 65536);
    lemma_div_is_ordered(32768 * r, (32768 * 65535) as int, 65536);
}

/// Build the demo scene: the ground, up to a 22 x 22 grid of small spheres
/// (diffuse with probability 0.8, metal 0.15, glass 0.05, skipping those too
/// close to the right feature sphere), and the three feature spheres.
pub fn random_scene() -> (world: SphereList)
    ensures
        scene_wf(world.list@),
        4 <= world.list@.len() <= 488,
        world.list@[0] == ground_sphere(),
        world.list@[world.list@.len() - 3] == feature_glass(),
        world.list@[world.list@.len() - 2] == feature_diffuse(),
        world.list@[world.list@.len() - 1] == feature_metal(),
        forall|i: int| 1 <= i < world.list@.len() - 3 ==> grid_sphere_ok(world.list@[i]),
{
    let mut world = SphereList { list: Vec::new() };

    world.list.push(
        Sphere::new(
            Vector3::new(0, -65536000, 0),
            65536000,
            Material::Lambertian(Lambertian::new(32768, 32768, 32768)),
        ),
    );

    let mut a: i64 = -11;
    while a < 11
        invariant
            -11 <= a <= 11,
            scene_wf(world.list@),
            1 <= world.list@.len() <= 1 + 22 * (a + 11),
            world.list@[0] == ground_sphere(),
            forall|i: int| 1 <= i < world.list@.len() ==> grid_sphere_ok(world.list@[i]),
        decreases 11 - a,
    {
        let mut b: i64 = -11;
        while b < 11
            invariant
                -11 <= a < 11,
                -11 <= b <= 11,
                scene_wf(world.list@),
                1 <= world.list@.len() <= 1 + 22 * (a + 11) + (b + 11),
                world.list@[0] == ground_sphere(),
                forall|i: int| 1 <= i < world.list@.len() ==> grid_sphere_ok(world.list@[i]),
            decreases 11 - b,
        {
            let choose_mat = gen_unit_raw();
            let center = Vector3::new(
                fx_add(fx_add(a * 65536, 58982), gen_unit_raw()),
                13107,
                fx_add(b * 65536, fx_mul(58982, gen_unit_raw())),
            );

            if vector_length(&v3_sub(&center, &Vector3::new(262144, 13107, 0))) > 58982 {
                if choose_mat < 52429 {
                    let ra = gen_unit_raw();
                    let rb = gen_unit_raw();
                    let rc = gen_unit_raw();
                    let rd = gen_unit_raw();
                    let re = gen_unit_raw();
                    let rf = gen_unit_raw();
                    proof {
                        lemma_energy_non_amplification(ra as int, rb as int);
                        lemma_energy_non_amplification(rc as int, rd as int);
                        lemma_energy_non_amplification(re as int, rf as int);
                    }
                    world.list.push(
                        Sphere::new(
                            center,
                            13107,
                            Material::Lambertian(
                                Lambertian::new(fx_mul(ra, rb), fx_mul(rc, rd), fx_mul(re, rf)),
                            ),
                        ),
                    );
                } else if choose_mat < 62259 {
                    let r1 = gen_unit_raw();
                    let r2 = gen_unit_raw();
                    let r3 = gen_unit_raw();
                    let rz = gen_unit_raw();
                    proof {
                        lemma_metal_grid_bounds(r1 as int);
                        lemma_metal_grid_bounds(r2 as int);
                        lemma_metal_grid_bounds(r3 as int);
                        lemma_metal_grid_bounds(rz as int);
                    }
                    world.list.push(
                        Sphere::new(
                            center,
                            13107,
                            Material::Metal(
                                Metal::new(
                                    fx_mul(32768, fx_add(FX_ONE, r1)),
                                    fx_mul(32768, fx_add(FX_ONE, r2)),
                                    fx_mul(32768, fx_add(FX_ONE, r3)),
                                    fx_mul(32768, rz),
                                ),
                            ),
                        ),
                    );
                } else {
                    world.list.push(
                        Sphere::new(center, 13107, Material::Dielectric(Dielectric::new(98304))),
                    );
                }
            }
            b = b + 1;
        }
        a = a + 1;
    }

    world.list.push(
        Sphere::new(
            Vector3::new(0, 65536, 0),
            65536,
            Material::Dielectric(Dielectric::new(98304)),
        ),
    );
    world.list.push(
        Sphere::new(
            Vector3::new(-262144, 65536, 0),
            65536,
            Material::Lambertian(Lambertian::new(26214, 13107, 6554)),
        ),
    );
    world.list.push(
        Sphere::new(
            Vector3::new(262144, 65536, 0),
            65536,
            Material::Metal(Metal::new(45875, 39322, 32768, 0)),
        ),
    );

    world
}

} // verus!
