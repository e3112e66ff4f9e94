//! The integrator: the recursive random walk that ties geometry and
//! materials together, the sky-gradient background, gamma correction and the
//! top-level render loop.

use vstd::prelude::*;
use crate::camera::{lens_ray_spec, unit_disk_sample, Camera, CameraV};
use crate::fixed::{
    clamp01, clamp01_spec, fx_add, fx_add_spec, fx_div, fx_div_spec, fx_mul, fx_mul_spec,
    fx_sqrt, fx_sqrt_spec, fx_sub, fx_sub_spec, lemma_energy_non_amplification, FX_LIMIT, FX_ONE,
};
use crate::material::{
    material_att_cap, material_scatter_ok, material_wf, lemma_scatter_attenuation_wf,
    opt_scatter_view, Scatterable,
};
use crate::ray::{Ray, RayV};
use crate::rng::gen_unit_raw;
use crate::sphere::{
    lemma_nearest_hit, scan_hit, sphere_hit_spec, HitView, Hitable, Sphere, SphereList,
};
use crate::vector::{
    unit_vector, unit_vector_spec, v3_add, v3_add_spec, v3_scale, v3_scale_spec, vector_multiply,
    vector_multiply_spec, Vector3, V3,
};

verus! {

/// The shadow-acne guard: hits nearer than about 0.001 are ignored, so a
/// freshly scattered ray does not re-hit its own origin.
pub const T_MIN: i64 = 66;

/// The recursion bound: at this depth a hit yields black.
pub const MAX_DEPTH: i32 = 50;

/// Every sphere in the scene carries a well-formed material.
pub open spec fn scene_wf(spheres: Seq<Sphere>) -> bool {
    forall|i: int| 0 <= i < spheres.len() ==> material_wf(spheres[i].material)
}

/// A color with every component in `[0, 1]`.
pub open spec fn color01(c: V3) -> bool {
    &&& 0 <= c.x <= FX_ONE as int
    &&& 0 <= c.y <= FX_ONE as int
    &&& 0 <= c.z <= FX_ONE as int
}

pub open spec fn black_v3() -> V3 {
    V3 { x: 0, y: 0, z: 0 }
}

/// Energy non-amplification over a whole color: attenuating a color in
/// `[0, 1]^3` by an albedo in `[0, 1]^3` keeps every component within
/// `[0, 1]` and below both factors, so the color after `k` bounces is bounded
/// by the componentwise product of the `k` albedos.
pub proof fn lemma_color_energy_non_amplification(a: V3, c: V3)
    requires
        color01(a),
        color01(c),
    ensures
        color01(vector_multiply_spec(a, c)),
        vector_multiply_spec(a, c).x <= a.x && vector_multiply_spec(a, c).x <= c.x,
        vector_multiply_spec(a, c).y <= a.y && vector_multiply_spec(a, c).y <= c.y,
        vector_multiply_spec(a, c).z <= a.z && vector_multiply_spec(a, c).z <= c.z,
{
    lemma_energy_non_amplification(a.x, c.x);
    lemma_energy_non_amplification(a.y, c.y);
    lemma_energy_non_amplification(a.z, c.z);
}

/// The sky gradient, the scene's only light source: lerp between white and
/// sky blue by `t = (unit(direction).y + 1) / 2`, with `t` clamped into
/// `[0, 1]` so the background is always a valid color.
pub open spec fn background_spec(r: RayV) -> V3 {
    let unit_direction = unit_vector_spec(r.direction);
    let t = clamp01_spec(fx_mul_spec(32768, fx_add_spec(unit_direction.y, FX_ONE as int)));
    v3_add_spec(
        v3_scale_spec(
            V3 { x: FX_ONE as int, y: FX_ONE as int, z: FX_ONE as int },
            fx_sub_spec(FX_ONE as int, t),
        ),
        v3_scale_spec(V3 { x: 32768, y: 45875, z: FX_ONE as int }, t),
    )
}

/// The background is a valid color.
pub proof fn lemma_background_bounded(r: RayV)
    ensures
        color01(background_spec(r)),
{
    let unit_direction = unit_vector_spec(r.direction);
    let t = clamp01_spec(fx_mul_spec(32768, fx_add_spec(unit_direction.y, FX_ONE as int)));
    let t1 = fx_sub_spec(FX_ONE as int, t);
    lemma_energy_non_amplification(FX_ONE as int, t1);
    lemma_energy_non_amplification(32768, t);
    lemma_energy_non_amplification(45875, t);
    lemma_energy_non_amplification(FX_ONE as int, t);
}

/// Everything the recursive walk can return from `ray` at `depth`. A miss is
/// exactly the background; a hit at the depth bound is black; below the bound
/// there is a scatter result admitted by the hit material's contract —
/// absorption gives black, and a scattered ray gives the attenuation times
/// some outcome of the walk one level deeper. The stochastic choices are the
/// existentially bound scatter results; everything else is pinned.
pub open spec fn color_outcome(spheres: Seq<Sphere>, ray: RayV, depth: int, c: V3) -> bool
    decreases MAX_DEPTH as int - depth,
{
    match scan_hit(spheres, ray, T_MIN as int, FX_LIMIT as int) {
        None => c == background_spec(ray),
        Some(h) => {
            if depth >= MAX_DEPTH as int {
                c == black_v3()
            } else {
                exists|r: Option<(RayV, V3)>|
                    {
                        &&& material_scatter_ok(h.material, ray, h, r)
                        &&& match r {
                            None => c == black_v3(),
                            Some((sc, att)) => exists|rc: V3|
                                color_outcome(spheres, sc, depth + 1, rc) && c
                                    == vector_multiply_spec(att, rc),
                        }
                    }
            }
        },
    }
}

/// Energy non-amplification along a whole realized walk: in a well-formed
/// scene every admissible outcome is a valid color, and on a hit below the
/// depth bound it is bounded by the hit material's attenuation cap. By
/// induction each level's color is the realized attenuation times the next
/// level's color, so the color after `k` bounces never exceeds the
/// componentwise product of the `k` realized attenuations (each at most its
/// material's albedo) and is monotonically non-increasing in `k`.
pub proof fn lemma_color_outcome_energy(spheres: Seq<Sphere>, ray: RayV, depth: int, c: V3)
    requires
        scene_wf(spheres),
        color_outcome(spheres, ray, depth, c),
    ensures
        color01(c),
        match scan_hit(spheres, ray, T_MIN as int, FX_LIMIT as int) {
            Some(h) => depth < MAX_DEPTH as int ==> c.x <= material_att_cap(h.material).x && c.y
                <= material_att_cap(h.material).y && c.z <= material_att_cap(h.material).z,
            None => true,
        },
    decreases MAX_DEPTH as int - depth,
{
    match scan_hit(spheres, ray, T_MIN as int, FX_LIMIT as int) {
        None => {
            lemma_background_bounded(ray);
        },
        Some(h) => {
            lemma_nearest_hit(spheres, ray, T_MIN as int, FX_LIMIT as int);
            let w = choose|i: int|
                0 <= i < spheres.len() && sphere_hit_spec(
                    spheres[i]@,
                    ray,
                    T_MIN as int,
                    FX_LIMIT as int,
                ) == Some(h);
            assert(material_wf(h.material));
            if depth < MAX_DEPTH as int {
                let r = choose|r: Option<(RayV, V3)>|
                    {
                        &&& material_scatter_ok(h.material, ray, h, r)
                        &&& match r {
                            None => c == black_v3(),
                            Some((sc, att)) => exists|rc: V3|
                                color_outcome(spheres, sc, depth + 1, rc) && c
                                    == vector_multiply_spec(att, rc),
                        }
                    };
                match r {
                    None => {},
                    Some((sc, att)) => {
                        let rc = choose|rc: V3|
                            color_outcome(spheres, sc, depth + 1, rc) && c
                                == vector_multiply_spec(att, rc);
                        lemma_color_outcome_energy(spheres, sc, depth + 1, rc);
                        lemma_scatter_attenuation_wf(h.material, ray, h, r);
                        lemma_energy_non_amplification(att.x, rc.x);
                        lemma_energy_non_amplification(att.y, rc.y);
                        lemma_energy_non_amplification(att.z, rc.z);
                    },
                }
            }
        },
    }
}

/// Linear-to-display conversion of one channel: the byte
/// `floor(255.99 * sqrt(clamp(c, 0, 1)))`, with `255.99` carried exactly as
/// `25599 / 100` (so the divisor is `100 * FX_ONE`).
pub open spec fn gamma_byte_spec(c: int) -> int {
    (25599 * fx_sqrt_spec(clamp01_spec(c))) / 6553600
}

pub fn gamma_byte(c: i64) -> (r: u8)
    ensures
        r as int == gamma_byte_spec(c as int),
{
    let cl = clamp01(c);
    let s = fx_sqrt(cl);
    proof {
        if cl > 0 {
            assert(s as int <= 65536) by (nonlinear_arith)
                requires
                    0 <= s as int,
                    (s as int) * (s as int) <= (cl as int) * 65536,
                    cl as int <= 65536,
            ;
        }
        vstd::arithmetic::div_mod::lemma_div_is_ordered(
            25599 * (s as int),
            1677656064,
            6553600,
        );
        vstd::arithmetic::div_mod::lemma_div_is_ordered(0, 25599 * (s as int), 6553600);
    }
    let num: u64 = 25599 * (s as u64);
    let b: u64 = num / 6553600;
    b as u8
}

/// The recursive light transport: the nearest hit scatters and attenuates,
/// recursion stops at the depth bound or on absorption (black), and a miss
/// samples the sky gradient. The result is an admissible outcome of the walk
/// (`color_outcome`) and a valid color; in particular a miss returns exactly
/// the background, any hit at the depth bound returns black, and a shallower
/// hit is bounded by the hit material's attenuation cap.
pub fn color(ray: &Ray, world: &SphereList, depth: i32) -> (c: Vector3)
    requires
        scene_wf(world.list@),
    ensures
        color01(c@),
        color_outcome(world.list@, ray@, depth as int, c@),
        scan_hit(world.list@, ray@, T_MIN as int, FX_LIMIT as int) == None::<HitView> ==> c@
            == background_spec(ray@),
        (depth >= MAX_DEPTH && scan_hit(world.list@, ray@, T_MIN as int, FX_LIMIT as int)
            != None::<HitView>) ==> c@ == black_v3(),
        match scan_hit(world.list@, ray@, T_MIN as int, FX_LIMIT as int) {
            Some(h) => depth < MAX_DEPTH ==> c@.x <= material_att_cap(h.material).x && c@.y
                <= material_att_cap(h.material).y && c@.z <= material_att_cap(h.material).z,
            None => true,
        },
    decreases MAX_DEPTH - depth,
{
    match world.hit(ray, T_MIN, FX_LIMIT) {
        Some(record) => {
            proof {
                lemma_nearest_hit(world.list@, ray@, T_MIN as int, FX_LIMIT as int);
                let h = record@;
                let w = choose|i: int|
                    0 <= i < world.list@.len() && sphere_hit_spec(
                        world.list@[i]@,
                        ray@,
                        T_MIN as int,
                        FX_LIMIT as int,
                    ) == Some(h);
                assert(material_wf(record.material));
            }
            if depth < MAX_DEPTH {
                match record.material.scatter(ray, &record) {
                    Some((scattered, attenuation)) => {
                        let rec_color = color(&scattered, world, depth + 1);
                        let out = vector_multiply(&attenuation, &rec_color);
                        proof {
                            lemma_scatter_attenuation_wf(
                                record.material,
                                ray@,
                                record@,
                                opt_scatter_view(Some((scattered, attenuation))),
                            );
                            lemma_energy_non_amplification(attenuation@.x, rec_color@.x);
                            lemma_energy_non_amplification(attenuation@.y, rec_color@.y);
                            lemma_energy_non_amplification(attenuation@.z, rec_color@.z);
                            let r_wit: Option<(RayV, V3)> = Some((scattered@, attenuation@));
                            assert(material_scatter_ok(record.material, ray@, record@, r_wit));
                            assert(color_outcome(
                                world.list@,
                                scattered@,
                                depth as int + 1,
                                rec_color@,
                            ) && out@ == vector_multiply_spec(attenuation@, rec_color@));
                            assert(color_outcome(world.list@, ray@, depth as int, out@));
                        }
                        return out;
                    },
                    None => {
                        let out = Vector3::new(0, 0, 0);
                        proof {
                            let r_wit: Option<(RayV, V3)> = None;
                            assert(material_scatter_ok(record.material, ray@, record@, r_wit));
                            assert(color_outcome(world.list@, ray@, depth as int, out@));
                        }
                        return out;
                    },
                }
            }
            Vector3::new(0, 0, 0)
        },
        None => {
            let unit_direction = unit_vector(&ray.direction);
            let t = clamp01(fx_mul(32768, fx_add(unit_direction.y, FX_ONE)));
            let white = Vector3::new(FX_ONE, FX_ONE, FX_ONE);
            let sky = Vector3::new(32768, 45875, FX_ONE);
            proof {
                lemma_background_bounded(ray@);
            }
            v3_add(&v3_scale(&white, fx_sub(FX_ONE, t)), &v3_scale(&sky, t))
        },
    }
}

/// One stochastic sample for the pixel at column `xi` and image row `j`
/// (rows counted from the bottom, matching the camera's `t` coordinate): some
/// jitter pair in `[0, 1)` picks the image-plane coordinates, some lens
/// sample gives the primary ray, and the sample color is an admissible
/// outcome of the walk from that ray.
pub open spec fn pixel_sample(
    spheres: Seq<Sphere>,
    cam: CameraV,
    nx: int,
    ny: int,
    xi: int,
    j: int,
    c: V3,
) -> bool {
    exists|du: int, dv: int, q: V3|
        {
            &&& 0 <= du < FX_ONE as int
            &&& 0 <= dv < FX_ONE as int
            &&& unit_disk_sample(q)
            &&& #[trigger] color_outcome(
                spheres,
                lens_ray_spec(
                    cam,
                    fx_div_spec(fx_add_spec(xi * (FX_ONE as int), du), nx * (FX_ONE as int)),
                    fx_div_spec(fx_add_spec(j * (FX_ONE as int), dv), ny * (FX_ONE as int)),
                    q,
                ),
                0,
                c,
            )
        }
}

/// Componentwise integer sum of a sequence of colors.
pub open spec fn color_sum(cols: Seq<V3>) -> V3
    decreases cols.len(),
{
    if cols.len() == 0 {
        V3 { x: 0, y: 0, z: 0 }
    } else {
        let p = color_sum(cols.drop_last());
        let l = cols.last();
        V3 { x: p.x + l.x, y: p.y + l.y, z: p.z + l.z }
    }
}

/// A rendered pixel: its three channels are `gamma_byte_spec` of the
/// averages of `ns` sample colors, each an admissible stochastic sample of
/// this pixel.
pub open spec fn pixel_bytes(
    spheres: Seq<Sphere>,
    cam: CameraV,
    nx: int,
    ny: int,
    ns: int,
    xi: int,
    j: int,
    r: int,
    g: int,
    b: int,
) -> bool {
    exists|cols: Seq<V3>|
        {
            &&& cols.len() == ns
            &&& (forall|k: int|
                0 <= k < cols.len() ==> #[trigger] pixel_sample(spheres, cam, nx, ny, xi, j, cols[k]))
            &&& r == gamma_byte_spec(color_sum(cols).x / ns)
            &&& g == gamma_byte_spec(color_sum(cols).y / ns)
            &&& b == gamma_byte_spec(color_sum(cols).z / ns)
        }
}

/// The first `count` pixels of the buffer, row-major with the top row first:
/// pixel `k` sits at byte `4k`, shows column `k % nx` of image row
/// `ny - 1 - k / nx`, and is fully opaque.
pub open spec fn pixels_ok(
    spheres: Seq<Sphere>,
    cam: CameraV,
    nx: int,
    ny: int,
    ns: int,
    buf: Seq<u8>,
    count: int,
) -> bool
    decreases count,
{
    if count <= 0 {
        true
    } else {
        let k = count - 1;
        &&& pixels_ok(spheres, cam, nx, ny, ns, buf, k)
        &&& pixel_bytes(
            spheres,
            cam,
            nx,
            ny,
            ns,
            k % nx,
            ny - 1 - k / nx,
            buf[4 * k] as int,
            buf[4 * k + 1] as int,
            buf[4 * k + 2] as int,
        )
        &&& buf[4 * k + 3] == 255
    }
}

/// A pixel prefix is unaffected by bytes appended after it.
proof fn lemma_pixels_ok_extend(
    spheres: Seq<Sphere>,
    cam: CameraV,
    nx: int,
    ny: int,
    ns: int,
    buf1: Seq<u8>,
    buf2: Seq<u8>,
    count: int,
)
    requires
        pixels_ok(spheres, cam, nx, ny, ns, buf1, count),
        4 * count <= buf1.len(),
        buf1.len() <= buf2.len(),
        forall|i: int| 0 <= i < buf1.len() ==> buf1[i] == buf2[i],
    ensures
        pixels_ok(spheres, cam, nx, ny, ns, buf2, count),
    decreases count,
{
    if count > 0 {
        lemma_pixels_ok_extend(spheres, cam, nx, ny, ns, buf1, buf2, count - 1);
    }
}

/// Render the scene into a row-major RGBA buffer, top row first. Each pixel
/// averages `ns` stochastic samples, gamma-corrects each channel and writes
/// a fully opaque alpha; `pixels_ok` ties every pixel's bytes to the walks
/// that produced them.
pub fn render(world: &SphereList, camera: &Camera, nx: u32, ny: u32, ns: u32) -> (buf: Vec<u8>)
    requires
        scene_wf(world.list@),
        1 <= nx <= 0xffff,
        1 <= ny <= 0xffff,
        1 <= ns <= 0xffff,
    ensures
        buf@.len() == 4 * ((nx as int) * (ny as int)),
        forall|k: int| 0 <= k < buf@.len() && k % 4 == 3 ==> buf@[k] == 255,
        pixels_ok(
            world.list@,
            camera@,
            nx as int,
            ny as int,
            ns as int,
            buf@,
            (nx as int) * (ny as int),
        ),
{
    let mut buffer: Vec<u8> = Vec::new();
    let mut jj: u32 = 0;
    while jj < ny
        invariant
            scene_wf(world.list@),
            1 <= nx <= 0xffff,
            1 <= ny <= 0xffff,
            1 <= ns <= 0xffff,
            jj <= ny,
            buffer@.len() == 4 * ((nx as int) * (jj as int)),
            forall|k: int| 0 <= k < buffer@.len() && k % 4 == 3 ==> buffer@[k] == 255,
            pixels_ok(
                world.list@,
                camera@,
                nx as int,
                ny as int,
                ns as int,
                buffer@,
                (nx as int) * (jj as int),
            ),
        decreases ny - jj,
    {
        let j = ny - 1 - jj;
        let mut i: u32 = 0;
        while i < nx
            invariant
                scene_wf(world.list@),
                1 <= nx <= 0xffff,
                1 <= ny <= 0xffff,
                1 <= ns <= 0xffff,
                jj < ny,
                j == ny - 1 - jj,
                i <= nx,
                buffer@.len() == 4 * ((nx as int) * (jj as int) + i as int),
                forall|k: int| 0 <= k < buffer@.len() && k % 4 == 3 ==> buffer@[k] == 255,
                pixels_ok(
                    world.list@,
                    camera@,
                    nx as int,
                    ny as int,
                    ns as int,
                    buffer@,
                    (nx as int) * (jj as int) + i as int,
                ),
            decreases nx - i,
        {
            let mut cr: i64 = 0;
            let mut cg: i64 = 0;
            let mut cb: i64 = 0;
            let mut s: u32 = 0;
            let ghost mut cols: Seq<V3> = Seq::empty();
            while s < ns
                invariant
                    scene_wf(world.list@),
                    1 <= nx <= 0xffff,
                    1 <= ny <= 0xffff,
                    1 <= ns <= 0xffff,
                    i < nx,
                    j < ny,
                    s <= ns,
                    0 <= cr <= (s as int) * 65536,
                    0 <= cg <= (s as int) * 65536,
                    0 <= cb <= (s as int) * 65536,
                    cols.len() == s as int,
                    forall|k: int|
                        0 <= k < cols.len() ==> #[trigger] pixel_sample(
                            world.list@,
                            camera@,
                            nx as int,
                            ny as int,
                            i as int,
                            j as int,
                            cols[k],
                        ),
                    cr as int == color_sum(cols).x,
                    cg as int == color_sum(cols).y,
                    cb as int == color_sum(cols).z,
                decreases ns - s,
            {
                let du = gen_unit_raw();
                let dv = gen_unit_raw();
                let u = fx_div(fx_add((i as i64) * 65536, du), (nx as i64) * 65536);
                let v = fx_div(fx_add((j as i64) * 65536, dv), (ny as i64) * 65536);
                let ray = camera.get_ray(u, v);
                let col = color(&ray, world, 0);
                proof {
                    let q = choose|q: V3|
                        unit_disk_sample(q) && ray@ == lens_ray_spec(
                            camera@,
                            u as int,
                            v as int,
                            q,
                        );
                    assert(color_outcome(
                        world.list@,
                        lens_ray_spec(camera@, u as int, v as int, q),
                        0,
                        col@,
                    ));
                    assert(pixel_sample(
                        world.list@,
                        camera@,
                        nx as int,
                        ny as int,
                        i as int,
                        j as int,
                        col@,
                    ));
                    let ghost cols0 = cols;
                    cols = cols.push(col@);
                    assert(cols.drop_last() =~= cols0);
                    assert(cols.last() == col@);
                }
                cr = cr + col.x;
                cg = cg + col.y;
                cb = cb + col.z;
                s = s + 1;
            }
            let ar = ((cr as u64) / (ns as u64)) as i64;
            let ag = ((cg as u64) / (ns as u64)) as i64;
            let ab = ((cb as u64) / (ns as u64)) as i64;
            let br = gamma_byte(ar);
            let bg = gamma_byte(ag);
            let bb = gamma_byte(ab);
            let ghost len0 = buffer@.len() as int;
            let ghost buf0 = buffer@;
            buffer.push(br);
            buffer.push(bg);
            buffer.push(bb);
            buffer.push(255);
            proof {
                assert(len0 % 4 == 0) by (nonlinear_arith)
                    requires
                        len0 == 4 * ((nx as int) * (jj as int) + i as int),
                ;
                assert forall|k: int|
                    0 <= k < buffer@.len() && k % 4 == 3 implies buffer@[k] == 255 by {
                    if k >= len0 {
                        assert((len0 + 3) % 4 == 3 && (len0 + 2) % 4 == 2 && (len0 + 1) % 4 == 1)
                            by (nonlinear_arith)
                            requires
                                len0 % 4 == 0,
                        ;
                    }
                }
                let k = (nx as int) * (jj as int) + i as int;
                assert((nx as int) * (jj as int) == (jj as int) * (nx as int))
                    by (nonlinear_arith);
                lemma_pixels_ok_extend(
                    world.list@,
                    camera@,
                    nx as int,
                    ny as int,
                    ns as int,
                    buf0,
                    buffer@,
                    k,
                );
                vstd::arithmetic::div_mod::lemma_fundamental_div_mod_converse(
                    k,
                    nx as int,
                    jj as int,
                    i as int,
                );
                assert(k % (nx as int) == i as int && k / (nx as int) == jj as int);
                assert(j as int == ny as int - 1 - k / (nx as int));
                assert(ar as int == color_sum(cols).x / (ns as int));
                assert(pixel_bytes(
                    world.list@,
                    camera@,
                    nx as int,
                    ny as int,
                    ns as int,
                    i as int,
                    j as int,
                    br as int,
                    bg as int,
                    bb as int,
                ));
                assert(buffer@[4 * k] == br && buffer@[4 * k + 1] == bg && buffer@[4 * k + 2] == bb
                    && buffer@[4 * k + 3] == 255);
                assert(pixels_ok(
                    world.list@,
                    camera@,
                    nx as int,
                    ny as int,
                    ns as int,
                    buffer@,
                    k + 1,
                ));
            }
            i = i + 1;
        }
        proof {
            assert((nx as int) * ((jj as int) + 1) == (nx as int) * (jj as int) + (nx as int))
                by (nonlinear_arith);
        }
        jj = jj + 1;
    }
    buffer
}

} // verus!
