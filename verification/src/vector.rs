//! Three-component fixed-point vectors, used for positions, directions and
//! RGB colors alike. Each executable operation is pinned to a spec-level twin
//! over the vector's view `V3` (three unbounded integers).

use vstd::prelude::*;
use crate::fixed::{
    fx_add, fx_add_spec, fx_div, fx_div_spec, fx_mul, fx_mul_spec, fx_neg, fx_neg_spec, fx_sqrt,
    fx_sqrt_spec, fx_sub, fx_sub_spec,
};

verus! {

/// Spec-level view of a vector.
pub ghost struct V3 {
    pub x: int,
    pub y: int,
    pub z: int,
}

/// A vector of three fixed-point scalars.
#[derive(Clone, Copy, PartialEq, Eq, Structural, Debug)]
pub struct Vector3 {
    pub x: i64,
    pub y: i64,
    pub z: i64,
}

impl View for Vector3 {
    type V = V3;

    open spec fn view(&self) -> V3 {
        V3 { x: self.x as int, y: self.y as int, z: self.z as int }
    }
}

impl Vector3 {
    pub fn new(x: i64, y: i64, z: i64) -> (r: Vector3)
        ensures
            r@ == (V3 { x: x as int, y: y as int, z: z as int }),
    {
        Vector3 { x, y, z }
    }
}

pub open spec fn v3_add_spec(a: V3, b: V3) -> V3 {
    V3 { x: fx_add_spec(a.x, b.x), y: fx_add_spec(a.y, b.y), z: fx_add_spec(a.z, b.z) }
}

pub open spec fn v3_sub_spec(a: V3, b: V3) -> V3 {
    V3 { x: fx_sub_spec(a.x, b.x), y: fx_sub_spec(a.y, b.y), z: fx_sub_spec(a.z, b.z) }
}

pub open spec fn v3_neg_spec(a: V3) -> V3 {
    V3 { x: fx_neg_spec(a.x), y: fx_neg_spec(a.y), z: fx_neg_spec(a.z) }
}

/// Componentwise product with a scalar.
pub open spec fn v3_scale_spec(a: V3, k: int) -> V3 {
    V3 { x: fx_mul_spec(a.x, k), y: fx_mul_spec(a.y, k), z: fx_mul_spec(a.z, k) }
}

/// Componentwise quotient by a scalar.
pub open spec fn v3_div_scalar_spec(a: V3, k: int) -> V3 {
    V3 { x: fx_div_spec(a.x, k), y: fx_div_spec(a.y, k), z: fx_div_spec(a.z, k) }
}

pub open spec fn dot_spec(a: V3, b: V3) -> int {
    fx_add_spec(
        fx_add_spec(fx_mul_spec(a.x, b.x), fx_mul_spec(a.y, b.y)),
        fx_mul_spec(a.z, b.z),
    )
}

pub open spec fn cross_spec(a: V3, b: V3) -> V3 {
    V3 {
        x: fx_sub_spec(fx_mul_spec(a.y, b.z), fx_mul_spec(a.z, b.y)),
        y: fx_sub_spec(fx_mul_spec(a.z, b.x), fx_mul_spec(a.x, b.z)),
        z: fx_sub_spec(fx_mul_spec(a.x, b.y), fx_mul_spec(a.y, b.x)),
    }
}

/// Componentwise product of two vectors (used for color attenuation).
pub open spec fn vector_multiply_spec(a: V3, b: V3) -> V3 {
    V3 { x: fx_mul_spec(a.x, b.x), y: fx_mul_spec(a.y, b.y), z: fx_mul_spec(a.z, b.z) }
}

pub open spec fn vector_length_spec(a: V3) -> int {
    fx_sqrt_spec(dot_spec(a, a))
}

/// The vector divided by its own length (zero when the length rounds to zero).
pub open spec fn unit_vector_spec(a: V3) -> V3 {
    v3_div_scalar_spec(a, vector_length_spec(a))
}

pub fn v3_add(a: &Vector3, b: &Vector3) -> (r: Vector3)
    ensures
        r@ == v3_add_spec(a@, b@),
{
    Vector3 { x: fx_add(a.x, b.x), y: fx_add(a.y, b.y), z: fx_add(a.z, b.z) }
}

pub fn v3_sub(a: &Vector3, b: &Vector3) -> (r: Vector3)
    ensures
        r@ == v3_sub_spec(a@, b@),
{
    Vector3 { x: fx_sub(a.x, b.x), y: fx_sub(a.y, b.y), z: fx_sub(a.z, b.z) }
}

pub fn v3_neg(a: &Vector3) -> (r: Vector3)
    ensures
        r@ == v3_neg_spec(a@),
{
    Vector3 { x: fx_neg(a.x), y: fx_neg(a.y), z: fx_neg(a.z) }
}

pub fn v3_scale(a: &Vector3, k: i64) -> (r: Vector3)
    ensures
        r@ == v3_scale_spec(a@, k as int),
{
    Vector3 { x: fx_mul(a.x, k), y: fx_mul(a.y, k), z: fx_mul(a.z, k) }
}

pub fn v3_div_scalar(a: &Vector3, k: i64) -> (r: Vector3)
    ensures
        r@ == v3_div_scalar_spec(a@, k as int),
{
    Vector3 { x: fx_div(a.x, k), y: fx_div(a.y, k), z: fx_div(a.z, k) }
}

pub fn dot(a: &Vector3, b: &Vector3) -> (r: i64)
    ensures
        r as int == dot_spec(a@, b@),
{
    fx_add(fx_add(fx_mul(a.x, b.x), fx_mul(a.y, b.y)), fx_mul(a.z, b.z))
}

pub fn cross(a: &Vector3, b: &Vector3) -> (r: Vector3)
    ensures
        r@ == cross_spec(a@, b@),
{
    Vector3 {
        x: fx_sub(fx_mul(a.y, b.z), fx_mul(a.z, b.y)),
        y: fx_sub(fx_mul(a.z, b.x), fx_mul(a.x, b.z)),
        z: fx_sub(fx_mul(a.x, b.y), fx_mul(a.y, b.x)),
    }
}

pub fn vector_multiply(a: &Vector3, b: &Vector3) -> (r: Vector3)
    ensures
        r@ == vector_multiply_spec(a@, b@),
{
    Vector3 { x: fx_mul(a.x, b.x), y: fx_mul(a.y, b.y), z: fx_mul(a.z, b.z) }
}

pub fn vector_length(vector: &Vector3) -> (r: i64)
    ensures
        r as int == vector_length_spec(vector@),
        0 <= r,
{
    fx_sqrt(dot(vector, vector))
}

pub fn unit_vector(vector: &Vector3) -> (r: Vector3)
    ensures
        r@ == unit_vector_spec(vector@),
{
    let len = vector_length(vector);
    v3_div_scalar(vector, len)
}

} // verus!
