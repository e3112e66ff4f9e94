//! A ray: an origin and a direction, with a parametric point evaluator.
//! The direction is not required to be unit length; all intersection math
//! divides by `dot(direction, direction)` instead of assuming 1.

use vstd::prelude::*;
use crate::vector::{v3_add, v3_add_spec, v3_scale, v3_scale_spec, Vector3, V3};

verus! {

/// Spec-level view of a ray.
pub ghost struct RayV {
    pub origin: V3,
    pub direction: V3,
}

#[derive(Clone, Copy, PartialEq, Eq, Structural, Debug)]
pub struct Ray {
    pub origin: Vector3,
    pub direction: Vector3,
}

impl View for Ray {
    type V = RayV;

    open spec fn view(&self) -> RayV {
        RayV { origin: self.origin@, direction: self.direction@ }
    }
}

/// The point `origin + t * direction`.
pub open spec fn point_at_spec(r: RayV, t: int) -> V3 {
    v3_add_spec(r.origin, v3_scale_spec(r.direction, t))
}

impl Ray {
    pub fn new(origin: Vector3, direction: Vector3) -> (r: Ray)
        ensures
            r.origin == origin,
            r.direction == direction,
    {
        Ray { origin, direction }
    }

    pub fn point_at_parameter(&self, t: i64) -> (r: Vector3)
        ensures
            r@ == point_at_spec(self@, t as int),
    {
        v3_add(&self.origin, &v3_scale(&self.direction, t))
    }
}

} // verus!
