//! The single boundary to the random-number generator. Every stochastic
//! choice in the tracer draws through `gen_unit_raw`, and the verified code
//! is proved for every value the draw can take.

use vstd::prelude::*;
use crate::fixed::FX_ONE;

verus! {

/// Relies on `rand::Rng::gen_range` on the thread-local generator: a value
/// uniformly distributed in the half-open range handed to it, here
/// `0..FX_ONE`, i.e. a fixed-point value in `[0, 1)`.
#[verifier::external_body]
pub(crate) fn gen_unit_raw() -> (r: i64)
    ensures
        0 <= r < FX_ONE,
{
    rand::Rng::gen_range(&mut rand::thread_rng(), 0i64..65536i64)
}

} // verus!
