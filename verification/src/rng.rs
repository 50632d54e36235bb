use vstd::prelude::*;
use rand::Rng;

verus! {

/// Relies on `rand::Rng::gen_range` over the half-open range `0..n`, which
/// returns a value of the range, uniformly distributed; `n >= 1` keeps the
/// range non-empty, on which `gen_range` would panic. Nothing more is assumed
/// of which value comes back.
#[verifier::external_body]
pub(crate) fn random_below(n: u32) -> (r: u32)
    requires
        n >= 1,
    ensures
        r < n,
{
    rand::thread_rng().gen_range(0..n)
}

} // verus!
