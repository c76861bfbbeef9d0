//! Random draws from `rand`'s standard generator.

use rand::rngs::StdRng;
use rand::RngCore;
use vstd::prelude::*;

verus! {

/// `rand::rngs::StdRng`, opaque: it is only handed on to [`next_draw`].
#[verifier::external_type_specification]
#[verifier::external_body]
pub struct ExStdRng(StdRng);

/// Relies on `rand::RngCore::next_u32` for `StdRng`: the next 32 bits of the
/// generator's stream. It never fails; any value may come.
#[verifier::external_body]
fn next_draw(rng: &mut StdRng) -> u32 {
    rng.next_u32()
}

/// `n` successive draws.
pub(crate) fn draws(rng: &mut StdRng, n: usize) -> (r: Vec<u32>)
    ensures
        r@.len() == n,
{
    let mut r: Vec<u32> = Vec::new();
    for _i in 0..n
        invariant
            r@.len() == _i,
    {
        r.push(next_draw(rng));
    }
    r
}

} // verus!
