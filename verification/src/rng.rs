use vstd::prelude::*;

verus! {

/// Relies on rand::Rng::gen_range on rand::thread_rng: on a non-empty
/// inclusive range it returns a value drawn from that range. `lo <= hi` rules
/// out the one panic gen_range itself has, on an empty range; thread_rng can
/// still fail environmentally if the OS entropy source does, like any
/// allocation failure.
#[verifier::external_body]
pub(crate) fn random_in_range(lo: i32, hi: i32) -> (r: i32)
    requires
        lo <= hi,
    ensures
        lo <= r <= hi,
{
    let mut rng = rand::thread_rng();
    rand::Rng::gen_range(&mut rng, lo..=hi)
}

} // verus!
