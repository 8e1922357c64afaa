//! The library's only door to the random number generator. Each wrapper
//! states no more of its result than holds of every draw.

use vstd::prelude::*;
use rand::Rng;
use rand::seq::SliceRandom;

verus! {

/// Relies on rand's `Rng::gen_range` over `lo..hi`: it panics only on an
/// empty range, and returns a value drawn from within the range.
#[verifier::external_body]
pub(crate) fn gen_range_i64(lo: i64, hi: i64) -> (r: i64)
    requires
        lo < hi,
    ensures
        lo <= r < hi,
{
    rand::thread_rng().gen_range(lo..hi)
}

/// Relies on rand's `SliceRandom::choose`: it returns `None` exactly on an
/// empty slice, and otherwise one of the slice's elements.
#[verifier::external_body]
pub(crate) fn choose_bool(choices: &Vec<bool>) -> (r: Option<bool>)
    ensures
        r is Some <==> choices@.len() > 0,
        r matches Some(b) ==> choices@.contains(b),
{
    choices.choose(&mut rand::thread_rng()).copied()
}

} // verus!
