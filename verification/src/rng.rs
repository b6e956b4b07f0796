//! Source of randomness for the asteroid split fan-out.

use rand::Rng;
use vstd::prelude::*;

verus! {

/// Relies on rand::Rng::gen_range over a half-open integer range (via the
/// thread-local generator): the sample always lies in the range, which must
/// not be empty. Nothing more is assumed of a random draw.
#[verifier::external_body]
pub(crate) fn random_in_range(lo: i64, hi: i64) -> (r: i64)
    requires
        lo < hi,
    ensures
        lo <= r < hi,
{
    rand::thread_rng().gen_range(lo..hi)
}

} // verus!
