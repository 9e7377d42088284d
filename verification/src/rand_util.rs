//! Random draws, behind trusted wrappers.
//!
//! Nothing is named about a random result; each wrapper states only what
//! holds of every outcome.

use vstd::prelude::*;
use rand::distr::SampleString;

verus! {

/// Whether `c` is an ASCII letter or digit.
pub open spec fn is_alnum_char(c: char) -> bool {
    ('a' <= c && c <= 'z') || ('A' <= c && c <= 'Z') || ('0' <= c && c <= '9')
}

/// Relies on `rand::random_range`: a uniform draw from the half-open
/// range, so the result stays below `u64::MAX`.
#[verifier::external_body]
pub fn rand_int() -> (r: u64)
    ensures
        r < u64::MAX,
{
    rand::random_range(0..u64::MAX)
}

/// Relies on `rand::distr::Alphanumeric` with `SampleString`: exactly 16
/// characters, each an ASCII letter or digit.
#[verifier::external_body]
pub fn nickname() -> (r: String)
    ensures
        r@.len() == 16,
        forall|i: int| 0 <= i < r@.len() ==> is_alnum_char(#[trigger] r@[i]),
{
    rand::distr::Alphanumeric.sample_string(&mut rand::rng(), 16)
}

} // verus!
