//! Trusted boundary around the seeded pseudo-random source. The generator
//! itself comes from an outside crate; everything the rest of the library
//! assumes about a draw is stated here and nowhere else.

use vstd::prelude::*;

verus! {

#[verifier::external_type_specification]
#[verifier::external_body]
pub struct ExLcg128Xsl64(rand_pcg::Lcg128Xsl64);

/// Relies on rand_pcg::Pcg64::new: seeds a PCG generator from the two given
/// 128-bit constants.
#[verifier::external_body]
pub(crate) fn pcg_new(state: u128, stream: u128) -> rand_pcg::Pcg64 {
    rand_pcg::Pcg64::new(state, stream)
}

/// Relies on rand_core::RngCore::fill_bytes for rand_pcg::Pcg64: fills a
/// buffer of the requested length with generator output and cannot fail.
#[verifier::external_body]
pub(crate) fn pcg_bytes(rng: &mut rand_pcg::Pcg64, len: usize) -> (r: Vec<u8>)
    ensures
        r@.len() == len,
{
    let mut buf = vec![0u8; len];
    rand::RngCore::fill_bytes(rng, &mut buf);
    buf
}

/// Relies on rand::Rng::gen_ratio: returns true with probability
/// numerator/denominator; the result is documented to always be true when
/// numerator == denominator and always false when numerator == 0. It panics
/// when denominator == 0 or numerator > denominator, so those inputs are
/// excluded.
#[verifier::external_body]
pub(crate) fn pcg_ratio(rng: &mut rand_pcg::Pcg64, numerator: u32, denominator: u32) -> (r: bool)
    requires
        0 < denominator,
        numerator <= denominator,
    ensures
        numerator == denominator ==> r,
        numerator == 0 ==> !r,
{
    rand::Rng::gen_ratio(rng, numerator, denominator)
}

/// Relies on rand::Rng::gen_range over 0..bound: returns a value uniformly
/// drawn from that half-open range, hence below the bound. It panics on an
/// empty range, so a zero bound is excluded.
#[verifier::external_body]
pub(crate) fn pcg_index(rng: &mut rand_pcg::Pcg64, bound: usize) -> (r: usize)
    requires
        0 < bound,
    ensures
        r < bound,
{
    rand::Rng::gen_range(rng, 0..bound)
}

} // verus!
