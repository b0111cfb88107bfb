//! The Adler-32 checksum that tells whether a page changed since it was
//! last stored.

use vstd::prelude::*;
use vstd::string::*;

verus! {

/// The modulus of Adler-32.
pub open spec fn adler_modulus() -> int {
    65521
}

/// The two running sums of Adler-32 after `data`: `a` starts at 1 and adds
/// each byte, `b` adds each new `a`, both modulo 65521.
pub open spec fn adler_sums(data: Seq<u8>) -> (int, int)
    decreases data.len(),
{
    if data.len() == 0 {
        (1, 0)
    } else {
        let (a, b) = adler_sums(data.drop_last());
        let a2 = (a + data.last()) % adler_modulus();
        (a2, (b + a2) % adler_modulus())
    }
}

/// The Adler-32 checksum of `data`: `b * 65536 + a`.
pub open spec fn adler32(data: Seq<u8>) -> u32 {
    let (a, b) = adler_sums(data);
    (b * 65536 + a) as u32
}

/// `adler::adler32_slice`. Claimed: the result is the Adler-32 checksum of
/// `data` as `adler32` defines it (sums start at 1 and 0, modulus 65521,
/// `b` in the high half), which is what the crate's `Adler32` computes.
#[verifier::external_body]
pub(crate) fn adler32_slice(data: &[u8]) -> (sum: u32)
    ensures
        sum == adler32(data@),
{
    ::adler::adler32_slice(data)
}

/// The Adler-32 checksum of the UTF-8 bytes of a page body.
pub fn body_checksum(body: &str) -> (sum: u32)
    ensures
        sum == adler32(body.spec_bytes()),
{
    adler32_slice(body.as_bytes())
}

} // verus!
