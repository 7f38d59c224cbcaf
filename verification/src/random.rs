use vstd::prelude::*;
use rand::RngCore;

verus! {

/// Relies on rand's `OsRng`, the operating system's cryptographically secure
/// randomness source: `fill_bytes` overwrites the whole slice; nothing can be
/// said of the values drawn.
#[verifier::external_body]
pub fn fill_random(buf: &mut Vec<u8>)
    ensures
        final(buf)@.len() == old(buf)@.len(),
{
    rand::rngs::OsRng.fill_bytes(buf.as_mut_slice());
}

/// Relies on rand's `OsRng`: `next_u32` draws one word from the operating
/// system's cryptographically secure randomness source; nothing is known of it.
#[verifier::external_body]
pub fn random_u32() -> u32 {
    rand::rngs::OsRng.next_u32()
}

/// A fresh buffer of `n` bytes drawn from the secure randomness source.
pub fn random_bytes(n: usize) -> (r: Vec<u8>)
    ensures
        r@.len() == n,
{
    let mut buf: Vec<u8> = vec![0u8; n];
    fill_random(&mut buf);
    buf
}

} // verus!
