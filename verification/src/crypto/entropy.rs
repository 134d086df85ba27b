//! Randomness from the operating system and wiping of key material.

use rand::rngs::OsRng;
use rand::RngCore;
use vstd::prelude::*;
use zeroize::Zeroize;

verus! {

/// The all-zero byte string of length `n`.
pub open spec fn zeros(n: nat) -> Seq<u8> {
    Seq::new(n, |i: int| 0u8)
}

/// Calls `RngCore::fill_bytes` on `rand::rngs::OsRng`: `N` bytes from the
/// operating system's generator. Nothing is claimed about the bytes.
#[verifier::external_body]
pub(crate) fn random_bytes<const N: usize>() -> (bytes: [u8; N]) {
    let mut bytes = [0u8; N];
    OsRng.fill_bytes(&mut bytes);
    bytes
}

/// Calls `Zeroize::zeroize` on a byte array: every byte is overwritten with
/// zero, in a way the compiler may not elide.
#[verifier::external_body]
pub(crate) fn wipe<const N: usize>(bytes: &mut [u8; N])
    ensures
        final(bytes)@ == zeros(N as nat),
{
    bytes.zeroize();
}

/// Calls `Zeroize::zeroize` on a byte vector, which overwrites its bytes
/// with zero. The vector is not used afterwards, and nothing is claimed
/// about what it holds.
#[verifier::external_body]
pub(crate) fn wipe_vec(bytes: &mut Vec<u8>) {
    bytes.zeroize();
}

} // verus!
