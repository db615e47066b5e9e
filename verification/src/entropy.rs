use crate::octets::Octets;
use rand::rngs::ThreadRng;
use rand::RngCore;
use vstd::prelude::*;

verus! {

/// The handle of rand's generator of the current thread. Nothing is known
/// of what is inside.
#[verifier::external_type_specification]
#[verifier::external_body]
pub struct ExThreadRng(rand::rngs::ThreadRng);

/// `rand::thread_rng` hands out the handle of the current thread's
/// generator, which the system seeds when the thread first asks for it.
/// Nothing is claimed of the handle.
pub assume_specification[ rand::thread_rng ]() -> (rng: ThreadRng)
;

/// `RngCore::next_u32` on the thread's generator: the next 32 random bits.
/// Nothing is claimed of them.
#[verifier::external_body]
pub(crate) fn next_u32(rng: &mut ThreadRng) -> (bits: u32) {
    rng.next_u32()
}

/// `RngCore::next_u64` on the thread's generator: the next 64 random bits.
/// Nothing is claimed of them.
#[verifier::external_body]
pub(crate) fn next_u64(rng: &mut ThreadRng) -> (bits: u64) {
    rng.next_u64()
}

/// `RngCore::fill_bytes` on the thread's generator: overwrites every octet
/// with random bits. Nothing is claimed of the octets afterwards.
#[verifier::external_body]
pub(crate) fn fill_bytes(rng: &mut ThreadRng, octets: &mut Octets) {
    rng.fill_bytes(octets)
}

} // verus!
