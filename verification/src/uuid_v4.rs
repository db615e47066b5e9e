use crate::entropy::fill_bytes;
use crate::octets::{variant_bits, version_nibble, Octets};
use crate::uuid::Uuid;
use vstd::prelude::*;

verus! {

/// A random identifier: sixteen octets from the thread's random generator,
/// stamped with version 4. Whatever the generator gives, the version reads 4
/// and the variant `10`.
pub fn v4() -> (uuid: Uuid)
    ensures
        version_nibble(uuid@) == 4,
        variant_bits(uuid@) == 2,
{
    let mut octets: Octets = [0u8; 16];
    let mut rng = rand::thread_rng();
    fill_bytes(&mut rng, &mut octets);
    Uuid::from_octets(octets, 0x4)
}

} // verus!
