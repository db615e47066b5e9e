use crate::uuid::Uuid;
use vstd::prelude::*;

verus! {

/// The identifier whose bits are all zero.
pub fn nil() -> (uuid: Uuid)
    ensures
        uuid@ == 0,
{
    Uuid(0)
}

/// The namespace of fully qualified domain names,
/// `6ba7b810-9dad-11d1-80b4-00c04fd430c8`.
pub fn ns_dns() -> (uuid: Uuid)
    ensures
        uuid@ == 0x6ba7b810_9dad_11d1_80b4_00c04fd430c8,
{
    Uuid(0x6ba7b810_9dad_11d1_80b4_00c04fd430c8)
}

/// The namespace of URLs, `6ba7b811-9dad-11d1-80b4-00c04fd430c8`.
pub fn ns_url() -> (uuid: Uuid)
    ensures
        uuid@ == 0x6ba7b811_9dad_11d1_80b4_00c04fd430c8,
{
    Uuid(0x6ba7b811_9dad_11d1_80b4_00c04fd430c8)
}

/// The namespace of ISO object identifiers,
/// `6ba7b812-9dad-11d1-80b4-00c04fd430c8`.
pub fn ns_oid() -> (uuid: Uuid)
    ensures
        uuid@ == 0x6ba7b812_9dad_11d1_80b4_00c04fd430c8,
{
    Uuid(0x6ba7b812_9dad_11d1_80b4_00c04fd430c8)
}

/// The namespace of X.500 distinguished names,
/// `6ba7b814-9dad-11d1-80b4-00c04fd430c8`.
pub fn ns_x500() -> (uuid: Uuid)
    ensures
        uuid@ == 0x6ba7b814_9dad_11d1_80b4_00c04fd430c8,
{
    Uuid(0x6ba7b814_9dad_11d1_80b4_00c04fd430c8)
}

} // verus!
