use crate::octets::{octets_value, stamped, value_octets, variant_bits, version_nibble, Octets};
use crate::uuid::Uuid;
use crate::uuid_v4::v4;
use digest::Digest;
use md5::Md5;
use sha1::Sha1;
use vstd::prelude::*;

verus! {

/// The MD5 digest of a sequence of octets: sixteen octets.
pub uninterp spec fn md5_digest(data: Seq<u8>) -> Seq<u8>;

/// The SHA-1 digest of a sequence of octets: twenty octets.
pub uninterp spec fn sha1_digest(data: Seq<u8>) -> Seq<u8>;

/// `Digest::digest` of the digest crate on `md5::Md5`: the MD5 digest of
/// `data`, which depends on `data` alone and is sixteen octets long.
#[verifier::external_body]
fn md5(data: &[u8]) -> (digest: [u8; 16])
    ensures
        digest@ == md5_digest(data@),
{
    Md5::digest(data).into()
}

/// `Digest::digest` of the digest crate on `sha1::Sha1`: the SHA-1 digest
/// of `data`, which depends on `data` alone and is twenty octets long.
#[verifier::external_body]
fn sha1(data: &[u8]) -> (digest: [u8; 20])
    ensures
        digest@ == sha1_digest(data@),
{
    Sha1::digest(data).into()
}

/// What is hashed for a name in a namespace: the sixteen octets of the
/// namespace, most significant first, and then the name.
pub open spec fn hash_input(namespace: u128, name: Seq<u8>) -> Seq<u8> {
    value_octets(namespace) + name
}

/// The identifier made of a digest: its first sixteen octets, stamped.
pub open spec fn digest_identifier(digest: Seq<u8>, version: u8) -> u128 {
    octets_value(stamped(digest.subrange(0, 16), version))
}

/// The version 3 identifier of a name in a namespace.
pub open spec fn v3_value(namespace: u128, name: Seq<u8>) -> u128 {
    digest_identifier(md5_digest(hash_input(namespace, name)), 3)
}

/// The version 5 identifier of a name in a namespace.
pub open spec fn v5_value(namespace: u128, name: Seq<u8>) -> u128 {
    digest_identifier(sha1_digest(hash_input(namespace, name)), 5)
}

/// The octets of `namespace` followed by `name`.
pub fn build_hash_input(namespace: &Uuid, name: &[u8]) -> (input: Vec<u8>)
    ensures
        input@ == hash_input(namespace@, name@),
{
    let octets = namespace.to_octets();
    let mut input: Vec<u8> = Vec::new();
    input.extend_from_slice(octets.as_slice());
    input.extend_from_slice(name);
    input
}

/// Makes an identifier of the first sixteen octets of a digest.
pub fn hash_based_uuid(digest: &[u8], version_hi: u8) -> (uuid: Uuid)
    requires
        digest@.len() >= 16,
    ensures
        uuid@ == digest_identifier(digest@, version_hi),
        version_nibble(uuid@) == version_hi & 0x0f,
        version_hi < 16 ==> version_nibble(uuid@) == version_hi,
        variant_bits(uuid@) == 2,
{
    let mut octets: Octets = [0u8; 16];
    let mut i: usize = 0;
    while i < 16
        invariant
            i <= 16,
            digest@.len() >= 16,
            forall|j: int| 0 <= j < i ==> octets@[j] == digest@[j],
        decreases 16 - i,
    {
        octets[i] = digest[i];
        i = i + 1;
    }
    assert(octets@ =~= digest@.subrange(0, 16));
    Uuid::from_octets(octets, version_hi)
}

/// The version 3 identifier of `name`: the MD5 digest of the namespace's
/// octets followed by the name, stamped with version 3. With a namespace
/// given, the same name always gives the same identifier. With none, a fresh
/// random identifier takes the namespace's place, and the result is the
/// version 3 identifier of `name` in some namespace of version 4.
pub fn v3(name: &[u8], namespace: Option<Uuid>) -> (uuid: Uuid)
    ensures
        namespace matches Some(ns) ==> uuid@ == v3_value(ns@, name@),
        namespace is None ==> exists|ns: u128|
            version_nibble(ns) == 4 && variant_bits(ns) == 2 && uuid@ == #[trigger] v3_value(
                ns,
                name@,
            ),
        version_nibble(uuid@) == 3,
        variant_bits(uuid@) == 2,
{
    let namespace = match namespace {
        Some(ns) => ns,
        None => v4(),
    };
    let input = build_hash_input(&namespace, name);
    let digest = md5(input.as_slice());
    let uuid = hash_based_uuid(digest.as_slice(), 0x03);
    assert(uuid@ == v3_value(namespace@, name@));
    uuid
}

/// The version 5 identifier of `name`: the first sixteen octets of the
/// SHA-1 digest of the namespace's octets followed by the name, stamped with
/// version 5. With a namespace given, the same name always gives the same
/// identifier. With none, a fresh random identifier takes the namespace's
/// place, and the result is the version 5 identifier of `name` in some
/// namespace of version 4.
pub fn v5(name: &[u8], namespace: Option<Uuid>) -> (uuid: Uuid)
    ensures
        namespace matches Some(ns) ==> uuid@ == v5_value(ns@, name@),
        namespace is None ==> exists|ns: u128|
            version_nibble(ns) == 4 && variant_bits(ns) == 2 && uuid@ == #[trigger] v5_value(
                ns,
                name@,
            ),
        version_nibble(uuid@) == 5,
        variant_bits(uuid@) == 2,
{
    let namespace = match namespace {
        Some(ns) => ns,
        None => v4(),
    };
    let input = build_hash_input(&namespace, name);
    let digest = sha1(input.as_slice());
    let uuid = hash_based_uuid(digest.as_slice(), 0x05);
    assert(uuid@ == v5_value(namespace@, name@));
    uuid
}

/// Name-based generation is a function of namespace and name: whatever two
/// calls with the same namespace and the same name return is one and the
/// same identifier, in version 3 and in version 5.
pub proof fn lemma_name_based_is_deterministic(
    namespace: Uuid,
    name: Seq<u8>,
    first: Uuid,
    second: Uuid,
)
    requires
        first@ == v3_value(namespace@, name) && second@ == v3_value(namespace@, name) || first@
            == v5_value(namespace@, name) && second@ == v5_value(namespace@, name),
    ensures
        first == second,
{
}

} // verus!
