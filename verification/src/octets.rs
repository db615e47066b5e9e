use vstd::prelude::*;

verus! {

/// Sixteen octets, most significant first: the staging area in which an
/// identifier is assembled before version and variant are stamped in.
pub type Octets = [u8; 16];

/// The number that sixteen octets spell when the first is the most
/// significant.
pub open spec fn pack16(
    b0: u8,
    b1: u8,
    b2: u8,
    b3: u8,
    b4: u8,
    b5: u8,
    b6: u8,
    b7: u8,
    b8: u8,
    b9: u8,
    b10: u8,
    b11: u8,
    b12: u8,
    b13: u8,
    b14: u8,
    b15: u8,
) -> u128 {
    (b0 as u128) << 120 | (b1 as u128) << 112 | (b2 as u128) << 104 | (b3 as u128) << 96 | (
    b4 as u128) << 88 | (b5 as u128) << 80 | (b6 as u128) << 72 | (b7 as u128) << 64 | (
    b8 as u128) << 56 | (b9 as u128) << 48 | (b10 as u128) << 40 | (b11 as u128) << 32 | (
    b12 as u128) << 24 | (b13 as u128) << 16 | (b14 as u128) << 8 | (b15 as u128)
}

/// The number that a sequence of sixteen octets spells, first octet most
/// significant.
pub open spec fn octets_value(o: Seq<u8>) -> u128 {
    pack16(
        o[0],
        o[1],
        o[2],
        o[3],
        o[4],
        o[5],
        o[6],
        o[7],
        o[8],
        o[9],
        o[10],
        o[11],
        o[12],
        o[13],
        o[14],
        o[15],
    )
}

/// Octet `i` of a 128-bit number, octet 0 being the most significant.
pub open spec fn value_octet(v: u128, i: int) -> u8 {
    ((v >> ((8 * (15 - i)) as u128)) & 0xff) as u8
}

/// The sixteen octets of a 128-bit number, most significant first.
pub open spec fn value_octets(v: u128) -> Seq<u8> {
    Seq::new(16, |i: int| value_octet(v, i))
}

/// The version of an identifier: the high nibble of octet 6.
pub open spec fn version_nibble(v: u128) -> u8 {
    ((v >> 76) & 0xf) as u8
}

/// The top two bits of octet 8, which read `10` in the variant of RFC 4122.
pub open spec fn variant_bits(v: u128) -> u8 {
    ((v >> 62) & 0x3) as u8
}

/// The octets after stamping: the high nibble of octet 6 holds the low four
/// bits of `version`, the top two bits of octet 8 read `10`, and every other
/// bit is as it was.
pub open spec fn stamped(o: Seq<u8>, version: u8) -> Seq<u8> {
    o.update(6, (o[6] & 0x0f) | ((version & 0x0f) << 4)).update(8, (o[8] & 0x3f) | 0x80)
}

proof fn lemma_unpack16(
    b0: u8,
    b1: u8,
    b2: u8,
    b3: u8,
    b4: u8,
    b5: u8,
    b6: u8,
    b7: u8,
    b8: u8,
    b9: u8,
    b10: u8,
    b11: u8,
    b12: u8,
    b13: u8,
    b14: u8,
    b15: u8,
)
    by (bit_vector)
    ensures
        ({
            let v = pack16(b0, b1, b2, b3, b4, b5, b6, b7, b8, b9, b10, b11, b12, b13, b14, b15);
            &&& ((v >> 120) & 0xff) as u8 == b0
            &&& ((v >> 112) & 0xff) as u8 == b1
            &&& ((v >> 104) & 0xff) as u8 == b2
            &&& ((v >> 96) & 0xff) as u8 == b3
            &&& ((v >> 88) & 0xff) as u8 == b4
            &&& ((v >> 80) & 0xff) as u8 == b5
            &&& ((v >> 72) & 0xff) as u8 == b6
            &&& ((v >> 64) & 0xff) as u8 == b7
            &&& ((v >> 56) & 0xff) as u8 == b8
            &&& ((v >> 48) & 0xff) as u8 == b9
            &&& ((v >> 40) & 0xff) as u8 == b10
            &&& ((v >> 32) & 0xff) as u8 == b11
            &&& ((v >> 24) & 0xff) as u8 == b12
            &&& ((v >> 16) & 0xff) as u8 == b13
            &&& ((v >> 8) & 0xff) as u8 == b14
            &&& ((v >> 0) & 0xff) as u8 == b15
        }),
{
}

proof fn lemma_repack16(v: u128)
    by (bit_vector)
    ensures
        pack16(
            ((v >> 120) & 0xff) as u8,
            ((v >> 112) & 0xff) as u8,
            ((v >> 104) & 0xff) as u8,
            ((v >> 96) & 0xff) as u8,
            ((v >> 88) & 0xff) as u8,
            ((v >> 80) & 0xff) as u8,
            ((v >> 72) & 0xff) as u8,
            ((v >> 64) & 0xff) as u8,
            ((v >> 56) & 0xff) as u8,
            ((v >> 48) & 0xff) as u8,
            ((v >> 40) & 0xff) as u8,
            ((v >> 32) & 0xff) as u8,
            ((v >> 24) & 0xff) as u8,
            ((v >> 16) & 0xff) as u8,
            ((v >> 8) & 0xff) as u8,
            ((v >> 0) & 0xff) as u8,
        ) == v,
{
}

/// Sixteen octets and the number that they spell determine each other.
pub proof fn lemma_octets_and_value(o: Seq<u8>, v: u128)
    requires
        o.len() == 16,
    ensures
        value_octets(octets_value(o)) == o,
        octets_value(value_octets(v)) == v,
        value_octets(v).len() == 16,
{
    lemma_unpack16(
        o[0],
        o[1],
        o[2],
        o[3],
        o[4],
        o[5],
        o[6],
        o[7],
        o[8],
        o[9],
        o[10],
        o[11],
        o[12],
        o[13],
        o[14],
        o[15],
    );
    assert(value_octets(octets_value(o)) =~= o);
    lemma_repack16(v);
}

proof fn lemma_stamp_bits(v: u128, b6: u8, b8: u8, version: u8)
    by (bit_vector)
    requires
        ((v >> 72) & 0xff) as u8 == (b6 & 0x0f) | ((version & 0x0f) << 4),
        ((v >> 56) & 0xff) as u8 == (b8 & 0x3f) | 0x80,
    ensures
        ((v >> 76) & 0xf) as u8 == version & 0x0f,
        ((v >> 62) & 0x3) as u8 == 2,
        (version & 0x0f) < 16,
        version < 16 ==> (version & 0x0f) == version,
{
}

/// Stamping fixes version and variant whatever the octets held: the version
/// reads as the low four bits of the one given, the variant as `10`.
pub proof fn lemma_stamped_version_and_variant(o: Seq<u8>, version: u8)
    requires
        o.len() == 16,
    ensures
        version_nibble(octets_value(stamped(o, version))) == version & 0x0f,
        variant_bits(octets_value(stamped(o, version))) == 2,
        version < 16 ==> version_nibble(octets_value(stamped(o, version))) == version,
{
    let after = stamped(o, version);
    let v = octets_value(after);
    lemma_octets_and_value(after, v);
    assert(value_octets(v)[6] == after[6]);
    assert(value_octets(v)[8] == after[8]);
    lemma_stamp_bits(v, o[6], o[8], version);
}

proof fn lemma_pack16_sum(
    b0: u8,
    b1: u8,
    b2: u8,
    b3: u8,
    b4: u8,
    b5: u8,
    b6: u8,
    b7: u8,
    b8: u8,
    b9: u8,
    b10: u8,
    b11: u8,
    b12: u8,
    b13: u8,
    b14: u8,
    b15: u8,
)
    by (bit_vector)
    ensures
        pack16(b0, b1, b2, b3, b4, b5, b6, b7, b8, b9, b10, b11, b12, b13, b14, b15) == b0
            * 0x100_0000_0000_0000_0000_0000_0000_0000 + b1
            * 0x1_0000_0000_0000_0000_0000_0000_0000 + b2 * 0x100_0000_0000_0000_0000_0000_0000
            + b3 * 0x1_0000_0000_0000_0000_0000_0000 + b4 * 0x100_0000_0000_0000_0000_0000 + b5
            * 0x1_0000_0000_0000_0000_0000 + b6 * 0x100_0000_0000_0000_0000 + b7
            * 0x1_0000_0000_0000_0000 + b8 * 0x100_0000_0000_0000 + b9 * 0x1_0000_0000_0000 + b10
            * 0x100_0000_0000 + b11 * 0x1_0000_0000 + b12 * 0x100_0000 + b13 * 0x1_0000 + b14
            * 0x100 + b15,
{
}

/// The number that sixteen octets spell is their sum, each octet weighted
/// by the power of 256 of its place.
pub proof fn lemma_octets_value_is_weighted_sum(o: Seq<u8>)
    requires
        o.len() == 16,
    ensures
        octets_value(o) == o[0] * 0x100_0000_0000_0000_0000_0000_0000_0000 + o[1]
            * 0x1_0000_0000_0000_0000_0000_0000_0000 + o[2] * 0x100_0000_0000_0000_0000_0000_0000
            + o[3] * 0x1_0000_0000_0000_0000_0000_0000 + o[4] * 0x100_0000_0000_0000_0000_0000
            + o[5] * 0x1_0000_0000_0000_0000_0000 + o[6] * 0x100_0000_0000_0000_0000 + o[7]
            * 0x1_0000_0000_0000_0000 + o[8] * 0x100_0000_0000_0000 + o[9] * 0x1_0000_0000_0000
            + o[10] * 0x100_0000_0000 + o[11] * 0x1_0000_0000 + o[12] * 0x100_0000 + o[13]
            * 0x1_0000 + o[14] * 0x100 + o[15],
{
    lemma_pack16_sum(
        o[0],
        o[1],
        o[2],
        o[3],
        o[4],
        o[5],
        o[6],
        o[7],
        o[8],
        o[9],
        o[10],
        o[11],
        o[12],
        o[13],
        o[14],
        o[15],
    );
}

proof fn lemma_stamp_arithmetic(b6: u8, b8: u8, version: u8)
    by (bit_vector)
    ensures
        (b6 & 0x0f) | ((version & 0x0f) << 4) == b6 % 16 + 16 * (version % 16),
        (b8 & 0x3f) | 0x80 == 128 + b8 % 64,
{
}

/// Stamping octet by octet: octet 6 keeps its low nibble below the low
/// nibble of the version, octet 8 keeps its low six bits below `10`, and the
/// other fourteen octets stay as they are.
pub proof fn lemma_stamped_octets(o: Seq<u8>, version: u8)
    requires
        o.len() == 16,
    ensures
        stamped(o, version).len() == 16,
        stamped(o, version)[6] == o[6] % 16 + 16 * (version % 16),
        stamped(o, version)[8] == 128 + o[8] % 64,
        forall|i: int| 0 <= i < 16 && i != 6 && i != 8 ==> stamped(o, version)[i] == o[i],
{
    lemma_stamp_arithmetic(o[6], o[8], version);
}

} // verus!
