use crate::constants::MILLISECS_GREGORIAN_UNIX;
use crate::uuid::Uuid;
use vstd::prelude::*;

verus! {

/// `ToPrimitive::to_u64` of num-traits on an `i32`: the same number as a
/// `u64` where it is not negative, and `None` where it is.
#[verifier::external_body]
fn i32_to_u64(n: i32) -> (out: Option<u64>)
    ensures
        out == if n >= 0 {
            Some(n as u64)
        } else {
            None::<u64>
        },
{
    num_traits::ToPrimitive::to_u64(&n)
}

/// `FromPrimitive::from_u64` of num-traits for `i32`: the same number as an
/// `i32` where it is at most `i32::MAX`, and `None` where it is larger.
#[verifier::external_body]
fn i32_from_u64(n: u64) -> (out: Option<i32>)
    ensures
        out == if n <= i32::MAX {
            Some(n as i32)
        } else {
            None::<i32>
        },
{
    num_traits::FromPrimitive::from_u64(n)
}

/// The six fields of an identifier in the layout of RFC 4122, each as the
/// number that its octets spell, first octet most significant.
#[derive(Clone, Copy, Debug)]
pub struct UuidFields {
    pub time_low: u32,
    pub time_mid: u16,
    pub time_hi_and_version: u16,
    pub clk_seq_hi_res: u8,
    pub clk_seq_low: u8,
    pub node: u64,
}

/// The fields of a 128-bit number: from the top, 32 bits of `time_low`, 16
/// of `time_mid`, 16 of `time_hi_and_version`, 8 of `clk_seq_hi_res`, 8 of
/// `clk_seq_low` and 48 of `node`.
pub open spec fn fields_of(v: u128) -> UuidFields {
    UuidFields {
        time_low: ((v >> 96) & 0xffff_ffff) as u32,
        time_mid: ((v >> 80) & 0xffff) as u16,
        time_hi_and_version: ((v >> 64) & 0xffff) as u16,
        clk_seq_hi_res: ((v >> 56) & 0xff) as u8,
        clk_seq_low: ((v >> 48) & 0xff) as u8,
        node: (v & 0xffff_ffff_ffff) as u64,
    }
}

impl UuidFields {
    pub fn of(uuid: &Uuid) -> (fields: Self)
        ensures
            fields == fields_of(uuid@),
    {
        let v = uuid.value();
        assert((v >> 96) & 0xffff_ffff <= 0xffff_ffff && (v >> 80) & 0xffff <= 0xffff && (v >> 64)
            & 0xffff <= 0xffff && (v >> 56) & 0xff <= 0xff && (v >> 48) & 0xff <= 0xff && v
            & 0xffff_ffff_ffff <= 0xffff_ffff_ffff) by (bit_vector);
        Self {
            time_low: ((v >> 96) & 0xffff_ffff) as u32,
            time_mid: ((v >> 80) & 0xffff) as u16,
            time_hi_and_version: ((v >> 64) & 0xffff) as u16,
            clk_seq_hi_res: ((v >> 56) & 0xff) as u8,
            clk_seq_low: ((v >> 48) & 0xff) as u8,
            node: (v & 0xffff_ffff_ffff) as u64,
        }
    }
}

/// What the fields of an identifier say.
#[derive(Clone, Copy, Debug)]
pub struct UuidDetails {
    /// The 60-bit time field: a count of 100-nanosecond intervals since
    /// 1582-10-15T00:00:00Z.
    pub time: u64,
    /// The 4-bit version.
    pub version: u8,
    /// The variant, which is one, two or three bits wide: the octet that
    /// holds it, with the bits of the clock sequence cleared.
    pub variant: u8,
    /// The clock sequence: what is left of the variant's octet, above the
    /// octet that follows it.
    pub clock_seq: u16,
    /// The 48-bit node.
    pub node: u64,
}

/// The bits of `clk_seq_hi_res` that belong to the variant. An octet that
/// begins with `0` has a variant of one bit, one that begins with `10` a
/// variant of two, and one that begins with `11` a variant of three.
pub open spec fn variant_mask(clk_seq_hi_res: u8) -> u8 {
    if clk_seq_hi_res < 0x80 {
        0x80
    } else if clk_seq_hi_res < 0xC0 {
        0xC0
    } else {
        0xE0
    }
}

/// What fields say: the time is `time_hi_and_version` without its top
/// nibble, above `time_mid`, above `time_low`; the version is that top
/// nibble; variant and clock sequence share `clk_seq_hi_res` as the variant's
/// mask divides it.
pub open spec fn details_of(fields: UuidFields) -> UuidDetails {
    let mask = variant_mask(fields.clk_seq_hi_res);
    UuidDetails {
        time: ((fields.time_hi_and_version & 0x0fff) as u64) << 48 | (fields.time_mid as u64)
            << 32 | (fields.time_low as u64),
        version: ((fields.time_hi_and_version & 0xf000) >> 12) as u8,
        variant: fields.clk_seq_hi_res & mask,
        clock_seq: (((fields.clk_seq_hi_res & !mask) as u16) << 8) | (fields.clk_seq_low as u16),
        node: fields.node,
    }
}

/// A point in time as whole seconds since 1970-01-01T00:00:00Z, the
/// microseconds beyond them, and the nanoseconds beyond those. The whole, in
/// nanoseconds, is `seconds * 1_000_000_000 + microseconds * 1000 +
/// nanoseconds`. Identifiers count time in steps of 100 nanoseconds, so
/// `nanoseconds` is a multiple of 100.
#[derive(Clone, Copy, Debug)]
pub struct TimeSpec {
    pub seconds: u64,
    pub microseconds: i32,
    pub nanoseconds: i32,
}

impl TimeSpec {
    fn zero() -> (time: Self)
        ensures
            time.seconds == 0,
            time.microseconds == 0,
            time.nanoseconds == 0,
    {
        Self { seconds: 0, microseconds: 0, nanoseconds: 0 }
    }
}

/// The count of 100-nanosecond intervals from 1970-01-01T00:00:00Z to the
/// instant that a time field names; zero for an instant before that.
pub open spec fn ticks_since_unix_epoch(time: u64) -> int {
    if time >= MILLISECS_GREGORIAN_UNIX * 10000 {
        time - MILLISECS_GREGORIAN_UNIX * 10000
    } else {
        0
    }
}

impl UuidDetails {
    pub fn construct(fields: &UuidFields) -> (details: Self)
        ensures
            details == details_of(*fields),
    {
        let version_hi = fields.time_hi_and_version;
        assert((version_hi & 0xf000) >> 12 <= 0xff) by (bit_vector);
        let version = ((version_hi & 0xf000) >> 12) as u8;
        let time = ((version_hi & 0x0fff) as u64) << 48 | (fields.time_mid as u64) << 32 | (
        fields.time_low as u64);
        let clk_seq_hi_res = fields.clk_seq_hi_res;
        let mask: u8 = if clk_seq_hi_res < 0x80 {
            0x80
        } else if clk_seq_hi_res < 0xC0 {
            0xC0
        } else {
            0xE0
        };
        let variant = clk_seq_hi_res & mask;
        let clk_seq_hi = clk_seq_hi_res & !mask;
        let clock_seq = ((clk_seq_hi as u16) << 8) | (fields.clk_seq_low as u16);
        Self { time, version, variant, clock_seq, node: fields.node }
    }

    /// The instant of the time field on the Unix time scale: the steps of
    /// 100 nanoseconds since 1970-01-01T00:00:00Z, split into whole seconds,
    /// the microseconds beyond them, and the nanoseconds beyond those.
    pub fn unix_time(&self) -> (time: TimeSpec)
        ensures
            time.nanoseconds == (ticks_since_unix_epoch(self.time) % 10) * 100,
            time.microseconds == (ticks_since_unix_epoch(self.time) / 10) % 1_000_000,
            time.seconds == ticks_since_unix_epoch(self.time) / 10_000_000,
            time.seconds * 10_000_000 + time.microseconds * 10 + time.nanoseconds / 100
                == ticks_since_unix_epoch(self.time),
            0 <= time.microseconds < 1_000_000,
            0 <= time.nanoseconds < 1000,
            time.nanoseconds % 100 == 0,
    {
        let offset = MILLISECS_GREGORIAN_UNIX * 10000;
        let mut left = ConsumingU64(self.time.saturating_sub(offset));
        let mut time = TimeSpec::zero();
        time.nanoseconds = left.divn_mod(10) * 100;
        time.microseconds = left.divn_mod(1000000);
        time.seconds = left.remaining();
        time
    }
}

/// A number that is taken apart from its low end.
struct ConsumingU64(u64);

impl ConsumingU64 {
    /// Divides the number by `n` and hands out the remainder.
    fn divn_mod(&mut self, n: i32) -> (rem: i32)
        requires
            n > 0,
        ensures
            rem == old(self).0 % (n as u64),
            final(self).0 == old(self).0 / (n as u64),
    {
        let n = i32_to_u64(n).unwrap();
        let rem = self.0 % n;
        self.0 = self.0 / n;
        i32_from_u64(rem).unwrap()
    }

    fn remaining(self) -> (left: u64)
        ensures
            left == self.0,
    {
        self.0
    }
}

proof fn lemma_field_arithmetic(v: u128)
    by (bit_vector)
    ensures
        ((v >> 96) & 0xffff_ffff) as u32 == v / 0x1_0000_0000_0000_0000_0000_0000,
        ((v >> 80) & 0xffff) as u16 == (v / 0x1_0000_0000_0000_0000_0000) % 0x1_0000,
        ((v >> 64) & 0xffff) as u16 == (v / 0x1_0000_0000_0000_0000) % 0x1_0000,
        ((v >> 56) & 0xff) as u8 == (v / 0x100_0000_0000_0000) % 0x100,
        ((v >> 48) & 0xff) as u8 == (v / 0x1_0000_0000_0000) % 0x100,
        (v & 0xffff_ffff_ffff) as u64 == v % 0x1_0000_0000_0000,
{
}

/// The fields of a number in arithmetic: each is the quotient of the number
/// by the weight of the field's lowest bit, modulo the field's size.
pub proof fn lemma_fields_are_digits(v: u128)
    ensures
        fields_of(v).time_low == v / 0x1_0000_0000_0000_0000_0000_0000,
        fields_of(v).time_mid == (v / 0x1_0000_0000_0000_0000_0000) % 0x1_0000,
        fields_of(v).time_hi_and_version == (v / 0x1_0000_0000_0000_0000) % 0x1_0000,
        fields_of(v).clk_seq_hi_res == (v / 0x100_0000_0000_0000) % 0x100,
        fields_of(v).clk_seq_low == (v / 0x1_0000_0000_0000) % 0x100,
        fields_of(v).node == v % 0x1_0000_0000_0000,
{
    lemma_field_arithmetic(v);
}

proof fn lemma_time_arithmetic(time_low: u32, time_mid: u16, time_hi_and_version: u16)
    by (bit_vector)
    ensures
        ((time_hi_and_version & 0x0fff) as u64) << 48 | (time_mid as u64) << 32 | (time_low as u64)
            == (time_hi_and_version % 0x1000) * 0x1_0000_0000_0000 + time_mid * 0x1_0000_0000
            + time_low,
        ((time_hi_and_version & 0xf000) >> 12) as u8 == time_hi_and_version / 0x1000,
{
}

proof fn lemma_variant_arithmetic(clk_seq_hi_res: u8, clk_seq_low: u8)
    by (bit_vector)
    ensures
        clk_seq_hi_res < 0x80 ==> clk_seq_hi_res & 0x80 == 0 && (((clk_seq_hi_res & !0x80u8)
            as u16) << 8) | (clk_seq_low as u16) == clk_seq_hi_res * 0x100 + clk_seq_low,
        0x80 <= clk_seq_hi_res < 0xC0 ==> clk_seq_hi_res & 0xC0 == 0x80 && (((clk_seq_hi_res
            & !0xC0u8) as u16) << 8) | (clk_seq_low as u16) == (clk_seq_hi_res - 0x80) * 0x100
            + clk_seq_low,
        0xC0 <= clk_seq_hi_res < 0xE0 ==> clk_seq_hi_res & 0xE0 == 0xC0 && (((clk_seq_hi_res
            & !0xE0u8) as u16) << 8) | (clk_seq_low as u16) == (clk_seq_hi_res - 0xC0) * 0x100
            + clk_seq_low,
        0xE0 <= clk_seq_hi_res ==> clk_seq_hi_res & 0xE0 == 0xE0 && (((clk_seq_hi_res & !0xE0u8)
            as u16) << 8) | (clk_seq_low as u16) == (clk_seq_hi_res - 0xE0) * 0x100 + clk_seq_low,
{
}

/// What fields say, in arithmetic. The time is the low twelve bits of
/// `time_hi_and_version` above `time_mid` above `time_low`, which makes sixty
/// bits, and the version is the nibble above them. The variant is one of `0`,
/// `10`, `110` and `111` at the top of `clk_seq_hi_res`, and the clock
/// sequence is what is left of that octet, above `clk_seq_low`: fifteen,
/// fourteen or thirteen bits.
pub proof fn lemma_details_are_digits(fields: UuidFields)
    ensures
        details_of(fields).time == (fields.time_hi_and_version % 0x1000) * 0x1_0000_0000_0000
            + fields.time_mid * 0x1_0000_0000 + fields.time_low,
        details_of(fields).time < 0x1000_0000_0000_0000,
        details_of(fields).version == fields.time_hi_and_version / 0x1000,
        details_of(fields).version < 16,
        details_of(fields).node == fields.node,
        fields.clk_seq_hi_res < 0x80 ==> details_of(fields).variant == 0x00 && details_of(
            fields,
        ).clock_seq == fields.clk_seq_hi_res * 0x100 + fields.clk_seq_low,
        0x80 <= fields.clk_seq_hi_res < 0xC0 ==> details_of(fields).variant == 0x80
            && details_of(fields).clock_seq == (fields.clk_seq_hi_res - 0x80) * 0x100
            + fields.clk_seq_low,
        0xC0 <= fields.clk_seq_hi_res < 0xE0 ==> details_of(fields).variant == 0xC0
            && details_of(fields).clock_seq == (fields.clk_seq_hi_res - 0xC0) * 0x100
            + fields.clk_seq_low,
        0xE0 <= fields.clk_seq_hi_res ==> details_of(fields).variant == 0xE0 && details_of(
            fields,
        ).clock_seq == (fields.clk_seq_hi_res - 0xE0) * 0x100 + fields.clk_seq_low,
{
    lemma_time_arithmetic(fields.time_low, fields.time_mid, fields.time_hi_and_version);
    lemma_variant_arithmetic(fields.clk_seq_hi_res, fields.clk_seq_low);
}

} // verus!
