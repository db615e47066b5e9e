use crate::hex::from_hex_digit;
use crate::octets::{
    lemma_stamped_version_and_variant, octets_value, stamped, value_octets, variant_bits,
    version_nibble, Octets,
};
use crate::text::{
    dashed_text, joined_text, lemma_text_round_trip, parsed, push_digits, scan,
    starts_with_radix_prefix,
};
use vstd::prelude::*;
use vstd::std_specs::iter::IteratorSpec;

verus! {

/// A 128-bit identifier. Two identifiers are equal when their bits are.
#[derive(Clone, Copy, Debug, PartialEq, Eq, Structural)]
pub struct Uuid(pub u128);

impl View for Uuid {
    type V = u128;

    open spec fn view(&self) -> u128 {
        self.0
    }
}

/// What reading a text gives, as a `Result`.
pub open spec fn parse_outcome(text: Seq<char>) -> Result<Uuid, ()> {
    match parsed(text) {
        Some(v) => Ok(Uuid(v)),
        None => Err(()),
    }
}

impl Uuid {
    /// The identifier with the given bits.
    pub fn from_value(value: u128) -> (uuid: Self)
        ensures
            uuid@ == value,
    {
        Self(value)
    }

    /// The bits of the identifier as one number.
    pub fn value(&self) -> (value: u128)
        ensures
            value == self@,
    {
        self.0
    }

    /// The canonical text: lower-case digits in groups of 8, 4, 4, 4 and 12,
    /// joined by dashes.
    pub fn to_string_hex(&self) -> (text: String)
        ensures
            text@ == dashed_text(self@),
    {
        let mut text = String::new();
        push_digits(&mut text, self.0, 0, 8);
        text.push('-');
        push_digits(&mut text, self.0, 8, 12);
        text.push('-');
        push_digits(&mut text, self.0, 12, 16);
        text.push('-');
        push_digits(&mut text, self.0, 16, 20);
        text.push('-');
        push_digits(&mut text, self.0, 20, 32);
        assert(text@ =~= dashed_text(self@));
        text
    }

    /// The thirty-two lower-case digits with nothing between them.
    pub fn to_string_hex_joined(&self) -> (text: String)
        ensures
            text@ == joined_text(self@),
    {
        let mut text = String::new();
        push_digits(&mut text, self.0, 0, 32);
        assert(text@ =~= joined_text(self@));
        text
    }

    /// Reads an identifier from its text. The text may open with `0x` or
    /// `0X`; then come exactly thirty-two digits of either case; one dash may
    /// stand after the 8th, 12th, 16th and 20th digit. A text that ends
    /// before the thirty-second digit, goes on after it, or holds any other
    /// character, a dash at another place or a second dash at one place, is
    /// no identifier.
    pub fn parse(text: &str) -> (outcome: Result<Self, ()>)
        ensures
            outcome == parse_outcome(text@),
    {
        broadcast use vstd::string::group_string_axioms;

        let prefixed = starts_with_radix_prefix(text);
        let mut chars = text.chars();
        if prefixed {
            let _ = chars.next();
            let _ = chars.next();
            assert(chars.remaining() =~= text@.skip(2));
        }
        let mut acc: u128 = 0;
        let mut consumed: usize = 0;
        let mut after_dash = false;
        while consumed < 32
            invariant
                consumed <= 32,
                chars.obeys_prophetic_iter_laws(),
                chars.decrease() is Some,
                parsed(text@) == scan(chars.remaining(), consumed as nat, acc, after_dash),
            decreases chars.decrease()->0,
        {
            match chars.next() {
                None => {
                    return Err(());
                },
                Some(c) => {
                    if c == '-' && !after_dash && (consumed == 8 || consumed == 12 || consumed
                        == 16 || consumed == 20) {
                        after_dash = true;
                    } else {
                        match from_hex_digit(c) {
                            Some(digit) => {
                                acc = (acc << 4) | (digit as u128);
                                consumed = consumed + 1;
                                after_dash = false;
                            },
                            None => {
                                return Err(());
                            },
                        }
                    }
                },
            }
        }
        match chars.next() {
            None => Ok(Uuid(acc)),
            Some(_) => Err(()),
        }
    }

    /// Makes an identifier of sixteen octets: stamps `version_hi` and the
    /// variant of RFC 4122 over what the octets hold in those places, and
    /// reads the result as one number, first octet most significant.
    pub fn from_octets(octets: Octets, version_hi: u8) -> (uuid: Self)
        ensures
            uuid@ == octets_value(stamped(octets@, version_hi)),
            version_nibble(uuid@) == version_hi & 0x0f,
            version_hi < 16 ==> version_nibble(uuid@) == version_hi,
            variant_bits(uuid@) == 2,
    {
        proof {
            lemma_stamped_version_and_variant(octets@, version_hi);
        }
        let mut octets = octets;
        octets[6] = (octets[6] & 0x0f) | ((version_hi & 0x0f) << 4);
        octets[8] = (octets[8] & 0x3f) | 0x80;
        Uuid(
            (octets[0] as u128) << 120 | (octets[1] as u128) << 112 | (octets[2] as u128) << 104
                | (octets[3] as u128) << 96 | (octets[4] as u128) << 88 | (octets[5] as u128)
                << 80 | (octets[6] as u128) << 72 | (octets[7] as u128) << 64 | (
            octets[8] as u128) << 56 | (octets[9] as u128) << 48 | (octets[10] as u128) << 40 | (
            octets[11] as u128) << 32 | (octets[12] as u128) << 24 | (octets[13] as u128) << 16
                | (octets[14] as u128) << 8 | (octets[15] as u128),
        )
    }

    /// The sixteen octets of the identifier, most significant first.
    pub fn to_octets(&self) -> (octets: Octets)
        ensures
            octets@ == value_octets(self@),
    {
        let v = self.0;
        assert((v >> 120) & 0xff <= 0xff && (v >> 112) & 0xff <= 0xff && (v >> 104) & 0xff <= 0xff
            && (v >> 96) & 0xff <= 0xff && (v >> 88) & 0xff <= 0xff && (v >> 80) & 0xff <= 0xff
            && (v >> 72) & 0xff <= 0xff && (v >> 64) & 0xff <= 0xff && (v >> 56) & 0xff <= 0xff
            && (v >> 48) & 0xff <= 0xff && (v >> 40) & 0xff <= 0xff && (v >> 32) & 0xff <= 0xff
            && (v >> 24) & 0xff <= 0xff && (v >> 16) & 0xff <= 0xff && (v >> 8) & 0xff <= 0xff
            && (v >> 0) & 0xff <= 0xff) by (bit_vector);
        let octets: Octets = [
            ((v >> 120) & 0xff) as u8,
            ((v >> 112) & 0xff) as u8,
            ((v >> 104) & 0xff) as u8,
            ((v >> 96) & 0xff) as u8,
            ((v >> 88) & 0xff) as u8,
            ((v >> 80) & 0xff) as u8,
            ((v >> 72) & 0xff) as u8,
            ((v >> 64) & 0xff) as u8,
            ((v >> 56) & 0xff) as u8,
            ((v >> 48) & 0xff) as u8,
            ((v >> 40) & 0xff) as u8,
            ((v >> 32) & 0xff) as u8,
            ((v >> 24) & 0xff) as u8,
            ((v >> 16) & 0xff) as u8,
            ((v >> 8) & 0xff) as u8,
            ((v >> 0) & 0xff) as u8,
        ];
        assert(octets@ =~= value_octets(v));
        octets
    }
}

/// Reading the text of an identifier gives the identifier back, from the
/// canonical text and from the text without dashes.
pub proof fn lemma_parse_inverts_format(uuid: Uuid)
    ensures
        parse_outcome(dashed_text(uuid@)) == Ok::<Uuid, ()>(uuid),
        parse_outcome(joined_text(uuid@)) == Ok::<Uuid, ()>(uuid),
{
    lemma_text_round_trip(uuid@);
}

impl<'a> TryFrom<&'a str> for Uuid {
    type Error = ();

    fn try_from(value: &'a str) -> (outcome: Result<Self, Self::Error>) {
        Uuid::parse(value)
    }
}

impl<'a> vstd::std_specs::convert::TryFromSpecImpl<&'a str> for Uuid {
    open spec fn obeys_try_from_spec() -> bool {
        true
    }

    open spec fn try_from_spec(value: &'a str) -> Result<Self, Self::Error> {
        parse_outcome(value@)
    }
}

impl TryFrom<String> for Uuid {
    type Error = ();

    fn try_from(value: String) -> (outcome: Result<Self, Self::Error>) {
        Uuid::parse(value.as_str())
    }
}

impl vstd::std_specs::convert::TryFromSpecImpl<String> for Uuid {
    open spec fn obeys_try_from_spec() -> bool {
        true
    }

    open spec fn try_from_spec(value: String) -> Result<Self, Self::Error> {
        parse_outcome(value@)
    }
}

} // verus!
