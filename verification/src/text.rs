use crate::hex::{hex_digit, hex_value, lemma_hex_digit_reads_back, to_hex_digit};
use vstd::prelude::*;

verus! {

/// `String::push` of std appends one character to the end of the string.
pub assume_specification[ String::push ](text: &mut String, ch: char)
    ensures
        final(text)@ == old(text)@.push(ch),
;

/// Hexadecimal digit `k` of a 128-bit number, digit 0 being the most
/// significant of the thirty-two.
pub open spec fn nibble(v: u128, k: int) -> u8 {
    ((v >> ((4 * (31 - k)) as u128)) & 0xf) as u8
}

/// The thirty-two lower-case hexadecimal digits of a 128-bit number, most
/// significant first.
pub open spec fn joined_text(v: u128) -> Seq<char> {
    Seq::new(32, |k: int| hex_digit(nibble(v, k)))
}

/// The canonical text of a 128-bit number: its digits in groups of 8, 4, 4,
/// 4 and 12, with a dash between neighbouring groups.
pub open spec fn dashed_text(v: u128) -> Seq<char> {
    let digits = joined_text(v);
    digits.subrange(0, 8) + seq!['-'] + digits.subrange(8, 12) + seq!['-'] + digits.subrange(
        12,
        16,
    ) + seq!['-'] + digits.subrange(16, 20) + seq!['-'] + digits.subrange(20, 32)
}

/// Whether a dash may stand where `consumed` digits have been read: after
/// the 8th, 12th, 16th and 20th digit.
pub open spec fn dash_allowed(consumed: nat) -> bool {
    consumed == 8 || consumed == 12 || consumed == 16 || consumed == 20
}

/// Whether a text opens with the radix prefix `0x` or `0X`.
pub open spec fn has_radix_prefix(text: Seq<char>) -> bool {
    text.len() >= 2 && text[0] == '0' && (text[1] == 'x' || text[1] == 'X')
}

/// What reading `rest` gives when `consumed` digits with the value `acc`
/// have been read before it, and `after_dash` says whether a dash came last.
/// Before the thirty-second digit, one dash is passed over where a dash is
/// allowed, and a digit is shifted in below those read so far; any other
/// character, a second dash, and the end of the text give `None`. With the
/// thirty-second digit the text must end: anything after it gives `None`.
pub open spec fn scan(rest: Seq<char>, consumed: nat, acc: u128, after_dash: bool) -> Option<
    u128,
>
    decreases rest.len(),
{
    if consumed >= 32 {
        if rest.len() == 0 {
            Some(acc)
        } else {
            None
        }
    } else if rest.len() == 0 {
        None
    } else if rest[0] == '-' && dash_allowed(consumed) && !after_dash {
        scan(rest.drop_first(), consumed, acc, true)
    } else {
        match hex_value(rest[0]) {
            Some(digit) => scan(
                rest.drop_first(),
                consumed + 1,
                (acc << 4) | (digit as u128),
                false,
            ),
            None => None,
        }
    }
}

/// The number that a text denotes, if it is the text of an identifier: an
/// optional radix prefix, then exactly thirty-two digits of either case, with
/// a single dash at none, some or all of the four places where the canonical
/// text has one, and nothing else.
pub open spec fn parsed(text: Seq<char>) -> Option<u128> {
    if has_radix_prefix(text) {
        scan(text.skip(2), 0, 0, false)
    } else {
        scan(text, 0, 0, false)
    }
}

/// Whether `text` opens with `0x` or `0X`.
pub(crate) fn starts_with_radix_prefix(text: &str) -> (found: bool)
    ensures
        found == has_radix_prefix(text@),
{
    broadcast use vstd::string::group_string_axioms;

    let mut chars = text.chars();
    match chars.next() {
        Some('0') => match chars.next() {
            Some(c) => c == 'x' || c == 'X',
            None => false,
        },
        _ => false,
    }
}

/// Appends digits `from` up to, not including, `to` of `v` to `text`.
pub(crate) fn push_digits(text: &mut String, v: u128, from: usize, to: usize)
    requires
        from <= to <= 32,
    ensures
        final(text)@ == old(text)@ + joined_text(v).subrange(from as int, to as int),
{
    let mut k: usize = from;
    while k < to
        invariant
            from <= k <= to <= 32,
            text@ == old(text)@ + joined_text(v).subrange(from as int, k as int),
        decreases to - k,
    {
        let shift: usize = 4 * (31 - k);
        let part: u128 = (v >> shift) & 0xf;
        assert(part < 16) by (bit_vector)
            requires
                part == (v >> shift) & 0xf,
        ;
        let digit: u8 = part as u8;
        assert(digit == nibble(v, k as int));
        text.push(to_hex_digit(digit));
        k = k + 1;
        assert(text@ =~= old(text)@ + joined_text(v).subrange(from as int, k as int));
    }
    assert(text@ =~= old(text)@ + joined_text(v).subrange(from as int, to as int));
}

/// The number that the `k` most significant digits of `v` spell.
pub open spec fn leading_digits(v: u128, k: int) -> u128 {
    if k <= 0 {
        0
    } else {
        v >> ((128 - 4 * k) as u128)
    }
}

proof fn lemma_shift_in_digit(v: u128, s: u128)
    by (bit_vector)
    requires
        s <= 124,
    ensures
        ((if s == 124 {
            0u128
        } else {
            v >> ((s + 4) as u128)
        }) << 4) | ((((v >> s) & 0xf) as u8) as u128) == v >> s,
        (((v >> s) & 0xf) as u8) < 16,
        v >> 0 == v,
{
}

/// Shifting digit `k` of `v` in below its `k` leading digits gives its
/// `k + 1` leading digits; all thirty-two spell `v`.
proof fn lemma_next_leading_digits(v: u128, k: int)
    requires
        0 <= k < 32,
    ensures
        (leading_digits(v, k) << 4) | (nibble(v, k) as u128) == leading_digits(v, k + 1),
        nibble(v, k) < 16,
        leading_digits(v, 32) == v,
{
    lemma_shift_in_digit(v, (4 * (31 - k)) as u128);
}

proof fn lemma_scan_joined_text(v: u128, k: int)
    requires
        0 <= k <= 32,
    ensures
        scan(joined_text(v).skip(k), k as nat, leading_digits(v, k), false) == Some(v),
    decreases 32 - k,
{
    let rest = joined_text(v).skip(k);
    if k < 32 {
        lemma_next_leading_digits(v, k);
        lemma_hex_digit_reads_back(nibble(v, k));
        assert(rest[0] == hex_digit(nibble(v, k)));
        assert(rest.drop_first() =~= joined_text(v).skip(k + 1));
        lemma_scan_joined_text(v, k + 1);
    } else {
        lemma_next_leading_digits(v, 0);
    }
}

/// How many digits stand before place `j` of the canonical text.
pub open spec fn digits_before(j: int) -> int {
    if j <= 8 {
        j
    } else if j <= 13 {
        j - 1
    } else if j <= 18 {
        j - 2
    } else if j <= 23 {
        j - 3
    } else {
        j - 4
    }
}

/// The canonical text place by place: dashes at places 8, 13, 18 and 23,
/// and the digits in order at the thirty-two others.
pub proof fn lemma_dashed_text_places(v: u128)
    ensures
        dashed_text(v).len() == 36,
        forall|j: int|
            0 <= j < 36 ==> #[trigger] dashed_text(v)[j] == if j == 8 || j == 13 || j == 18 || j
                == 23 {
                '-'
            } else {
                hex_digit(nibble(v, digits_before(j)))
            },
{
    let digits = joined_text(v);
    let a = digits.subrange(0, 8) + seq!['-'];
    let b = a + digits.subrange(8, 12) + seq!['-'];
    let c = b + digits.subrange(12, 16) + seq!['-'];
    let d = c + digits.subrange(16, 20) + seq!['-'];
    let e = d + digits.subrange(20, 32);
    assert(e == dashed_text(v));
    assert(a.len() == 9 && b.len() == 14 && c.len() == 19 && d.len() == 24 && e.len() == 36);
    assert forall|j: int| 0 <= j < 36 implies #[trigger] e[j] == if j == 8 || j == 13 || j == 18
        || j == 23 {
        '-'
    } else {
        hex_digit(nibble(v, digits_before(j)))
    } by {
        if j < 9 {
            assert(e[j] == a[j]);
        } else if j < 14 {
            assert(e[j] == b[j]);
        } else if j < 19 {
            assert(e[j] == c[j]);
        } else if j < 24 {
            assert(e[j] == d[j]);
        }
    }
}

proof fn lemma_scan_dashed_text(v: u128, j: int)
    requires
        0 <= j <= 36,
    ensures
        scan(
            dashed_text(v).skip(j),
            digits_before(j) as nat,
            leading_digits(v, digits_before(j)),
            j == 9 || j == 14 || j == 19 || j == 24,
        ) == Some(v),
    decreases 36 - j,
{
    let rest = dashed_text(v).skip(j);
    let k = digits_before(j);
    lemma_dashed_text_places(v);
    if j < 36 {
        assert(rest[0] == dashed_text(v)[j]);
        assert(rest.drop_first() =~= dashed_text(v).skip(j + 1));
        if j == 8 || j == 13 || j == 18 || j == 23 {
        } else {
            lemma_next_leading_digits(v, k);
            lemma_hex_digit_reads_back(nibble(v, k));
        }
        lemma_scan_dashed_text(v, j + 1);
    } else {
        lemma_next_leading_digits(v, 0);
    }
}

/// Reading what was written gives the identifier back, in the canonical
/// text and in the text without dashes.
pub proof fn lemma_text_round_trip(v: u128)
    ensures
        parsed(dashed_text(v)) == Some(v),
        parsed(joined_text(v)) == Some(v),
{
    lemma_next_leading_digits(v, 1);
    lemma_hex_digit_reads_back(nibble(v, 1));
    lemma_dashed_text_places(v);
    assert(dashed_text(v)[1] == hex_digit(nibble(v, 1)));
    assert(joined_text(v)[1] == hex_digit(nibble(v, 1)));
    assert(dashed_text(v).skip(0) =~= dashed_text(v));
    assert(joined_text(v).skip(0) =~= joined_text(v));
    lemma_scan_dashed_text(v, 0);
    lemma_scan_joined_text(v, 0);
}

/// A character with its case taken away where reading pays no heed to it:
/// the digits `A` to `F` and the `X` of the radix prefix become lower case,
/// every other character stays as it is.
pub open spec fn case_folded(c: char) -> char {
    if c == 'A' {
        'a'
    } else if c == 'B' {
        'b'
    } else if c == 'C' {
        'c'
    } else if c == 'D' {
        'd'
    } else if c == 'E' {
        'e'
    } else if c == 'F' {
        'f'
    } else if c == 'X' {
        'x'
    } else {
        c
    }
}

/// Whether two texts differ at most in the case of their digits and of the
/// radix prefix.
pub open spec fn same_but_for_case(a: Seq<char>, b: Seq<char>) -> bool {
    a.len() == b.len() && forall|i: int|
        0 <= i < a.len() ==> case_folded(#[trigger] a[i]) == case_folded(b[i])
}

proof fn lemma_scan_ignores_case(
    a: Seq<char>,
    b: Seq<char>,
    consumed: nat,
    acc: u128,
    after_dash: bool,
)
    requires
        same_but_for_case(a, b),
    ensures
        scan(a, consumed, acc, after_dash) == scan(b, consumed, acc, after_dash),
    decreases a.len(),
{
    if consumed < 32 && a.len() > 0 {
        assert(case_folded(a[0]) == case_folded(b[0]));
        let a_rest = a.drop_first();
        let b_rest = b.drop_first();
        assert forall|i: int| 0 <= i < a_rest.len() implies case_folded(#[trigger] a_rest[i])
            == case_folded(b_rest[i]) by {
            assert(a_rest[i] == a[i + 1]);
            assert(b_rest[i] == b[i + 1]);
        }
        if a[0] == '-' && dash_allowed(consumed) && !after_dash {
            lemma_scan_ignores_case(a_rest, b_rest, consumed, acc, true);
        } else if hex_value(a[0]) is Some {
            lemma_scan_ignores_case(
                a_rest,
                b_rest,
                consumed + 1,
                (acc << 4) | (hex_value(a[0])->0 as u128),
                false,
            );
        }
    }
}

/// Reading pays no heed to case: two texts that differ at most in the case
/// of their digits and of the radix prefix are read alike.
pub proof fn lemma_parsed_ignores_case(a: Seq<char>, b: Seq<char>)
    requires
        same_but_for_case(a, b),
    ensures
        parsed(a) == parsed(b),
{
    if a.len() >= 2 {
        assert(case_folded(a[0]) == case_folded(b[0]));
        assert(case_folded(a[1]) == case_folded(b[1]));
    }
    if has_radix_prefix(a) {
        let a_rest = a.skip(2);
        let b_rest = b.skip(2);
        assert forall|i: int| 0 <= i < a_rest.len() implies case_folded(#[trigger] a_rest[i])
            == case_folded(b_rest[i]) by {
            assert(a_rest[i] == a[i + 2]);
            assert(b_rest[i] == b[i + 2]);
        }
        lemma_scan_ignores_case(a_rest, b_rest, 0, 0, false);
    } else {
        lemma_scan_ignores_case(a, b, 0, 0, false);
    }
}

/// The radix prefix adds nothing: a text that does not open with one is
/// read alike with `0x` or `0X` before it.
pub proof fn lemma_parsed_skips_radix_prefix(text: Seq<char>)
    requires
        !has_radix_prefix(text),
    ensures
        parsed(seq!['0', 'x'] + text) == parsed(text),
        parsed(seq!['0', 'X'] + text) == parsed(text),
{
    assert((seq!['0', 'x'] + text).skip(2) =~= text);
    assert((seq!['0', 'X'] + text).skip(2) =~= text);
}

proof fn lemma_scan_rejects_longer_text(
    rest: Seq<char>,
    more: Seq<char>,
    consumed: nat,
    acc: u128,
    after_dash: bool,
)
    requires
        scan(rest, consumed, acc, after_dash) is Some,
        more.len() > 0,
    ensures
        scan(rest + more, consumed, acc, after_dash) is None,
    decreases rest.len(),
{
    if consumed < 32 {
        assert((rest + more)[0] == rest[0]);
        assert((rest + more).drop_first() =~= rest.drop_first() + more);
        if rest[0] == '-' && dash_allowed(consumed) && !after_dash {
            lemma_scan_rejects_longer_text(rest.drop_first(), more, consumed, acc, true);
        } else {
            lemma_scan_rejects_longer_text(
                rest.drop_first(),
                more,
                consumed + 1,
                (acc << 4) | (hex_value(rest[0])->0 as u128),
                false,
            );
        }
    }
}

/// The text of an identifier ends with its last digit: whatever is put
/// behind a text that reads as an identifier, the longer text reads as none.
pub proof fn lemma_parsed_rejects_longer_text(text: Seq<char>, more: Seq<char>)
    requires
        parsed(text) is Some,
        more.len() > 0,
    ensures
        parsed(text + more) is None,
{
    if text.len() < 2 {
        if text.len() == 1 {
            assert(scan(text.drop_first(), 1, (0u128 << 4) | (hex_value(text[0])->0 as u128), false)
                is None);
        }
        assert(parsed(text) is None);
    } else {
        assert((text + more)[0] == text[0]);
        assert((text + more)[1] == text[1]);
        if has_radix_prefix(text) {
            assert((text + more).skip(2) =~= text.skip(2) + more);
            lemma_scan_rejects_longer_text(text.skip(2), more, 0, 0, false);
        } else {
            lemma_scan_rejects_longer_text(text, more, 0, 0, false);
        }
    }
}

proof fn lemma_scan_rejects_two_dashes(
    rest: Seq<char>,
    consumed: nat,
    acc: u128,
    after_dash: bool,
    i: int,
)
    requires
        0 <= i,
        i + 1 < rest.len(),
        rest[i] == '-',
        rest[i + 1] == '-',
    ensures
        scan(rest, consumed, acc, after_dash) is None,
    decreases i,
{
    if consumed < 32 {
        let tail = rest.drop_first();
        assert(tail[0] == rest[1]);
        if i == 0 {
            if dash_allowed(consumed) && !after_dash {
                assert(scan(tail, consumed, acc, true) is None);
            }
        } else {
            assert(tail[i - 1] == rest[i]);
            assert(tail[i] == rest[i + 1]);
            if rest[0] == '-' && dash_allowed(consumed) && !after_dash {
                lemma_scan_rejects_two_dashes(tail, consumed, acc, true, i - 1);
            } else if hex_value(rest[0]) is Some {
                lemma_scan_rejects_two_dashes(
                    tail,
                    consumed + 1,
                    (acc << 4) | (hex_value(rest[0])->0 as u128),
                    false,
                    i - 1,
                );
            }
        }
    }
}

/// At most one dash stands at a place: a text with two dashes side by side
/// reads as no identifier.
pub proof fn lemma_parsed_rejects_two_dashes(text: Seq<char>, i: int)
    requires
        0 <= i,
        i + 1 < text.len(),
        text[i] == '-',
        text[i + 1] == '-',
    ensures
        parsed(text) is None,
{
    if has_radix_prefix(text) {
        let body = text.skip(2);
        assert(i >= 2);
        assert(body[i - 2] == text[i]);
        assert(body[i - 1] == text[i + 1]);
        lemma_scan_rejects_two_dashes(body, 0, 0, false, i - 2);
    } else {
        lemma_scan_rejects_two_dashes(text, 0, 0, false, i);
    }
}

} // verus!
