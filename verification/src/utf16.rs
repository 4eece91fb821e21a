//! Text that the system hands over in UTF-16.

use vstd::prelude::*;

verus! {

/// Whether `n` is the number of a character: a code point that is no surrogate.
pub open spec fn is_scalar(n: u32) -> bool {
    n <= 0xd7ff || 0xe000 <= n <= 0x10ffff
}

/// `char::from_u32` gives the character with the number `i`, and `None` where there is
/// no such character.
pub assume_specification[ char::from_u32 ](i: u32) -> (c: Option<char>)
    ensures
        c == (if is_scalar(i) {
            Some(i as char)
        } else {
            None
        }),
;

/// Whether `u` is the first half of a pair.
pub open spec fn is_high(u: u16) -> bool {
    0xd800 <= u <= 0xdbff
}

/// Whether `u` is the second half of a pair.
pub open spec fn is_low(u: u16) -> bool {
    0xdc00 <= u <= 0xdfff
}

/// The number of the character that a pair stands for.
pub open spec fn pair_value(high: u16, low: u16) -> u32 {
    (0x10000 + (high - 0xd800) * 0x400 + (low - 0xdc00)) as u32
}

/// The text that `units` encode. A half without its other half stands for U+FFFD.
pub open spec fn decoded(units: Seq<u16>) -> Seq<char>
    decreases units.len(),
{
    if units.len() == 0 {
        Seq::empty()
    } else if !is_high(units[0]) && !is_low(units[0]) {
        seq![units[0] as char] + decoded(units.skip(1))
    } else if is_high(units[0]) && units.len() > 1 && is_low(units[1]) {
        seq![pair_value(units[0], units[1]) as char] + decoded(units.skip(2))
    } else {
        seq!['\u{fffd}'] + decoded(units.skip(1))
    }
}

/// The units before the first zero.
pub open spec fn until_zero(units: Seq<u16>) -> Seq<u16>
    decreases units.len(),
{
    if units.len() == 0 || units[0] == 0 {
        Seq::empty()
    } else {
        seq![units[0]] + until_zero(units.skip(1))
    }
}

fn char_of(n: u32) -> (c: char)
    requires
        is_scalar(n),
    ensures
        c == n as char,
{
    match char::from_u32(n) {
        Some(c) => c,
        None => '\u{fffd}',
    }
}

/// The text of a zero-terminated UTF-16 buffer. Where there is no zero, the whole buffer
/// is text.
pub fn wide_z_to_string(value: &[u16]) -> (s: String)
    ensures
        s@ == decoded(until_zero(value@)),
{
    let mut len: usize = 0;
    assert(value@.skip(0) =~= value@);
    assert(value@.take(0) =~= Seq::empty());
    assert(until_zero(value@) =~= value@.take(0) + until_zero(value@));
    while len < value.len() && value[len] != 0
        invariant
            len <= value@.len(),
            until_zero(value@) == value@.take(len as int) + until_zero(value@.skip(len as int)),
        decreases value@.len() - len,
    {
        assert(value@.skip(len as int).skip(1) =~= value@.skip(len + 1));
        assert(value@.take(len + 1) + until_zero(value@.skip(len + 1)) =~= value@.take(len as int)
            + (seq![value@[len as int]] + until_zero(value@.skip(len + 1))));
        len += 1;
    }
    let ghost units = value@.take(len as int);
    assert(until_zero(value@) =~= units);
    let mut s: String = String::new();
    let mut i: usize = 0;
    assert(units.skip(0) =~= units);
    assert(decoded(units) =~= s@ + decoded(units));
    while i < len
        invariant
            i <= len <= value@.len(),
            units == value@.take(len as int),
            decoded(units) == s@ + decoded(units.skip(i as int)),
        decreases len - i,
    {
        let u: u16 = value[i];
        let ghost rest = units.skip(i as int);
        let ghost done = s@;
        assert(rest[0] == u);
        assert(rest.skip(1) =~= units.skip(i + 1));
        if u < 0xd800 || 0xdfff < u {
            s.push(char_of(u as u32));
            assert(s@ + decoded(units.skip(i + 1)) =~= done + decoded(rest));
            i += 1;
        } else if u <= 0xdbff && i + 1 < len && 0xdc00 <= value[i + 1] && value[i + 1] <= 0xdfff {
            let v: u16 = value[i + 1];
            assert(rest[1] == v);
            assert(rest.skip(2) =~= units.skip(i + 2));
            let n: u32 = 0x10000 + (u as u32 - 0xd800) * 0x400 + (v as u32 - 0xdc00);
            s.push(char_of(n));
            assert(s@ + decoded(units.skip(i + 2)) =~= done + decoded(rest));
            i += 2;
        } else {
            s.push('\u{fffd}');
            assert(s@ + decoded(units.skip(i + 1)) =~= done + decoded(rest));
            i += 1;
        }
    }
    assert(s@ + decoded(units.skip(len as int)) =~= s@);
    s
}

/// What stands behind the first zero does not matter.
pub proof fn law_text_ends_at_the_first_zero(text: Seq<u16>, behind: Seq<u16>)
    requires
        forall|i: int| 0 <= i < text.len() ==> text[i] != 0,
    ensures
        until_zero(text.push(0) + behind) == text,
    decreases text.len(),
{
    let units = text.push(0) + behind;
    if text.len() > 0 {
        assert(units.skip(1) =~= text.skip(1).push(0) + behind);
        law_text_ends_at_the_first_zero(text.skip(1), behind);
        assert(seq![units[0]] + text.skip(1) =~= text);
    } else {
        assert(units[0] == 0);
        assert(until_zero(units) =~= text);
    }
}

/// The units that encode a character: its number, or the two halves of a pair.
pub open spec fn encoded_char(c: char) -> Seq<u16> {
    let n = c as int;
    if n < 65536 {
        seq![n as u16]
    } else {
        seq![(55296 + (n - 65536) / 1024) as u16, (56320 + (n - 65536) % 1024) as u16]
    }
}

/// The units that encode a text.
pub open spec fn encoded(text: Seq<char>) -> Seq<u16>
    decreases text.len(),
{
    if text.len() == 0 {
        Seq::empty()
    } else {
        encoded_char(text.first()) + encoded(text.drop_first())
    }
}

/// The number of a character, from the units that encode it.
proof fn lemma_encoded_char(c: char)
    ensures
        (c as int) < 65536 ==> encoded_char(c).len() == 1 && encoded_char(c)[0] == c as int
            && !is_high(encoded_char(c)[0]) && !is_low(encoded_char(c)[0]),
        c as int >= 65536 ==> encoded_char(c).len() == 2 && is_high(encoded_char(c)[0]) && is_low(
            encoded_char(c)[1],
        ) && pair_value(encoded_char(c)[0], encoded_char(c)[1]) == c as int,
{
    let n = c as int - 65536;
    assert(n == n / 1024 * 1024 + n % 1024);
}

/// A text that is encoded and decoded is the same text.
pub proof fn law_decoding_undoes_encoding(text: Seq<char>)
    ensures
        decoded(encoded(text)) == text,
    decreases text.len(),
{
    if text.len() > 0 {
        let c = text.first();
        let rest = text.drop_first();
        let units = encoded(text);
        law_decoding_undoes_encoding(rest);
        lemma_encoded_char(c);
        if (c as int) < 65536 {
            assert(units[0] == c as int);
            assert(units.skip(1) =~= encoded(rest));
        } else {
            assert(units[0] == encoded_char(c)[0]);
            assert(units[1] == encoded_char(c)[1]);
            assert(units.skip(2) =~= encoded(rest));
            assert(pair_value(units[0], units[1]) as char == c);
        }
        assert(decoded(units) =~= seq![c] + rest);
        assert(seq![c] + rest =~= text);
    } else {
        assert(decoded(encoded(text)) =~= text);
    }
}

/// A half without its other half becomes U+FFFD, and what follows is decoded as if it stood
/// alone.
pub proof fn law_half_a_pair_is_replaced(unit: u16, rest: Seq<u16>)
    requires
        55296 <= unit <= 57343,
        unit <= 56319 && rest.len() > 0 ==> rest[0] < 56320 || rest[0] > 57343,
    ensures
        decoded(seq![unit] + rest) == seq!['\u{fffd}'] + decoded(rest),
{
    let units = seq![unit] + rest;
    assert(units.skip(1) =~= rest);
    if rest.len() > 0 {
        assert(units[1] == rest[0]);
    }
}

/// Without a zero the whole buffer is text.
pub proof fn law_text_without_a_zero_is_whole(units: Seq<u16>)
    requires
        forall|i: int| 0 <= i < units.len() ==> units[i] != 0,
    ensures
        until_zero(units) == units,
    decreases units.len(),
{
    if units.len() > 0 {
        law_text_without_a_zero_is_whole(units.skip(1));
        assert(seq![units[0]] + units.skip(1) =~= units);
    } else {
        assert(until_zero(units) =~= units);
    }
}

} // verus!
