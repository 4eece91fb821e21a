//! Text as sequences of characters: trimming, splitting, ASCII case and decimal
//! numbers.

use vstd::prelude::*;
use vstd::slice::{slice_subrange, slice_to_vec};

verus! {

/// `String::push` appends one character to the end of the string.
pub assume_specification[ String::push ](s: &mut String, ch: char)
    ensures
        final(s)@ == old(s)@.push(ch),
;

/// The characters with the Unicode property `White_Space`.
pub open spec fn is_space(c: char) -> bool {
    ||| '\u{9}' <= c <= '\u{d}'
    ||| c == '\u{20}'
    ||| c == '\u{85}'
    ||| c == '\u{a0}'
    ||| c == '\u{1680}'
    ||| '\u{2000}' <= c <= '\u{200a}'
    ||| c == '\u{2028}'
    ||| c == '\u{2029}'
    ||| c == '\u{202f}'
    ||| c == '\u{205f}'
    ||| c == '\u{3000}'
}

/// Whether `c` is white space.
pub fn is_whitespace(c: char) -> (b: bool)
    ensures
        b == is_space(c),
{
    ('\u{9}' <= c && c <= '\u{d}') || c == '\u{20}' || c == '\u{85}' || c == '\u{a0}' || c
        == '\u{1680}' || ('\u{2000}' <= c && c <= '\u{200a}') || c == '\u{2028}' || c == '\u{2029}'
        || c == '\u{202f}' || c == '\u{205f}' || c == '\u{3000}'
}

/// `s` without the white space at its two ends.
pub open spec fn trimmed(s: Seq<char>) -> Seq<char>
    decreases s.len(),
{
    if s.len() == 0 {
        s
    } else if is_space(s.first()) {
        trimmed(s.drop_first())
    } else if is_space(s.last()) {
        trimmed(s.drop_last())
    } else {
        s
    }
}

/// The part of `s` between the white space at its two ends.
pub fn trim(s: &[char]) -> (r: &[char])
    ensures
        r@ == trimmed(s@),
{
    let mut start: usize = 0;
    let mut end: usize = s.len();
    assert(s@.subrange(0, end as int) =~= s@);
    while start < end && is_whitespace(s[start])
        invariant
            start <= end == s@.len(),
            trimmed(s@) == trimmed(s@.subrange(start as int, end as int)),
        decreases end - start,
    {
        assert(s@.subrange(start as int, end as int).drop_first() =~= s@.subrange(
            start + 1,
            end as int,
        ));
        start += 1;
    }
    while start < end && is_whitespace(s[end - 1])
        invariant
            start <= end <= s@.len(),
            start < end ==> !is_space(s@[start as int]),
            trimmed(s@) == trimmed(s@.subrange(start as int, end as int)),
        decreases end - start,
    {
        assert(s@.subrange(start as int, end as int).drop_last() =~= s@.subrange(
            start as int,
            end - 1,
        ));
        end -= 1;
    }
    slice_subrange(s, start, end)
}

/// White space at the end of a text is trimmed.
pub proof fn lemma_trimmed_push(s: Seq<char>, c: char)
    requires
        is_space(c),
    ensures
        trimmed(s.push(c)) == trimmed(s),
    decreases s.len(),
{
    let t = s.push(c);
    if s.len() == 0 {
        assert(t.drop_first() =~= s);
    } else if is_space(s.first()) {
        lemma_trimmed_push(s.drop_first(), c);
        assert(t.drop_first() =~= s.drop_first().push(c));
    } else {
        assert(t.drop_last() =~= s);
    }
}

/// How many characters of `s` stand before the first `c`; all of them where there is
/// none.
pub open spec fn run_before(s: Seq<char>, c: char) -> nat
    decreases s.len(),
{
    if s.len() == 0 || s.first() == c {
        0
    } else {
        1 + run_before(s.drop_first(), c)
    }
}

/// The index of the first `c` in `s`, or the length of `s`.
pub fn find(s: &[char], c: char) -> (i: usize)
    ensures
        i == run_before(s@, c),
        i <= s@.len(),
        forall|j: int| 0 <= j < i ==> s@[j] != c,
        i < s@.len() ==> s@[i as int] == c,
{
    let mut i: usize = 0;
    assert(s@.skip(0) =~= s@);
    while i < s.len() && s[i] != c
        invariant
            i <= s@.len(),
            forall|j: int| 0 <= j < i ==> s@[j] != c,
            run_before(s@, c) == i + run_before(s@.skip(i as int), c),
        decreases s@.len() - i,
    {
        assert(s@.skip(i as int).drop_first() =~= s@.skip(i + 1));
        i += 1;
    }
    i
}

/// `run_before` is the length of the part of `s` before its first `c`.
pub proof fn lemma_run_before(s: Seq<char>, c: char)
    ensures
        run_before(s, c) <= s.len(),
        forall|j: int| 0 <= j < run_before(s, c) ==> s[j] != c,
        run_before(s, c) < s.len() ==> s[run_before(s, c) as int] == c,
    decreases s.len(),
{
    if s.len() > 0 && s.first() != c {
        let t = s.drop_first();
        lemma_run_before(t, c);
        assert forall|j: int| 0 <= j < run_before(s, c) implies s[j] != c by {
            if j > 0 {
                assert(s[j] == t[j - 1]);
            }
        }
    }
}

/// Where `i` is the first place of `c` in `s`, or its end, `run_before` is `i`.
pub proof fn lemma_run_before_is(s: Seq<char>, c: char, i: int)
    requires
        0 <= i <= s.len(),
        forall|j: int| 0 <= j < i ==> s[j] != c,
        i < s.len() ==> s[i] == c,
    ensures
        run_before(s, c) == i,
{
    lemma_run_before(s, c);
    let k = run_before(s, c) as int;
    if k < i {
        assert(s[k] != c);
    }
}

/// The pieces of `s` between its `sep`s. There is one piece more than there are `sep`s.
pub open spec fn split_on(s: Seq<char>, sep: char) -> Seq<Seq<char>>
    decreases s.len(),
{
    let i = run_before(s, sep) as int;
    if i < s.len() {
        seq![s.take(i)] + split_on(s.skip(i + 1), sep)
    } else {
        seq![s]
    }
}

/// The texts that a vector of character vectors holds.
pub open spec fn views(v: Seq<Vec<char>>) -> Seq<Seq<char>> {
    v.map_values(|x: Vec<char>| x@)
}

/// Splits `s` at every `sep`.
pub fn split(s: &[char], sep: char) -> (r: Vec<Vec<char>>)
    ensures
        views(r@) == split_on(s@, sep),
{
    let mut pieces: Vec<Vec<char>> = Vec::new();
    let mut start: usize = 0;
    assert(s@.skip(0) =~= s@);
    assert(views(pieces@) + split_on(s@, sep) =~= split_on(s@, sep));
    loop
        invariant
            start <= s@.len(),
            views(pieces@) + split_on(s@.skip(start as int), sep) == split_on(s@, sep),
        decreases s@.len() - start,
    {
        let rest: &[char] = slice_subrange(s, start, s.len());
        assert(rest@ =~= s@.skip(start as int));
        let i: usize = find(rest, sep);
        let piece: Vec<char> = slice_to_vec(slice_subrange(rest, 0, i));
        let ghost before = views(pieces@);
        pieces.push(piece);
        assert(views(pieces@) =~= before.push(piece@));
        if i == rest.len() {
            assert(rest@.subrange(0, i as int) =~= rest@);
            assert(views(pieces@) =~= before + seq![rest@]);
            return pieces;
        }
        assert(rest@.subrange(0, i as int) =~= rest@.take(i as int));
        assert(rest@.skip(i + 1) =~= s@.skip(start + i + 1));
        assert(views(pieces@) + split_on(s@.skip(start + i + 1), sep) =~= before + (seq![
            rest@.take(i as int),
        ] + split_on(s@.skip(start + i + 1), sep)));
        start = start + i + 1;
    }
}

/// A text without `sep` is one piece.
pub proof fn lemma_split_one(s: Seq<char>, sep: char)
    requires
        forall|j: int| 0 <= j < s.len() ==> s[j] != sep,
    ensures
        split_on(s, sep) == seq![s],
{
    lemma_run_before_is(s, sep, s.len() as int);
}

/// What stands before the first `sep` is the first piece.
pub proof fn lemma_split_first(first: Seq<char>, sep: char, rest: Seq<char>)
    requires
        forall|j: int| 0 <= j < first.len() ==> first[j] != sep,
    ensures
        split_on(first.push(sep) + rest, sep) == seq![first] + split_on(rest, sep),
{
    let s = first.push(sep) + rest;
    assert forall|j: int| 0 <= j < first.len() implies s[j] != sep by {
        assert(s[j] == first[j]);
    }
    lemma_run_before_is(s, sep, first.len() as int);
    assert(s.take(first.len() as int) =~= first);
    assert(s.skip((first.len() + 1) as int) =~= rest);
}

/// The texts that a vector of strings holds.
pub open spec fn string_views(v: Seq<String>) -> Seq<Seq<char>> {
    v.map_values(|x: String| x@)
}

/// `parts` with `sep` between each two of them.
pub open spec fn joined(parts: Seq<Seq<char>>, sep: Seq<char>) -> Seq<char>
    decreases parts.len(),
{
    if parts.len() == 0 {
        Seq::empty()
    } else if parts.len() == 1 {
        parts[0]
    } else {
        joined(parts.drop_last(), sep) + sep + parts.last()
    }
}

/// Appends `parts` with `sep` between each two of them.
pub fn push_joined(out: &mut String, parts: &Vec<String>, sep: &str)
    ensures
        final(out)@ == old(out)@ + joined(string_views(parts@), sep@),
{
    let ghost ps = string_views(parts@);
    let mut i: usize = 0;
    assert(out@ =~= old(out)@ + joined(ps.take(0), sep@));
    while i < parts.len()
        invariant
            i <= parts@.len(),
            ps == string_views(parts@),
            out@ == old(out)@ + joined(ps.take(i as int), sep@),
        decreases parts@.len() - i,
    {
        let ghost next = ps.take(i + 1);
        assert(next.drop_last() =~= ps.take(i as int));
        assert(next.last() == parts@[i as int]@);
        if i > 0 {
            out.append(sep);
        }
        out.append(parts[i].as_str());
        assert(out@ =~= old(out)@ + joined(next, sep@));
        i += 1;
    }
    assert(ps.take(i as int) =~= ps);
}

/// The upper-case form of an ASCII letter; any other character is its own.
pub open spec fn upper_char(c: char) -> char {
    if 'a' <= c <= 'z' {
        (c as u32 - 32) as char
    } else {
        c
    }
}

/// `s` with its ASCII letters in upper case.
pub open spec fn upper(s: Seq<char>) -> Seq<char> {
    s.map_values(|c: char| upper_char(c))
}

/// Puts the ASCII letters of `s` in upper case.
pub fn to_ascii_uppercase(s: &[char]) -> (r: Vec<char>)
    ensures
        r@ == upper(s@),
{
    let mut r: Vec<char> = Vec::new();
    let mut i: usize = 0;
    while i < s.len()
        invariant
            i <= s@.len(),
            r@ == upper(s@).take(i as int),
        decreases s@.len() - i,
    {
        let c: char = s[i];
        if 'a' <= c && c <= 'z' {
            r.push((c as u8 - 32) as char);
        } else {
            r.push(c);
        }
        assert(upper(s@).take(i + 1) =~= upper(s@).take(i as int).push(upper_char(c)));
        i += 1;
    }
    assert(upper(s@).take(i as int) =~= upper(s@));
    r
}

/// The characters of `s`.
pub fn chars_of(s: &str) -> (r: Vec<char>)
    ensures
        r@ == s@,
{
    let mut r: Vec<char> = Vec::new();
    for c in it: s.chars()
        invariant
            r@ == s@.take(it.index() as int),
            it.seq() == s@,
    {
        r.push(c);
    }
    r
}

/// Whether `s` is the text `t`.
pub fn is_text(s: &[char], t: &str) -> (b: bool)
    ensures
        b == (s@ == t@),
{
    let other: Vec<char> = chars_of(t);
    if s.len() != other.len() {
        return false;
    }
    let mut i: usize = 0;
    while i < s.len()
        invariant
            i <= s@.len() == other@.len(),
            other@ == t@,
            forall|j: int| 0 <= j < i ==> s@[j] == other@[j],
        decreases s@.len() - i,
    {
        if s[i] != other[i] {
            return false;
        }
        i += 1;
    }
    assert(s@ =~= t@);
    true
}

/// The character of the decimal digit `d`.
pub open spec fn digit_char(d: nat) -> char {
    (48 + d) as char
}

/// The decimal form of `n`, without leading zeros.
pub open spec fn decimal(n: nat) -> Seq<char>
    decreases n,
{
    if n < 10 {
        seq![digit_char(n)]
    } else {
        decimal(n / 10).push(digit_char(n % 10))
    }
}

/// The decimal form of `n`, with a minus sign where it is negative.
pub open spec fn signed_decimal(n: int) -> Seq<char> {
    if n < 0 {
        seq!['-'] + decimal((-n) as nat)
    } else {
        decimal(n as nat)
    }
}

/// Appends the decimal form of `n`.
pub fn push_decimal(out: &mut String, n: u64)
    ensures
        final(out)@ == old(out)@ + decimal(n as nat),
    decreases n,
{
    if n >= 10 {
        push_decimal(out, n / 10);
    }
    out.push((48 + (n % 10) as u8) as char);
    proof {
        let d = digit_char((n % 10) as nat);
        if n < 10 {
            assert(out@ =~= old(out)@ + seq![d]);
        } else {
            assert(out@ =~= old(out)@ + decimal((n / 10) as nat).push(d));
        }
    }
}

/// Appends the decimal form of `n`, with a minus sign where it is negative.
pub fn push_signed_decimal(out: &mut String, n: i32)
    ensures
        final(out)@ == old(out)@ + signed_decimal(n as int),
{
    if n < 0 {
        out.push('-');
        assert(out@ =~= old(out)@ + seq!['-']);
        push_decimal(out, (-(n as i64)) as u64);
        assert(out@ =~= old(out)@ + (seq!['-'] + decimal((-n) as nat)));
    } else {
        push_decimal(out, n as u64);
    }
}

/// Whether `c` is one of `0` to `9`.
pub open spec fn is_digit(c: char) -> bool {
    '0' <= c <= '9'
}

/// Whether `s` holds decimal digits only.
pub open spec fn all_digits(s: Seq<char>) -> bool {
    forall|i: int| 0 <= i < s.len() ==> is_digit(#[trigger] s[i])
}

/// The number that the decimal digits `s` stand for.
pub open spec fn digits_value(s: Seq<char>) -> nat
    decreases s.len(),
{
    if s.len() == 0 {
        0
    } else {
        digits_value(s.drop_last()) * 10 + (s.last() as nat - 48) as nat
    }
}

/// `s` without one leading plus sign.
pub open spec fn unsigned_part(s: Seq<char>) -> Seq<char> {
    if s.len() > 0 && s.first() == '+' {
        s.drop_first()
    } else {
        s
    }
}

/// The number written as `s`: an optional plus sign and at least one digit, with a value
/// of at most `max`.
pub open spec fn number(s: Seq<char>, max: nat) -> Option<nat> {
    let d = unsigned_part(s);
    if d.len() > 0 && all_digits(d) && digits_value(d) <= max {
        Some(digits_value(d))
    } else {
        None
    }
}

/// More digits never make the number smaller.
proof fn lemma_digits_value_grows(s: Seq<char>, i: int)
    requires
        0 <= i <= s.len(),
        all_digits(s),
    ensures
        digits_value(s.take(i)) <= digits_value(s),
    decreases s.len(),
{
    if i < s.len() {
        assert(s.drop_last().take(i) =~= s.take(i));
        lemma_digits_value_grows(s.drop_last(), i);
    } else {
        assert(s.take(i) =~= s);
    }
}

/// Reads a number of at most `max`.
pub fn parse_number(s: &[char], max: u64) -> (r: Option<u64>)
    ensures
        r is Some == number(s@, max as nat) is Some,
        r is Some ==> r->0 == number(s@, max as nat)->0,
{
    let start: usize = if s.len() > 0 && s[0] == '+' {
        1
    } else {
        0
    };
    let d: &[char] = slice_subrange(s, start, s.len());
    assert(d@ =~= unsigned_part(s@));
    if d.len() == 0 {
        return None;
    }
    let mut value: u64 = 0;
    let mut i: usize = 0;
    while i < d.len()
        invariant
            i <= d@.len(),
            d@.len() > 0,
            d@ == unsigned_part(s@),
            all_digits(d@.take(i as int)),
            value == digits_value(d@.take(i as int)),
            value <= max,
        decreases d@.len() - i,
    {
        let c: char = d[i];
        if c < '0' || '9' < c {
            assert(!is_digit(d@[i as int]));
            return None;
        }
        let digit: u64 = c as u64 - 48;
        let ghost next = d@.take(i + 1);
        assert(next.drop_last() =~= d@.take(i as int));
        assert(digits_value(next) == value * 10 + digit);
        if digit > max || value > (max - digit) / 10 {
            proof {
                if all_digits(d@) {
                    lemma_digits_value_grows(d@, i + 1);
                }
            }
            return None;
        }
        assert forall|j: int| 0 <= j < next.len() implies is_digit(#[trigger] next[j]) by {
            if j < i {
                assert(next[j] == d@.take(i as int)[j]);
            }
        }
        value = value * 10 + digit;
        i += 1;
    }
    assert(d@.take(i as int) =~= d@);
    Some(value)
}

/// The decimal form of a number consists of digits and reads back as the number.
pub proof fn lemma_decimal_value(n: nat)
    ensures
        all_digits(decimal(n)),
        decimal(n).len() > 0,
        digits_value(decimal(n)) == n,
    decreases n,
{
    if n < 10 {
        assert(decimal(n).drop_last() =~= Seq::<char>::empty());
        assert(digits_value(Seq::<char>::empty()) == 0);
    } else {
        lemma_decimal_value(n / 10);
        assert(decimal(n).drop_last() =~= decimal(n / 10));
    }
}

/// Writing a number in decimal and reading it gives the number back, whatever the
/// bound that still admits it.
pub proof fn law_number_reads_back(n: nat, max: nat)
    requires
        n <= max,
    ensures
        number(decimal(n), max) == Some(n),
{
    lemma_decimal_value(n);
    assert(is_digit(decimal(n)[0]));
}

/// Upper case is its own upper case.
pub proof fn lemma_upper_twice(s: Seq<char>)
    ensures
        upper(upper(s)) == upper(s),
{
    assert(upper(upper(s)) =~= upper(s));
}

/// Case makes no difference to what is trimmed.
pub proof fn lemma_upper_trimmed(s: Seq<char>)
    ensures
        trimmed(upper(s)) == upper(trimmed(s)),
    decreases s.len(),
{
    if s.len() > 0 {
        if is_space(s.first()) {
            assert(upper(s).drop_first() =~= upper(s.drop_first()));
            lemma_upper_trimmed(s.drop_first());
        } else if is_space(s.last()) {
            assert(upper(s).drop_last() =~= upper(s.drop_last()));
            lemma_upper_trimmed(s.drop_last());
        }
    }
}

/// Case makes no difference to where a text is split, at a character without case.
pub proof fn lemma_upper_split(s: Seq<char>, sep: char)
    requires
        !('a' <= sep <= 'z'),
        !('A' <= sep <= 'Z'),
    ensures
        split_on(upper(s), sep) == split_on(s, sep).map_values(|p: Seq<char>| upper(p)),
    decreases s.len(),
{
    let u = upper(s);
    let i = run_before(s, sep) as int;
    lemma_run_before(s, sep);
    assert forall|j: int| 0 <= j < i implies u[j] != sep by {
        assert(s[j] != sep);
    }
    lemma_run_before_is(u, sep, i);
    if i < s.len() {
        assert(u.take(i) =~= upper(s.take(i)));
        assert(u.skip(i + 1) =~= upper(s.skip(i + 1)));
        lemma_upper_split(s.skip(i + 1), sep);
    }
    assert(split_on(u, sep) =~= split_on(s, sep).map_values(|p: Seq<char>| upper(p)));
}

/// The characters that count as white space, by their numbers.
pub proof fn law_white_space_by_number(c: char)
    ensures
        ({
            let n = c as u32;
            is_space(c) == (9 <= n <= 13 || n == 32 || n == 133 || n == 160 || n == 5760 || 8192 <= n
                <= 8202 || 8232 <= n <= 8233 || n == 8239 || n == 8287 || n == 12288)
        }),
{
}

/// Trimming takes white space off the two ends and nothing else, and leaves none there.
pub proof fn law_trimming_takes_white_space_off_the_ends(s: Seq<char>) -> (ends: (int, int))
    ensures
        0 <= ends.0 <= ends.1 <= s.len(),
        trimmed(s) == s.subrange(ends.0, ends.1),
        forall|i: int| 0 <= i < ends.0 ==> is_space(#[trigger] s[i]),
        forall|i: int| ends.1 <= i < s.len() ==> is_space(#[trigger] s[i]),
        trimmed(s).len() > 0 ==> !is_space(trimmed(s).first()) && !is_space(trimmed(s).last()),
    decreases s.len(),
{
    if s.len() == 0 {
        assert(s.subrange(0, 0) =~= s);
        (0, 0)
    } else if is_space(s.first()) {
        let t = s.drop_first();
        let (a, b) = law_trimming_takes_white_space_off_the_ends(t);
        assert(t.subrange(a, b) =~= s.subrange(a + 1, b + 1));
        assert forall|i: int| 0 <= i < a + 1 implies is_space(#[trigger] s[i]) by {
            if i > 0 {
                assert(s[i] == t[i - 1]);
            }
        }
        assert forall|i: int| b + 1 <= i < s.len() implies is_space(#[trigger] s[i]) by {
            assert(s[i] == t[i - 1]);
        }
        (a + 1, b + 1)
    } else if is_space(s.last()) {
        let t = s.drop_last();
        let (a, b) = law_trimming_takes_white_space_off_the_ends(t);
        assert(t.subrange(a, b) =~= s.subrange(a, b));
        assert forall|i: int| 0 <= i < a implies is_space(#[trigger] s[i]) by {
            assert(s[i] == t[i]);
        }
        assert forall|i: int| b <= i < s.len() implies is_space(#[trigger] s[i]) by {
            if i < t.len() {
                assert(s[i] == t[i]);
            }
        }
        (a, b)
    } else {
        assert(s.subrange(0, s.len() as int) =~= s);
        (0, s.len() as int)
    }
}

/// What stands behind the last `sep` is the last piece.
pub proof fn law_split_last(s: Seq<char>, sep: char, last: Seq<char>)
    requires
        forall|j: int| 0 <= j < last.len() ==> last[j] != sep,
    ensures
        split_on(s.push(sep) + last, sep) == split_on(s, sep).push(last),
    decreases s.len(),
{
    let i = run_before(s, sep) as int;
    lemma_run_before(s, sep);
    if i < s.len() {
        let first = s.take(i);
        let rest = s.skip(i + 1);
        assert(s =~= first.push(sep) + rest);
        assert(s.push(sep) + last =~= first.push(sep) + (rest.push(sep) + last));
        assert forall|j: int| 0 <= j < first.len() implies first[j] != sep by {
            assert(first[j] == s[j]);
        }
        lemma_split_first(first, sep, rest.push(sep) + last);
        law_split_last(rest, sep, last);
        assert(seq![first] + split_on(rest, sep).push(last) =~= (seq![first] + split_on(
            rest,
            sep,
        )).push(last));
    } else {
        lemma_split_first(s, sep, last);
        lemma_split_one(last, sep);
        assert(seq![s] + seq![last] =~= seq![s].push(last));
    }
}

/// One more part is joined by a separator and the part, but for the first, which stands alone.
pub proof fn law_joining_one_more_part(parts: Seq<Seq<char>>, part: Seq<char>, sep: Seq<char>)
    ensures
        joined(Seq::empty(), sep).len() == 0,
        joined(seq![part], sep) == part,
        parts.len() > 0 ==> joined(parts.push(part), sep) == joined(parts, sep) + sep + part,
{
    assert(parts.push(part).drop_last() =~= parts);
}

/// Upper case lowers the numbers of `a` to `z` by thirty-two, and leaves every other character
/// and the length alone.
pub proof fn law_upper_case_changes_small_ascii_letters(s: Seq<char>, i: int)
    requires
        0 <= i < s.len(),
    ensures
        upper(s).len() == s.len(),
        97 <= s[i] as u32 <= 122 ==> upper(s)[i] as u32 == s[i] as u32 - 32,
        !(97 <= s[i] as u32 <= 122) ==> upper(s)[i] == s[i],
{
}

/// A digit behind a number is its lowest place: ten times the number and the digit.
pub proof fn law_places_of_a_number(n: nat, d: nat, s: Seq<char>, c: char)
    requires
        d < 10,
        48 <= c as u32 <= 57,
    ensures
        decimal(d).len() == 1 && decimal(d)[0] as u32 == 48 + d,
        n > 0 ==> decimal(10 * n + d) == decimal(n) + decimal(d),
        digits_value(s.push(c)) == 10 * digits_value(s) + (c as u32 - 48),
        digits_value(Seq::empty()) == 0,
{
    assert((10 * n + d) / 10 == n && (10 * n + d) % 10 == d);
    if n > 0 {
        assert(decimal(10 * n + d) =~= decimal(n) + decimal(d));
    }
    assert(s.push(c).drop_last() =~= s);
}

/// A negative number is a minus sign and the number without its sign. Other numbers have no
/// sign.
pub proof fn law_only_negative_numbers_have_a_sign(n: nat)
    ensures
        signed_decimal(n as int) == decimal(n),
        n > 0 ==> signed_decimal(-n) == seq!['-'] + decimal(n),
{
}

/// Digits are read as their number where it is within the bound. A plus sign in front of them
/// makes no difference.
pub proof fn law_digits_are_read(s: Seq<char>, max: nat)
    requires
        s.len() > 0,
        forall|i: int| 0 <= i < s.len() ==> 48 <= (#[trigger] s[i]) as int <= 57,
    ensures
        number(s, max) == (if digits_value(s) <= max {
            Some(digits_value(s))
        } else {
            None
        }),
        number(seq!['+'] + s, max) == number(s, max),
{
    assert forall|i: int| 0 <= i < s.len() implies is_digit(#[trigger] s[i]) by {
        assert(48 <= s[i] as int <= 57);
    }
    assert(48 <= s[0] as int <= 57);
    assert((seq!['+'] + s).drop_first() =~= s);
}

/// Nothing else is read as a number: no text with a character that is no digit, but for a plus
/// sign in front, and no text without a digit.
pub proof fn law_nothing_else_is_a_number(s: Seq<char>, i: int, max: nat)
    ensures
        0 <= i < s.len() && !(48 <= s[i] as u32 <= 57) && (i > 0 || s[i] != '+') ==> number(s, max)
            is None,
        s.len() == 0 ==> number(s, max) is None,
        s.len() == 1 && s[0] == '+' ==> number(s, max) is None,
{
    if 0 <= i < s.len() && !(48 <= s[i] as u32 <= 57) && (i > 0 || s[i] != '+') {
        let d = unsigned_part(s);
        if s.first() == '+' {
            assert(d[i - 1] == s[i]);
            assert(!is_digit(d[i - 1]));
        } else {
            assert(!is_digit(d[i]));
        }
    }
}

/// What a list of texts stands for holds each of them, in order.
pub proof fn law_lists_show_every_text(v: Seq<Vec<char>>, w: Seq<String>, i: int)
    ensures
        views(v).len() == v.len(),
        0 <= i < v.len() ==> views(v)[i] == v[i]@,
        string_views(w).len() == w.len(),
        0 <= i < w.len() ==> string_views(w)[i] == w[i]@,
{
}

} // verus!
