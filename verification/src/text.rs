//! Text primitives the preview protocol is built from: UTF-8 decoding,
//! whitespace-separated words, and decimal numbers.

use vstd::prelude::*;
use vstd::utf8::{decode_utf8, valid_utf8};

verus! {

/// `c` has the Unicode `White_Space` property.
pub open spec fn is_whitespace(c: char) -> bool {
    let u = c as u32;
    ||| 0x09 <= u <= 0x0d
    ||| u == 0x20
    ||| u == 0x85
    ||| u == 0xa0
    ||| u == 0x1680
    ||| 0x2000 <= u <= 0x200a
    ||| u == 0x2028
    ||| u == 0x2029
    ||| u == 0x202f
    ||| u == 0x205f
    ||| u == 0x3000
}

/// Whether `c` is Unicode white space.
pub fn char_is_whitespace(c: char) -> (b: bool)
    ensures
        b == is_whitespace(c),
{
    let u = c as u32;
    (0x09 <= u && u <= 0x0d) || u == 0x20 || u == 0x85 || u == 0xa0 || u == 0x1680 || (0x2000 <= u
        && u <= 0x200a) || u == 0x2028 || u == 0x2029 || u == 0x202f || u == 0x205f || u == 0x3000
}

/// Index of the first white-space character of `s` at or after `i`, or the
/// length of `s` when there is none.
pub open spec fn word_end(s: Seq<char>, i: nat) -> nat
    decreases s.len() - i,
{
    if i < s.len() && !is_whitespace(s[i as int]) {
        word_end(s, i + 1)
    } else {
        i
    }
}

/// The maximal runs of non-white-space characters of `s`, in order.
pub open spec fn words(s: Seq<char>) -> Seq<Seq<char>>
    decreases s.len(),
{
    if s.len() == 0 {
        seq![]
    } else if is_whitespace(s[0]) {
        words(s.drop_first())
    } else {
        let end = word_end(s, 0);
        proof {
            lemma_word_end_bounds(s, 1);
        }
        seq![s.take(end as int)] + words(s.skip(end as int))
    }
}

/// Collects the characters of `text`.
pub fn chars_of(text: &str) -> (chars: Vec<char>)
    ensures
        chars@ == text@,
{
    let mut chars: Vec<char> = Vec::new();
    for c in it: text.chars()
        invariant
            chars@ == it.seq().take(it.index() as int),
    {
        chars.push(c);
    }
    chars
}

/// Decodes `bytes` as UTF-8 text; `None` when they are not valid UTF-8.
///
/// Trusted: `std::str::from_utf8`, which is documented to succeed exactly on
/// valid UTF-8 (the `valid_utf8` model of vstd) and to yield the decoded
/// characters.
#[verifier::external_body]
pub(crate) fn str_from_utf8(bytes: &[u8]) -> (text: Option<&str>)
    ensures
        text is Some <==> valid_utf8(bytes@),
        text matches Some(t) ==> t@ == decode_utf8(bytes@),
{
    std::str::from_utf8(bytes).ok()
}

pub proof fn lemma_word_end_bounds(s: Seq<char>, i: nat)
    requires
        i <= s.len(),
    ensures
        i <= word_end(s, i) <= s.len(),
        word_end(s, i) < s.len() ==> is_whitespace(s[word_end(s, i) as int]),
        forall|k: int| i <= k < word_end(s, i) ==> !is_whitespace(#[trigger] s[k]),
    decreases s.len() - i,
{
    if i < s.len() && !is_whitespace(s[i as int]) {
        lemma_word_end_bounds(s, i + 1);
    }
}

/// `word_end` from an offset, seen from the suffix that starts there.
proof fn lemma_word_end_shift(s: Seq<char>, from: nat, i: nat)
    requires
        from <= i <= s.len(),
    ensures
        word_end(s.skip(from as int), (i - from) as nat) + from == word_end(s, i),
    decreases s.len() - i,
{
    if i < s.len() && !is_whitespace(s[i as int]) {
        lemma_word_end_shift(s, from, i + 1);
    }
}

/// Skipping one white-space character does not change the words.
proof fn lemma_words_skip_space(s: Seq<char>, i: nat)
    requires
        i < s.len(),
        is_whitespace(s[i as int]),
    ensures
        words(s.skip(i as int)) == words(s.skip(i + 1int)),
{
    assert(s.skip(i as int).drop_first() =~= s.skip(i + 1int));
}

/// A word that starts at `i` and ends at `e` is the first word of the suffix
/// at `i`, followed by the words of the suffix at `e`.
proof fn lemma_words_take_word(s: Seq<char>, i: nat)
    requires
        i < s.len(),
        !is_whitespace(s[i as int]),
    ensures
        words(s.skip(i as int)) == seq![s.subrange(i as int, word_end(s, i) as int)] + words(
            s.skip(word_end(s, i) as int),
        ),
{
    let t = s.skip(i as int);
    lemma_word_end_shift(s, i, i);
    lemma_word_end_bounds(s, i);
    let e = word_end(s, i);
    assert(t.take((e - i) as int) =~= s.subrange(i as int, e as int));
    assert(t.skip((e - i) as int) =~= s.skip(e as int));
}

/// Start and end of the first word of `chars` at or after `from`; both are
/// the length of `chars` when no word follows.
pub fn next_word(chars: &Vec<char>, from: usize) -> (bounds: (usize, usize))
    requires
        from <= chars@.len(),
    ensures
        bounds.0 <= bounds.1 <= chars@.len(),
        bounds.0 == bounds.1 ==> bounds.1 == chars@.len() && words(chars@.skip(from as int))
            == Seq::<Seq<char>>::empty(),
        bounds.0 < bounds.1 ==> words(chars@.skip(from as int)) == seq![
            chars@.subrange(bounds.0 as int, bounds.1 as int),
        ] + words(chars@.skip(bounds.1 as int)),
{
    let n = chars.len();
    let mut start = from;
    while start < n && char_is_whitespace(chars[start])
        invariant
            from <= start <= n,
            n == chars@.len(),
            words(chars@.skip(from as int)) == words(chars@.skip(start as int)),
        decreases n - start,
    {
        proof {
            lemma_words_skip_space(chars@, start as nat);
        }
        start = start + 1;
    }
    if start == n {
        assert(chars@.skip(n as int) =~= Seq::<char>::empty());
        return (n, n);
    }
    let mut end = start;
    while end < n && !char_is_whitespace(chars[end])
        invariant
            start <= end <= n,
            n == chars@.len(),
            word_end(chars@, end as nat) == word_end(chars@, start as nat),
        decreases n - end,
    {
        end = end + 1;
    }
    proof {
        lemma_words_take_word(chars@, start as nat);
    }
    (start, end)
}

/// `chars[at..at + pattern.len()]` equals `pattern`.
pub fn matches_at(chars: &Vec<char>, at: usize, pattern: &Vec<char>) -> (b: bool)
    requires
        at + pattern@.len() <= chars@.len(),
    ensures
        b == (chars@.subrange(at as int, at + pattern@.len()) == pattern@),
{
    let n = chars.len();
    let mut i: usize = 0;
    while i < pattern.len()
        invariant
            n == chars@.len(),
            i <= pattern@.len(),
            at + pattern@.len() <= chars@.len(),
            chars@.subrange(at as int, at + i) == pattern@.take(i as int),
        decreases pattern@.len() - i,
    {
        if chars[at + i] != pattern[i] {
            assert(chars@.subrange(at as int, at + pattern@.len())[i as int] != pattern@[i as int]);
            return false;
        }
        i = i + 1;
        assert(chars@.subrange(at as int, at + i) =~= pattern@.take(i as int));
    }
    assert(pattern@.take(i as int) =~= pattern@);
    true
}

/// `c` is an ASCII decimal digit.
pub open spec fn is_digit(c: char) -> bool {
    '0' <= c <= '9'
}

/// Value of the decimal digit `c`.
pub open spec fn digit_value(c: char) -> nat {
    (c as nat - '0' as nat) as nat
}

/// Value of the decimal numeral `d`, most significant digit first.
pub open spec fn decimal_value(d: Seq<char>) -> nat
    decreases d.len(),
{
    if d.len() == 0 {
        0
    } else {
        decimal_value(d.drop_last()) * 10 + digit_value(d.last())
    }
}

/// `s` without one leading `+`, if it has one.
pub open spec fn unsigned_digits(s: Seq<char>) -> Seq<char> {
    if s.len() > 0 && s[0] == '+' {
        s.drop_first()
    } else {
        s
    }
}

/// Every character of `d` is an ASCII digit.
pub open spec fn all_digits(d: Seq<char>) -> bool {
    forall|i: int| 0 <= i < d.len() ==> is_digit(#[trigger] d[i])
}

/// `u32` denoted by `s` under the grammar of `u32::from_str`: an optional
/// `+`, then one or more ASCII digits, with a value that fits in 32 bits.
pub open spec fn parse_u32(s: Seq<char>) -> Option<u32> {
    let d = unsigned_digits(s);
    if d.len() > 0 && all_digits(d) && decimal_value(d) <= u32::MAX {
        Some(decimal_value(d) as u32)
    } else {
        None
    }
}

/// Appending digits never makes a numeral smaller.
proof fn lemma_decimal_prefix_le(d: Seq<char>, k: int)
    requires
        0 <= k <= d.len(),
        all_digits(d),
    ensures
        decimal_value(d.take(k)) <= decimal_value(d),
    decreases d.len(),
{
    if k < d.len() {
        assert(d.drop_last().take(k) =~= d.take(k));
        lemma_decimal_prefix_le(d.drop_last(), k);
    } else {
        assert(d.take(k) =~= d);
    }
}

/// Parses `chars[from..to]` as a `u32`, with the grammar of `u32::from_str`.
pub fn parse_u32_at(chars: &Vec<char>, from: usize, to: usize) -> (value: Option<u32>)
    requires
        from <= to <= chars@.len(),
    ensures
        value == parse_u32(chars@.subrange(from as int, to as int)),
{
    let ghost s = chars@.subrange(from as int, to as int);
    let mut start = from;
    if from < to && chars[from] == '+' {
        start = from + 1;
    }
    let ghost d = chars@.subrange(start as int, to as int);
    assert(d == unsigned_digits(s));
    if start == to {
        return None;
    }
    let mut acc: u64 = 0;
    let mut i = start;
    while i < to
        invariant
            from <= start <= i <= to <= chars@.len(),
            d == chars@.subrange(start as int, to as int),
            s == chars@.subrange(from as int, to as int),
            d == unsigned_digits(s),
            d.len() > 0,
            forall|k: int| 0 <= k < i - start ==> is_digit(#[trigger] d[k]),
            acc == decimal_value(d.take(i - start)),
            acc <= u32::MAX,
        decreases to - i,
    {
        let c = chars[i];
        if !('0' <= c && c <= '9') {
            assert(!is_digit(d[i - start]));
            return None;
        }
        let digit: u64 = (c as u64) - ('0' as u64);
        assert(d.take(i - start + 1).drop_last() =~= d.take(i - start));
        let next: u64 = acc * 10 + digit;
        if next > 0xffff_ffff {
            proof {
                if all_digits(d) {
                    lemma_decimal_prefix_le(d, i - start + 1);
                    assert(decimal_value(d) > u32::MAX);
                }
            }
            return None;
        }
        acc = next;
        i = i + 1;
    }
    assert(d.take(i - start) =~= d);
    Some(acc as u32)
}

/// Decimal numeral of `n`, most significant digit first, without leading
/// zeros (`0` for zero).
pub open spec fn decimal(n: nat) -> Seq<char>
    decreases n,
{
    if n < 10 {
        seq![digit_char(n)]
    } else {
        decimal(n / 10) + seq![digit_char(n % 10)]
    }
}

/// The ASCII digit for `v < 10`.
pub open spec fn digit_char(v: nat) -> char {
    (v + 48) as char
}

/// Appends the decimal numeral of `n` to `out`.
pub fn push_decimal(out: &mut String, n: u128)
    ensures
        final(out)@ == old(out)@ + decimal(n as nat),
    decreases n,
{
    if n >= 10 {
        push_decimal(out, n / 10);
    }
    let d: u8 = (n % 10) as u8;
    out.append(digit_str(d));
}

/// The one-character string of the decimal digit `d`.
fn digit_str(d: u8) -> (s: &'static str)
    requires
        d < 10,
    ensures
        s@ == seq![digit_char(d as nat)],
{
    proof {
        reveal_strlit("0");
        reveal_strlit("1");
        reveal_strlit("2");
        reveal_strlit("3");
        reveal_strlit("4");
        reveal_strlit("5");
        reveal_strlit("6");
        reveal_strlit("7");
        reveal_strlit("8");
        reveal_strlit("9");
    }
    match d {
        0 => "0",
        1 => "1",
        2 => "2",
        3 => "3",
        4 => "4",
        5 => "5",
        6 => "6",
        7 => "7",
        8 => "8",
        _ => "9",
    }
}

/// No character of `w` is white space.
pub open spec fn no_whitespace(w: Seq<char>) -> bool {
    forall|i: int| 0 <= i < w.len() ==> !is_whitespace(#[trigger] w[i])
}

proof fn lemma_word_end_at(s: Seq<char>, i: nat, k: nat)
    requires
        i <= k <= s.len(),
        forall|j: int| i <= j < k ==> !is_whitespace(#[trigger] s[j]),
        k == s.len() || is_whitespace(s[k as int]),
    ensures
        word_end(s, i) == k,
    decreases k - i,
{
    if i < k {
        lemma_word_end_at(s, i + 1, k);
    }
}

/// A white-space character in front of a text adds no word.
pub proof fn lemma_words_space_prefix(c: char, t: Seq<char>)
    requires
        is_whitespace(c),
    ensures
        words(seq![c] + t) == words(t),
{
    assert((seq![c] + t).drop_first() =~= t);
}

/// A word followed by white space (or by nothing) is the first word.
pub proof fn lemma_words_word_prefix(w: Seq<char>, t: Seq<char>)
    requires
        w.len() > 0,
        no_whitespace(w),
        t.len() == 0 || is_whitespace(t[0]),
    ensures
        words(w + t) == seq![w] + words(t),
{
    let s = w + t;
    assert forall|j: int| 0 <= j < w.len() implies !is_whitespace(#[trigger] s[j]) by {
        assert(s[j] == w[j]);
    }
    lemma_word_end_at(s, 0, w.len());
    assert(s.take(w.len() as int) =~= w);
    assert(s.skip(w.len() as int) =~= t);
}

proof fn lemma_digit_char(v: nat)
    requires
        v < 10,
    ensures
        digit_value(digit_char(v)) == v,
        is_digit(digit_char(v)),
{
    assert(digit_char(v) as nat == v + 48);
}

/// The decimal numeral of `n` is a non-empty run of digits denoting `n`.
pub proof fn lemma_decimal_round_trip(n: nat)
    ensures
        decimal(n).len() > 0,
        all_digits(decimal(n)),
        no_whitespace(decimal(n)),
        decimal_value(decimal(n)) == n,
        unsigned_digits(decimal(n)) == decimal(n),
    decreases n,
{
    if n < 10 {
        lemma_digit_char(n);
        assert(decimal(n).drop_last() =~= Seq::<char>::empty());
        assert(decimal_value(Seq::<char>::empty()) == 0);
        assert(decimal(n).last() == digit_char(n));
        assert(decimal_value(decimal(n)) == n);
    } else {
        lemma_decimal_round_trip(n / 10);
        lemma_digit_char(n % 10);
        let d = decimal(n);
        assert(d.drop_last() =~= decimal(n / 10));
        assert(d.last() == digit_char(n % 10));
        assert(decimal_value(d) == decimal_value(decimal(n / 10)) * 10 + n % 10);
        assert(decimal_value(d) == n);
        assert forall|i: int| 0 <= i < d.len() implies is_digit(#[trigger] d[i]) by {
            if i < d.len() - 1 {
                assert(d[i] == decimal(n / 10)[i]);
            }
        }
    }
    let d = decimal(n);
    assert forall|i: int| 0 <= i < d.len() implies !is_whitespace(#[trigger] d[i]) by {
        assert(is_digit(d[i]));
    }
    assert(is_digit(d[0]));
}

} // verus!
