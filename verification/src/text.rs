//! Text building blocks shared by the signing and framing code: decimal
//! rendering, UTF-8 byte lengths, searching, splitting and trimming.
//!
//! Strings are modelled by their view, a `Seq<char>`; where the wire counts
//! bytes, the bytes are `encode_utf8` of that view.

use vstd::prelude::*;
use vstd::string::*;
use vstd::utf8::*;

verus! {

/// Appends one character to `s`, by `String::push`: the text afterwards is the
/// text before with `c` at its end.
#[verifier::external_body]
pub(crate) fn push_char(s: &mut String, c: char)
    ensures
        final(s)@ == old(s)@.push(c),
{
    s.push(c)
}

/// The characters of `s`, in order.
pub fn chars_of(s: &str) -> (r: Vec<char>)
    ensures
        r@ == s@,
{
    let mut out: Vec<char> = Vec::new();
    for c in it: s.chars()
        invariant
            out@ == it.seq().take(it.index() as int),
            it.seq() == s@,
    {
        out.push(c);
    }
    out
}

/// The string made of `chars[from..to]`.
pub fn string_of(chars: &Vec<char>, from: usize, to: usize) -> (r: String)
    requires
        from <= to <= chars@.len(),
    ensures
        r@ == chars@.subrange(from as int, to as int),
{
    let mut out = String::new();
    let mut i: usize = from;
    while i < to
        invariant
            from <= i <= to <= chars@.len(),
            out@ == chars@.subrange(from as int, i as int),
        decreases to - i,
    {
        push_char(&mut out, chars[i]);
        i += 1;
    }
    out
}

/// The decimal digit for `d`, which is meant to be below ten.
pub open spec fn digit_char(d: int) -> char {
    ('0' as int + d) as char
}

/// Whether `c` is one of `'0'` to `'9'`.
pub open spec fn is_digit(c: char) -> bool {
    '0' <= c <= '9'
}

/// The number that the digit `c` stands for.
pub open spec fn digit_value(c: char) -> int {
    c as int - '0' as int
}

/// `n` in decimal, without sign, padding or leading zeros.
pub open spec fn decimal_text(n: nat) -> Seq<char>
    decreases n,
{
    if n < 10 {
        seq![digit_char(n as int)]
    } else {
        decimal_text(n / 10).push(digit_char((n % 10) as int))
    }
}

/// The number that a run of decimal digits stands for.
pub open spec fn decimal_value(digits: Seq<char>) -> nat
    decreases digits.len(),
{
    if digits.len() == 0 {
        0
    } else {
        (decimal_value(digits.drop_last()) * 10 + digit_value(digits.last())) as nat
    }
}

/// Whether every character of `s` is a decimal digit.
pub open spec fn all_digits(s: Seq<char>) -> bool {
    forall|i: int| 0 <= i < s.len() ==> is_digit(#[trigger] s[i])
}

/// `v` in decimal, with a leading `-` when it is negative.
pub open spec fn signed_decimal_text(v: int) -> Seq<char> {
    if v < 0 {
        seq!['-'] + decimal_text((-v) as nat)
    } else {
        decimal_text(v as nat)
    }
}

/// A decimal rendering is never empty, holds digits only, and reads back as
/// the number it was made from.
pub proof fn lemma_decimal_text(n: nat)
    ensures
        decimal_text(n).len() >= 1,
        all_digits(decimal_text(n)),
        decimal_value(decimal_text(n)) == n,
    decreases n,
{
    if n >= 10 {
        lemma_decimal_text(n / 10);
        assert(decimal_text(n).drop_last() =~= decimal_text(n / 10));
    } else {
        assert(decimal_text(n).drop_last() =~= Seq::<char>::empty());
        assert(decimal_value(Seq::<char>::empty()) == 0);
    }
}

fn digit_of(d: u64) -> (c: char)
    requires
        d < 10,
    ensures
        c == digit_char(d as int),
{
    ('0' as u8 + d as u8) as char
}

/// Appends `n` in decimal to `out`.
pub fn push_decimal(out: &mut String, n: u64)
    ensures
        final(out)@ == old(out)@ + decimal_text(n as nat),
    decreases n,
{
    if n >= 10 {
        push_decimal(out, n / 10);
    }
    push_char(out, digit_of(n % 10));
}

/// `n` in decimal.
pub fn decimal_string(n: u64) -> (r: String)
    ensures
        r@ == decimal_text(n as nat),
{
    let mut out = String::new();
    push_decimal(&mut out, n);
    out
}

/// `v` in decimal, with a leading `-` when it is negative.
pub fn signed_decimal_string(v: i32) -> (r: String)
    ensures
        r@ == signed_decimal_text(v as int),
{
    let mut out = String::new();
    if v < 0 {
        push_char(&mut out, '-');
        let magnitude: u64 = (-(v as i64)) as u64;
        push_decimal(&mut out, magnitude);
    } else {
        push_decimal(&mut out, v as u64);
    }
    out
}

/// The number of bytes that `s` takes in UTF-8.
pub open spec fn utf8_len(s: Seq<char>) -> nat {
    encode_utf8(s).len()
}

/// The UTF-8 bytes of a concatenation are the bytes of its two parts, one
/// after the other.
pub proof fn lemma_encode_utf8_concat(a: Seq<char>, b: Seq<char>)
    ensures
        encode_utf8(a + b) == encode_utf8(a) + encode_utf8(b),
    decreases a.len(),
{
    if a.len() > 0 {
        lemma_encode_utf8_concat(a.drop_first(), b);
        assert((a + b).drop_first() =~= a.drop_first() + b);
    }
}

/// A run of digits is ASCII, so it takes one byte for each character.
pub proof fn lemma_digits_are_ascii(s: Seq<char>)
    requires
        all_digits(s),
    ensures
        is_ascii_chars(s),
        encode_utf8(s).len() == s.len(),
        forall|i: int| 0 <= i < s.len() ==> #[trigger] encode_utf8(s)[i] == s[i] as u8,
{
    is_ascii_chars_encode_utf8(s);
}

/// Whether `c` is white space in Unicode's sense (the property White_Space),
/// the sense in which a field is trimmed.
pub open spec fn is_whitespace(c: char) -> bool {
    let u = c as u32;
    ||| 0x09 <= u <= 0x0D
    ||| u == 0x20
    ||| u == 0x85
    ||| u == 0xA0
    ||| u == 0x1680
    ||| 0x2000 <= u <= 0x200A
    ||| u == 0x2028
    ||| u == 0x2029
    ||| u == 0x202F
    ||| u == 0x205F
    ||| u == 0x3000
}

/// Tells whether `c` is white space.
pub fn is_whitespace_char(c: char) -> (r: bool)
    ensures
        r == is_whitespace(c),
{
    let u: u32 = c as u32;
    (0x09 <= u && u <= 0x0D) || u == 0x20 || u == 0x85 || u == 0xA0 || u == 0x1680 || (0x2000 <= u
        && u <= 0x200A) || u == 0x2028 || u == 0x2029 || u == 0x202F || u == 0x205F || u == 0x3000
}

/// `s` without the white space at its start.
pub open spec fn trim_start_text(s: Seq<char>) -> Seq<char>
    decreases s.len(),
{
    if s.len() > 0 && is_whitespace(s[0]) {
        trim_start_text(s.drop_first())
    } else {
        s
    }
}

/// `s` without the white space at its end.
pub open spec fn trim_end_text(s: Seq<char>) -> Seq<char>
    decreases s.len(),
{
    if s.len() > 0 && is_whitespace(s.last()) {
        trim_end_text(s.drop_last())
    } else {
        s
    }
}

/// `s` without the white space at either end.
pub open spec fn trim_text(s: Seq<char>) -> Seq<char> {
    trim_end_text(trim_start_text(s))
}

proof fn lemma_trim_start(s: Seq<char>, from: int)
    requires
        0 <= from <= s.len(),
        forall|k: int| 0 <= k < from ==> is_whitespace(#[trigger] s[k]),
        from < s.len() ==> !is_whitespace(s[from]),
    ensures
        trim_start_text(s) == s.subrange(from, s.len() as int),
    decreases from,
{
    if from > 0 {
        lemma_trim_start(s.drop_first(), from - 1);
    }
}

proof fn lemma_trim_end(s: Seq<char>, to: int)
    requires
        0 <= to <= s.len(),
        forall|k: int| to <= k < s.len() ==> is_whitespace(#[trigger] s[k]),
        0 < to ==> !is_whitespace(s[to - 1]),
    ensures
        trim_end_text(s) == s.subrange(0, to),
    decreases s.len() - to,
{
    if to < s.len() {
        lemma_trim_end(s.drop_last(), to);
    }
}

/// `s` without the white space at either end.
pub fn trim(s: &str) -> (r: String)
    ensures
        r@ == trim_text(s@),
{
    let chars = chars_of(s);
    let n: usize = chars.len();
    let mut from: usize = 0;
    while from < n && is_whitespace_char(chars[from])
        invariant
            from <= n == chars@.len(),
            forall|k: int| 0 <= k < from ==> is_whitespace(#[trigger] chars@[k]),
        decreases n - from,
    {
        from += 1;
    }
    let mut to: usize = n;
    while to > from && is_whitespace_char(chars[to - 1])
        invariant
            from <= to <= n == chars@.len(),
            forall|k: int| to <= k < n ==> is_whitespace(#[trigger] chars@[k]),
        decreases to,
    {
        to -= 1;
    }
    proof {
        lemma_trim_start(chars@, from as int);
        lemma_trim_end(chars@.subrange(from as int, n as int), to - from);
    }
    string_of(&chars, from, to)
}

/// The index of the first `sep` in `s`, or the length of `s` where it holds
/// none.
pub open spec fn first_index_of(s: Seq<char>, sep: char) -> int
    decreases s.len(),
{
    if s.len() == 0 || s[0] == sep {
        0
    } else {
        1 + first_index_of(s.drop_first(), sep)
    }
}

/// The pieces of `s` between its separators, in order. A text without a
/// separator is one piece; so the empty text gives one empty piece, and a
/// separator at the end is followed by an empty piece.
pub open spec fn split_text(s: Seq<char>, sep: char) -> Seq<Seq<char>>
    decreases s.len(),
{
    let at = first_index_of(s, sep);
    if 0 <= at < s.len() {
        seq![s.subrange(0, at)] + split_text(s.subrange(at + 1, s.len() as int), sep)
    } else {
        seq![s]
    }
}

proof fn lemma_first_index_of(s: Seq<char>, sep: char, at: int)
    requires
        0 <= at <= s.len(),
        forall|k: int| 0 <= k < at ==> #[trigger] s[k] != sep,
        at < s.len() ==> s[at] == sep,
    ensures
        first_index_of(s, sep) == at,
    decreases at,
{
    if at > 0 {
        lemma_first_index_of(s.drop_first(), sep, at - 1);
    }
}

/// Splits `s` at every `sep`.
pub fn split(s: &str, sep: char) -> (r: Vec<String>)
    ensures
        r.deep_view() == split_text(s@, sep),
{
    let chars = chars_of(s);
    let n: usize = chars.len();
    let mut pieces: Vec<String> = Vec::new();
    let mut start: usize = 0;
    let mut i: usize = 0;
    assert(chars@.subrange(0, n as int) =~= chars@);
    while i < n
        invariant
            start <= i <= n == chars@.len(),
            forall|k: int| start <= k < i ==> #[trigger] chars@[k] != sep,
            split_text(chars@, sep) == pieces.deep_view() + split_text(
                chars@.subrange(start as int, n as int),
                sep,
            ),
        decreases n - i,
    {
        if chars[i] == sep {
            let piece = string_of(&chars, start, i);
            proof {
                let tail = chars@.subrange(start as int, n as int);
                lemma_first_index_of(tail, sep, i - start);
                assert(tail.subrange(0, i - start) =~= piece@);
                assert(tail.subrange(i - start + 1, tail.len() as int) =~= chars@.subrange(
                    i + 1,
                    n as int,
                ));
            }
            pieces.push(piece);
            start = i + 1;
        }
        i += 1;
    }
    let last = string_of(&chars, start, n);
    proof {
        lemma_first_index_of(chars@.subrange(start as int, n as int), sep, n - start);
    }
    pieces.push(last);
    pieces
}

/// Whether `pattern` occurs in `text` at the index `at`.
pub open spec fn occurs_at(text: Seq<char>, pattern: Seq<char>, at: int) -> bool {
    0 <= at && at + pattern.len() <= text.len() && text.subrange(at, at + pattern.len())
        == pattern
}

/// Whether `pattern` occurs somewhere in `text`.
pub open spec fn contains_text(text: Seq<char>, pattern: Seq<char>) -> bool {
    exists|at: int| occurs_at(text, pattern, at)
}

fn matches_at(text: &Vec<char>, pattern: &Vec<char>, at: usize) -> (r: bool)
    requires
        at + pattern@.len() <= text@.len(),
    ensures
        r == occurs_at(text@, pattern@, at as int),
{
    let n: usize = text.len();
    let m: usize = pattern.len();
    let mut j: usize = 0;
    while j < m
        invariant
            j <= m == pattern@.len(),
            n == text@.len(),
            at + m <= n,
            text@.subrange(at as int, at + j) == pattern@.subrange(0, j as int),
        decreases m - j,
    {
        if text[at + j] != pattern[j] {
            return false;
        }
        j += 1;
    }
    assert(pattern@.subrange(0, m as int) =~= pattern@);
    true
}

/// Tells whether `pattern` occurs in `text`.
pub fn contains(text: &str, pattern: &str) -> (r: bool)
    ensures
        r == contains_text(text@, pattern@),
{
    let hay = chars_of(text);
    let needle = chars_of(pattern);
    let n: usize = hay.len();
    let m: usize = needle.len();
    if m > n {
        return false;
    }
    let last: usize = n - m;
    let mut at: usize = 0;
    loop
        invariant
            hay@ == text@,
            needle@ == pattern@,
            m <= n == hay@.len(),
            m == needle@.len(),
            last == n - m,
            at <= last,
            forall|k: int| 0 <= k < at ==> !occurs_at(hay@, needle@, k),
        decreases last - at,
    {
        if matches_at(&hay, &needle, at) {
            return true;
        }
        if at == last {
            return false;
        }
        at += 1;
    }
}

} // verus!
