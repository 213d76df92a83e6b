//! Text helpers: decimal numbers, substring search, padding and truncation.
use vstd::prelude::*;
use vstd::utf8::*;
use vstd::string::{StringExecFns, StringSliceAdditionalSpecFns};
use std::string::String;

verus! {

broadcast use {vstd::string::group_string_axioms, vstd::slice::group_slice_axioms};

/// `String::push` appends one character (std documents exactly this).
pub assume_specification[ String::push ](s: &mut String, ch: char)
    ensures
        final(s)@ == old(s)@.push(ch),
;

// ---------------------------------------------------------------------
// Specifications
// ---------------------------------------------------------------------

/// Is `c` one of the ASCII digits `0`..`9`?
pub open spec fn is_digit(c: char) -> bool {
    '0' <= c && c <= '9'
}

/// The value of an ASCII digit.
pub open spec fn digit_value(c: char) -> int {
    c as int - '0' as int
}

/// The ASCII digit for a value in `0..10`.
pub open spec fn digit_char(d: int) -> char {
    (d + '0' as int) as char
}

pub open spec fn all_digits(s: Seq<char>) -> bool {
    forall|i: int| 0 <= i < s.len() ==> is_digit(#[trigger] s[i])
}

/// The value of a string of decimal digits, most significant first.
pub open spec fn digits_value(s: Seq<char>) -> int
    decreases s.len(),
{
    if s.len() == 0 {
        0
    } else {
        digits_value(s.drop_last()) * 10 + digit_value(s.last())
    }
}

/// What `u64::from_str` reads: an optional `+`, then one or more decimal
/// digits whose value fits in a `u64`.
pub open spec fn spec_parse_u64(s: Seq<char>) -> Option<u64> {
    let body = if s.len() > 0 && s[0] == '+' {
        s.drop_first()
    } else {
        s
    };
    if body.len() > 0 && all_digits(body) && digits_value(body) <= u64::MAX {
        Some(digits_value(body) as u64)
    } else {
        None
    }
}

/// The decimal digits of `n`, with no leading zero.
pub open spec fn decimal(n: nat) -> Seq<char>
    decreases n,
{
    if n < 10 {
        seq![digit_char(n as int)]
    } else {
        decimal(n / 10).push(digit_char((n % 10) as int))
    }
}

/// How `Display` writes a signed integer.
pub open spec fn signed_decimal(n: int) -> Seq<char> {
    if n < 0 {
        seq!['-'] + decimal((-n) as nat)
    } else {
        decimal(n as nat)
    }
}

/// `count` spaces.
pub open spec fn spaces(count: nat) -> Seq<char> {
    Seq::new(count, |i: int| ' ')
}

/// `s` followed by as many spaces as it takes to fill `width` characters,
/// as the format specifier `{:<width}` writes it.
pub open spec fn pad_right_spec(s: Seq<char>, width: nat) -> Seq<char> {
    if s.len() < width {
        s + spaces((width - s.len()) as nat)
    } else {
        s
    }
}

/// Does `needle` occur in `haystack`?
pub open spec fn occurs_in(haystack: Seq<char>, needle: Seq<char>) -> bool {
    exists|i: int|
        0 <= i && i + needle.len() <= haystack.len() && #[trigger] haystack.subrange(
            i,
            i + needle.len(),
        ) == needle
}

/// `max_len - 3`, or 0 where that is negative.
pub open spec fn cut_point(max_len: nat) -> nat {
    if max_len >= 3 {
        (max_len - 3) as nat
    } else {
        0
    }
}

/// Can the text `s` be shortened to `max_len` bytes of UTF-8 without
/// cutting a character?
pub open spec fn truncatable(s: Seq<char>, max_len: nat) -> bool {
    encode_utf8(s).len() > max_len ==> is_char_boundary(encode_utf8(s), cut_point(max_len) as int)
}

/// A text longer than `max_len` bytes of UTF-8 is cut after `max_len - 3`
/// bytes and `...` is appended; a shorter one is kept.
pub open spec fn truncated(s: Seq<char>, max_len: nat) -> Seq<char> {
    if encode_utf8(s).len() > max_len {
        decode_utf8(encode_utf8(s).subrange(0, cut_point(max_len) as int)) + seq!['.', '.', '.']
    } else {
        s
    }
}

// ---------------------------------------------------------------------
// Lemmas
// ---------------------------------------------------------------------

proof fn lemma_digits_value_nonneg(s: Seq<char>)
    requires
        all_digits(s),
    ensures
        digits_value(s) >= 0,
    decreases s.len(),
{
    if s.len() > 0 {
        lemma_digits_value_nonneg(s.drop_last());
        assert(is_digit(s[s.len() - 1]));
    }
}

/// A string of digits is worth at least any of its prefixes.
proof fn lemma_digits_value_prefix(s: Seq<char>, k: int)
    requires
        all_digits(s),
        0 <= k <= s.len(),
    ensures
        digits_value(s.take(k)) <= digits_value(s),
    decreases s.len(),
{
    if k < s.len() {
        assert(s.drop_last().take(k) =~= s.take(k));
        lemma_digits_value_prefix(s.drop_last(), k);
        lemma_digits_value_nonneg(s.drop_last());
        assert(is_digit(s[s.len() - 1]));
    } else {
        assert(s.take(k) =~= s);
    }
}

/// The encoding of two texts one after the other is the two encodings one
/// after the other.
proof fn lemma_encode_concat(a: Seq<char>, b: Seq<char>)
    ensures
        encode_utf8(a + b) == encode_utf8(a) + encode_utf8(b),
    decreases a.len(),
{
    if a.len() > 0 {
        assert((a + b).drop_first() =~= a.drop_first() + b);
        lemma_encode_concat(a.drop_first(), b);
        assert(encode_utf8(a + b) =~= encode_utf8(a) + encode_utf8(b));
    } else {
        assert(a + b =~= b);
    }
}

/// A shortened cell fits its column: truncating to `max_len` bytes (at
/// least the three of the `...` mark) gives at most `max_len` bytes, and a
/// text that fits already is left as it is.
pub proof fn lemma_truncated_fits(s: Seq<char>, max_len: nat)
    requires
        truncatable(s, max_len),
        max_len >= 3,
    ensures
        encode_utf8(truncated(s, max_len)).len() <= max_len,
        encode_utf8(s).len() <= max_len ==> truncated(s, max_len) == s,
{
    let bytes = encode_utf8(s);
    if bytes.len() > max_len {
        let cut = cut_point(max_len) as int;
        let prefix = bytes.subrange(0, cut);
        encode_utf8_valid_utf8(s);
        valid_utf8_split(bytes, cut);
        decode_utf8_encode_utf8(prefix);
        let mark = seq!['.', '.', '.'];
        lemma_encode_concat(decode_utf8(prefix), mark);
        assert(is_ascii_chars(mark));
        is_ascii_chars_encode_utf8(mark);
    }
}

proof fn lemma_decimal_digits(n: nat)
    ensures
        decimal(n).len() > 0,
        all_digits(decimal(n)),
        digits_value(decimal(n)) == n,
    decreases n,
{
    let d = digit_char((n % 10) as int);
    assert(digit_value(d) == n % 10);
    if n >= 10 {
        lemma_decimal_digits(n / 10);
        let s = decimal(n / 10);
        assert(decimal(n).drop_last() =~= s);
        assert(decimal(n).last() == d);
        assert forall|i: int| 0 <= i < decimal(n).len() implies is_digit(#[trigger] decimal(n)[i]) by {
            if i < s.len() {
                assert(decimal(n)[i] == s[i]);
            }
        }
        assert(digits_value(decimal(n)) == digits_value(s) * 10 + digit_value(d));
        assert((n / 10) * 10 + n % 10 == n) by (nonlinear_arith);
    } else {
        assert(decimal(n).drop_last() =~= Seq::<char>::empty());
        assert(digits_value(decimal(n)) == digits_value(Seq::<char>::empty()) * 10 + digit_value(d));
    }
}

/// Every `u64`, written in decimal, reads back as itself: a setting given
/// as a number's digits is that number, however large.
pub proof fn lemma_decimal_reads_back(n: u64)
    ensures
        spec_parse_u64(decimal(n as nat)) == Some(n),
{
    lemma_decimal_digits(n as nat);
    let s = decimal(n as nat);
    assert(is_digit(s[0]));
    assert(s[0] != '+');
}

// ---------------------------------------------------------------------
// Executable functions
// ---------------------------------------------------------------------

/// The characters of `s`, in order.
pub fn char_vec(s: &str) -> (v: Vec<char>)
    ensures
        v@ == s@,
{
    let mut v: Vec<char> = Vec::new();
    for c in it: s.chars()
        invariant
            v@ == it.seq().take(it.index() as int),
            it.seq() == s@,
    {
        v.push(c);
    }
    v
}

/// Appends all of `src` to `dst`.
pub fn push_all(dst: &mut String, src: &str)
    ensures
        final(dst)@ == old(dst)@ + src@,
{
    dst.append(src);
}

/// Reads a `u64` as `u64::from_str` does: an optional `+` and decimal
/// digits; `None` for anything else and for values past `u64::MAX`.
pub fn parse_u64(s: &str) -> (r: Option<u64>)
    ensures
        r == spec_parse_u64(s@),
{
    let chars = char_vec(s);
    let ghost cs = chars@;
    let mut start: usize = 0;
    if chars.len() > 0 && chars[0] == '+' {
        start = 1;
    }
    let ghost body = cs.subrange(start as int, cs.len() as int);
    assert(body =~= (if cs.len() > 0 && cs[0] == '+' {
        cs.drop_first()
    } else {
        cs
    }));
    if start == chars.len() {
        return None;
    }
    let mut acc: u64 = 0;
    let mut i: usize = start;
    while i < chars.len()
        invariant
            start <= i <= chars.len(),
            chars@ == cs,
            body == cs.subrange(start as int, cs.len() as int),
            cs == s@,
            body == (if cs.len() > 0 && cs[0] == '+' {
                cs.drop_first()
            } else {
                cs
            }),
            all_digits(cs.subrange(start as int, i as int)),
            acc as int == digits_value(cs.subrange(start as int, i as int)),
        decreases chars.len() - i,
    {
        let c = chars[i];
        let ghost prefix = cs.subrange(start as int, i + 1);
        assert(prefix.drop_last() =~= cs.subrange(start as int, i as int));
        assert(body.take(i + 1 - start) =~= prefix);
        if !('0' <= c && c <= '9') {
            assert(!is_digit(body[i - start]));
            return None;
        }
        let d: u64 = (c as u32 - '0' as u32) as u64;
        assert(all_digits(prefix));
        if acc > (u64::MAX - d) / 10 {
            assert(acc * 10 + d > u64::MAX) by (nonlinear_arith)
                requires
                    acc > (u64::MAX - d) / 10,
                    d <= 9,
            ;
            proof {
                if all_digits(body) {
                    lemma_digits_value_prefix(body, i + 1 - start);
                }
            }
            return None;
        }
        assert(acc * 10 + d <= u64::MAX) by (nonlinear_arith)
            requires
                acc <= (u64::MAX - d) / 10,
                d <= 9,
        ;
        acc = acc * 10 + d;
        i += 1;
    }
    assert(cs.subrange(start as int, i as int) =~= body);
    Some(acc)
}

/// Appends the decimal digits of `n`.
fn push_decimal(out: &mut String, n: u64)
    ensures
        final(out)@ == old(out)@ + decimal(n as nat),
    decreases n,
{
    if n >= 10 {
        push_decimal(out, n / 10);
    }
    let d: u8 = (n % 10) as u8;
    let c: char = (d + 48) as char;
    assert(c == digit_char((n % 10) as int));
    out.push(c);
    assert(old(out)@ + decimal(n as nat) =~= (if n >= 10 {
        old(out)@ + decimal((n / 10) as nat)
    } else {
        old(out)@
    }).push(c));
}

/// `n` in decimal, as `Display` writes an `i64`.
pub fn signed_decimal_string(n: i64) -> (s: String)
    ensures
        s@ == signed_decimal(n as int),
{
    let mut s = String::new();
    if n < 0 {
        s.push('-');
        let magnitude: u64 = (-(n as i128)) as u64;
        push_decimal(&mut s, magnitude);
    } else {
        push_decimal(&mut s, n as u64);
    }
    s
}

/// Does `needle` occur in `haystack`?
pub fn contains_text(haystack: &str, needle: &str) -> (found: bool)
    ensures
        found == occurs_in(haystack@, needle@),
{
    let h = char_vec(haystack);
    let n = char_vec(needle);
    if n.len() == 0 {
        assert(h@.subrange(0int, 0int + n@.len()) =~= n@);
        return true;
    }
    if n.len() > h.len() {
        assert forall|i: int|
            0 <= i && i + n@.len() <= h@.len() implies #[trigger] h@.subrange(i, i + n@.len())
                != n@ by {}
        return false;
    }
    let last = h.len() - n.len();
    let mut i: usize = 0;
    while i <= last
        invariant
            h@ == haystack@,
            n@ == needle@,
            last == h.len() - n.len(),
            0 < n.len() <= h.len(),
            i <= last + 1,
            forall|k: int| 0 <= k < i ==> #[trigger] h@.subrange(k, k + n@.len()) != n@,
        decreases last + 1 - i,
    {
        let mut j: usize = 0;
        let mut same = true;
        while j < n.len()
            invariant
                h@ == haystack@,
                n@ == needle@,
                i <= last,
                last == h.len() - n.len(),
                j <= n.len(),
                same <==> (forall|k: int| 0 <= k < j ==> h@[i + k] == n@[k]),
            decreases n.len() - j,
        {
            if h[i + j] != n[j] {
                same = false;
            }
            j += 1;
        }
        if same {
            assert(h@.subrange(i as int, i + n@.len()) =~= n@);
            return true;
        }
        let ghost k = choose|k: int| 0 <= k < n.len() && h@[i + k] != n@[k];
        assert(h@.subrange(i as int, i + n@.len())[k] != n@[k]);
        i += 1;
    }
    false
}

/// `s` padded with spaces on the right to `width` characters.
pub fn pad_right(s: &str, width: usize) -> (r: String)
    ensures
        r@ == pad_right_spec(s@, width as nat),
{
    let mut r = String::new();
    push_all(&mut r, s);
    let len = char_vec(s).len();
    let mut k: usize = len;
    while k < width
        invariant
            len == s@.len(),
            len >= width ==> k == len,
            len < width ==> k <= width,
            k >= len,
            r@ == s@ + spaces((k - len) as nat),
        decreases width - k,
    {
        r.push(' ');
        assert(spaces((k + 1 - len) as nat) =~= spaces((k - len) as nat).push(' '));
        k += 1;
    }
    if len >= width {
        assert(s@ + spaces(0) =~= s@);
    }
    r
}

/// Can `s` be shortened to `max_len` bytes without cutting a character?
pub fn can_truncate(s: &str, max_len: usize) -> (ok: bool)
    ensures
        ok == truncatable(s@, max_len as nat),
{
    if s.as_bytes().len() > max_len {
        let cut: usize = if max_len >= 3 {
            max_len - 3
        } else {
            0
        };
        s.is_char_boundary(cut)
    } else {
        true
    }
}

/// Shortens `s` to at most `max_len` bytes for a table cell, marking the
/// cut with `...`.
pub fn truncate(s: &str, max_len: usize) -> (r: String)
    requires
        truncatable(s@, max_len as nat),
    ensures
        r@ == truncated(s@, max_len as nat),
{
    if s.as_bytes().len() > max_len {
        let cut: usize = if max_len >= 3 {
            max_len - 3
        } else {
            0
        };
        let (head, _tail) = s.split_at(cut);
        proof {
            encode_utf8_decode_utf8(head@);
        }
        let mut r = String::new();
        push_all(&mut r, head);
        r.push('.');
        r.push('.');
        r.push('.');
        assert(r@ =~= head@ + seq!['.', '.', '.']);
        r
    } else {
        s.to_owned()
    }
}

} // verus!
