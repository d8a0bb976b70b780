//! Text-level helpers shared by the extraction engines: trimming surrounding
//! whitespace, and parsing the unsigned and signed decimal integers that
//! appear as scores, viewer counts and timestamps.
//!
//! Parsing follows the grammar of Rust's integer `FromStr`: an optional sign
//! (`+` for unsigned values, `+` or `-` for signed ones) followed by one or
//! more decimal digits, rejecting anything else and any value out of range.

use vstd::prelude::*;

verus! {

/// Whether the character counts as whitespace for trimming, that is, whether
/// it has the Unicode `White_Space` property.  The property is a function of
/// the character alone.
pub uninterp spec fn is_ws_char(c: char) -> bool;

/// Relies on char::is_whitespace: tests the Unicode `White_Space` property of
/// the character.
#[verifier::external_body]
fn char_is_whitespace(c: char) -> (r: bool)
    ensures
        r == is_ws_char(c),
{
    c.is_whitespace()
}

/// The result of trimming: `r` is the subrange of `s` that remains after
/// removing every leading and trailing whitespace character.  The bounds pin
/// `r` uniquely: everything cut was whitespace, and a non-empty remainder
/// neither starts nor ends with whitespace.
pub open spec fn trim_bounds(s: Seq<char>, r: Seq<char>, lo: int, hi: int) -> bool {
    &&& 0 <= lo <= hi <= s.len()
    &&& r == s.subrange(lo, hi)
    &&& (forall|j: int| 0 <= j < lo ==> is_ws_char(s[j]))
    &&& (forall|j: int| hi <= j < s.len() ==> is_ws_char(s[j]))
    &&& (lo < hi ==> !is_ws_char(s[lo]) && !is_ws_char(s[hi - 1]))
}

/// `r` is `s` with leading and trailing whitespace removed.
pub open spec fn is_trimmed_of(s: Seq<char>, r: Seq<char>) -> bool {
    exists|lo: int, hi: int| trim_bounds(s, r, lo, hi)
}

/// Returns the input with leading and trailing whitespace removed, as a fresh
/// `String`.
pub fn trimmed(s: &str) -> (r: String)
    ensures
        is_trimmed_of(s@, r@),
{
    let n = s.unicode_len();
    let mut lo: usize = 0;
    while lo < n && char_is_whitespace(s.get_char(lo))
        invariant
            0 <= lo <= n,
            n == s@.len(),
            forall|j: int| 0 <= j < lo ==> is_ws_char(s@[j]),
        decreases n - lo,
    {
        lo = lo + 1;
    }
    let mut hi: usize = n;
    while hi > lo && char_is_whitespace(s.get_char(hi - 1))
        invariant
            lo <= hi <= n,
            n == s@.len(),
            forall|j: int| hi <= j < n ==> is_ws_char(s@[j]),
        decreases hi,
    {
        hi = hi - 1;
    }
    if lo >= hi {
        let r = String::new();
        proof {
            assert(r@ =~= s@.subrange(lo as int, lo as int));
            assert(trim_bounds(s@, r@, lo as int, lo as int));
        }
        r
    } else {
        let r = s.substring_char(lo, hi).to_owned();
        proof {
            assert(trim_bounds(s@, r@, lo as int, hi as int));
        }
        r
    }
}

/// Whether the character is a decimal digit.
pub open spec fn is_digit_char(c: char) -> bool {
    '0' as int <= c as int <= '9' as int
}

/// The numeric value of a decimal digit character.
pub open spec fn digit_val(c: char) -> int {
    c as int - '0' as int
}

/// Whether every character of the sequence is a decimal digit.
pub open spec fn all_digits(s: Seq<char>) -> bool {
    forall|i: int| 0 <= i < s.len() ==> is_digit_char(s[i])
}

/// The value of a sequence of decimal digit characters, most significant
/// first.
pub open spec fn digits_value(s: Seq<char>) -> int
    decreases s.len(),
{
    if s.len() == 0 {
        0
    } else {
        digits_value(s.drop_last()) * 10 + digit_val(s.last())
    }
}

proof fn lemma_digits_value_nonneg(s: Seq<char>)
    requires
        all_digits(s),
    ensures
        digits_value(s) >= 0,
    decreases s.len(),
{
    if s.len() > 0 {
        assert(all_digits(s.drop_last()));
        lemma_digits_value_nonneg(s.drop_last());
    }
}

proof fn lemma_digits_value_prefix_le(s: Seq<char>, i: int)
    requires
        all_digits(s),
        0 <= i <= s.len(),
    ensures
        digits_value(s.take(i)) <= digits_value(s),
    decreases s.len(),
{
    if i == s.len() {
        assert(s.take(i) =~= s);
    } else {
        let head = s.drop_last();
        assert(all_digits(head));
        assert(s.take(i) =~= head.take(i));
        lemma_digits_value_prefix_le(head, i);
        lemma_digits_value_nonneg(head);
    }
}

/// The digit run of `s` from `start` to the end: its value, when the run is
/// non-empty, all digits, and the value is at most `max`; `None` otherwise.
fn parse_digits(s: &str, start: usize, max: u64) -> (r: Option<u64>)
    requires
        start as int <= s@.len(),
    ensures
        ({
            let body = s@.subrange(start as int, s@.len() as int);
            match r {
                Some(v) => body.len() > 0 && all_digits(body) && v == digits_value(body)
                    && digits_value(body) <= max,
                None => body.len() == 0 || !all_digits(body) || digits_value(body) > max,
            }
        }),
{
    let ghost body = s@.subrange(start as int, s@.len() as int);
    let n = s.unicode_len();
    if start >= n {
        return None;
    }
    let mut acc: u128 = 0;
    let mut i = start;
    while i < n
        invariant
            start <= i <= n,
            n == s@.len(),
            body == s@.subrange(start as int, s@.len() as int),
            all_digits(s@.subrange(start as int, i as int)),
            acc == digits_value(s@.subrange(start as int, i as int)),
            acc <= max,
        decreases n - i,
    {
        let c = s.get_char(i);
        let u = c as u32;
        if u < 48 || u > 57 {
            proof {
                assert(body[i - start] == s@[i as int]);
                assert(!is_digit_char(body[i - start]));
                assert(!all_digits(body));
            }
            return None;
        }
        let d = (u - 48) as u128;
        let next = acc * 10 + d;
        proof {
            let prefix = s@.subrange(start as int, i as int + 1);
            assert(prefix.drop_last() =~= s@.subrange(start as int, i as int));
            assert(prefix.last() == s@[i as int]);
            assert(digits_value(prefix) == acc * 10 + d);
            assert(all_digits(prefix));
            if next > max {
                assert(body.take(i + 1 - start) =~= prefix);
                if all_digits(body) {
                    lemma_digits_value_prefix_le(body, i + 1 - start);
                    assert(digits_value(body) > max);
                }
            }
        }
        if next > max as u128 {
            return None;
        }
        acc = next;
        i = i + 1;
    }
    proof {
        assert(s@.subrange(start as int, i as int) =~= body);
    }
    Some(acc as u64)
}

/// The sequence without one leading `+` sign, if it has one.
pub open spec fn unsigned_body(s: Seq<char>) -> Seq<char> {
    if s.len() > 0 && s[0] == '+' {
        s.drop_first()
    } else {
        s
    }
}

/// The value of `s` read as an unsigned decimal integer of at most `max`:
/// an optional `+` sign followed by one or more digits.
pub open spec fn parse_uint_spec(s: Seq<char>, max: int) -> Option<int> {
    let b = unsigned_body(s);
    if b.len() > 0 && all_digits(b) && digits_value(b) <= max {
        Some(digits_value(b))
    } else {
        None
    }
}

/// The value of `s` read as a `u8`, under the grammar of `u8::from_str`.
pub open spec fn parse_u8_spec(s: Seq<char>) -> Option<u8> {
    match parse_uint_spec(s, 255) {
        Some(v) => Some(v as u8),
        None => None,
    }
}

/// The value of `s` read as a `u32`, under the grammar of `u32::from_str`.
pub open spec fn parse_u32_spec(s: Seq<char>) -> Option<u32> {
    match parse_uint_spec(s, 0xffff_ffff) {
        Some(v) => Some(v as u32),
        None => None,
    }
}

/// The value of `s` read as an `i64`, under the grammar of `i64::from_str`.
pub open spec fn parse_i64_spec(s: Seq<char>) -> Option<i64> {
    if s.len() > 0 && s[0] == '-' {
        let b = s.drop_first();
        if b.len() > 0 && all_digits(b) && digits_value(b) <= 0x8000_0000_0000_0000 {
            Some((0 - digits_value(b)) as i64)
        } else {
            None
        }
    } else {
        match parse_uint_spec(s, 0x7fff_ffff_ffff_ffff) {
            Some(v) => Some(v as i64),
            None => None,
        }
    }
}

/// Where the digit run of an unsigned number starts: after one leading `+`
/// sign, if present.
fn unsigned_start(s: &str, n: usize) -> (r: usize)
    requires
        n == s@.len(),
    ensures
        r as int <= s@.len(),
        s@.subrange(r as int, s@.len() as int) == unsigned_body(s@),
{
    if n > 0 && s.get_char(0) == '+' {
        proof {
            assert(s@.subrange(1, s@.len() as int) =~= s@.drop_first());
        }
        1
    } else {
        proof {
            assert(s@.subrange(0, s@.len() as int) =~= s@);
        }
        0
    }
}

/// Parses a `u8` from decimal text, `None` on any malformed or out-of-range
/// input.
pub fn parse_u8(s: &str) -> (r: Option<u8>)
    ensures
        r == parse_u8_spec(s@),
{
    let n = s.unicode_len();
    let start = unsigned_start(s, n);
    match parse_digits(s, start, 255) {
        Some(v) => Some(v as u8),
        None => None,
    }
}

/// Parses a `u32` from decimal text, `None` on any malformed or out-of-range
/// input.
pub fn parse_u32(s: &str) -> (r: Option<u32>)
    ensures
        r == parse_u32_spec(s@),
{
    let n = s.unicode_len();
    let start = unsigned_start(s, n);
    match parse_digits(s, start, 4294967295) {
        Some(v) => Some(v as u32),
        None => None,
    }
}

/// Parses an `i64` from decimal text, `None` on any malformed or
/// out-of-range input.
pub fn parse_i64(s: &str) -> (r: Option<i64>)
    ensures
        r == parse_i64_spec(s@),
{
    let n = s.unicode_len();
    if n > 0 && s.get_char(0) == '-' {
        proof {
            assert(s@.subrange(1, s@.len() as int) =~= s@.drop_first());
        }
        match parse_digits(s, 1, 9223372036854775808) {
            Some(v) => if v >= 9223372036854775808 {
                Some(i64::MIN)
            } else {
                Some(-(v as i64))
            },
            None => None,
        }
    } else {
        let start = unsigned_start(s, n);
        match parse_digits(s, start, 9223372036854775807) {
            Some(v) => Some(v as i64),
            None => None,
        }
    }
}

} // verus!
