//! Decimal text for the integer fields that travel as strings.
//!
//! Integers wider than the transport's native numbers are sent as their
//! canonical decimal text. The parsers accept what `str::parse` accepts for the
//! target type: an optional sign followed by at least one ASCII digit.
use vstd::prelude::*;
use vstd::string::*;

verus! {

pub open spec fn is_digit(c: char) -> bool {
    '0' <= c && c <= '9'
}

pub open spec fn digit_value(c: char) -> nat {
    (c as int - '0' as int) as nat
}

pub open spec fn digit_char(d: nat) -> char {
    if d == 0 {
        '0'
    } else if d == 1 {
        '1'
    } else if d == 2 {
        '2'
    } else if d == 3 {
        '3'
    } else if d == 4 {
        '4'
    } else if d == 5 {
        '5'
    } else if d == 6 {
        '6'
    } else if d == 7 {
        '7'
    } else if d == 8 {
        '8'
    } else {
        '9'
    }
}

pub open spec fn all_digits(s: Seq<char>) -> bool {
    forall|i: int| 0 <= i < s.len() ==> is_digit(#[trigger] s[i])
}

/// The number that a string of digits spells, most significant digit first.
pub open spec fn digits_value(s: Seq<char>) -> nat
    decreases s.len(),
{
    if s.len() == 0 {
        0
    } else {
        digits_value(s.drop_last()) * 10 + digit_value(s.last())
    }
}

/// Canonical decimal text of a natural number: no sign, no leading zero.
pub open spec fn decimal_text(n: nat) -> Seq<char>
    decreases n,
{
    if n < 10 {
        seq![digit_char(n)]
    } else {
        decimal_text(n / 10).push(digit_char(n % 10))
    }
}

/// Canonical decimal text of an integer: a minus sign before negative values.
pub open spec fn signed_decimal_text(v: int) -> Seq<char> {
    if v < 0 {
        seq!['-'] + decimal_text((-v) as nat)
    } else {
        decimal_text(v as nat)
    }
}

/// Digits of `s` after an optional leading `+`, when there is at least one
/// and all are digits.
pub open spec fn unsigned_body(s: Seq<char>) -> Seq<char> {
    if s.len() > 0 && s[0] == '+' {
        s.drop_first()
    } else {
        s
    }
}

/// The value that unsigned integer parsing reads from `s`, before any bound.
pub open spec fn unsigned_text_value(s: Seq<char>) -> Option<nat> {
    let body = unsigned_body(s);
    if body.len() > 0 && all_digits(body) {
        Some(digits_value(body))
    } else {
        None
    }
}

/// The value that signed integer parsing reads from `s`, before any bound.
pub open spec fn signed_text_value(s: Seq<char>) -> Option<int> {
    if s.len() > 0 && s[0] == '-' {
        let body = s.drop_first();
        if body.len() > 0 && all_digits(body) {
            Some(-(digits_value(body) as int))
        } else {
            None
        }
    } else {
        match unsigned_text_value(s) {
            Some(v) => Some(v as int),
            None => None,
        }
    }
}

/// What parsing `s` as an unsigned integer no larger than `max` gives.
pub open spec fn parse_unsigned_spec(s: Seq<char>, max: nat) -> Option<nat> {
    match unsigned_text_value(s) {
        Some(v) => if v <= max {
            Some(v)
        } else {
            None
        },
        None => None,
    }
}

/// What parsing `s` as an integer within `[min, max]` gives.
pub open spec fn parse_signed_spec(s: Seq<char>, min: int, max: int) -> Option<int> {
    match signed_text_value(s) {
        Some(v) => if min <= v <= max {
            Some(v)
        } else {
            None
        },
        None => None,
    }
}

proof fn lemma_digit_char(d: nat)
    requires
        d < 10,
    ensures
        is_digit(digit_char(d)),
        digit_value(digit_char(d)) == d,
{
}

/// The canonical text of `n` is made of digits and spells `n`.
pub proof fn lemma_decimal_text(n: nat)
    ensures
        decimal_text(n).len() > 0,
        all_digits(decimal_text(n)),
        digits_value(decimal_text(n)) == n,
    decreases n,
{
    if n < 10 {
        lemma_digit_char(n);
        let s = decimal_text(n);
        assert(s.drop_last() =~= Seq::<char>::empty());
        assert(digits_value(s) == digits_value(s.drop_last()) * 10 + digit_value(s.last()));
    } else {
        lemma_decimal_text(n / 10);
        lemma_digit_char(n % 10);
        let s = decimal_text(n);
        assert(s.drop_last() =~= decimal_text(n / 10));
        assert(n == (n / 10) * 10 + n % 10);
        assert(digits_value(s) == digits_value(decimal_text(n / 10)) * 10 + digit_value(s.last()));
    }
}

/// Decimal text round trip for unsigned fields: the canonical text of any
/// value within a type's range parses back to that value.
pub proof fn lemma_unsigned_round_trip(n: nat, max: nat)
    requires
        n <= max,
    ensures
        parse_unsigned_spec(decimal_text(n), max) == Some(n),
{
    lemma_decimal_text(n);
    let s = decimal_text(n);
    assert(is_digit(s[0]));
    assert(unsigned_body(s) == s);
}

/// Decimal text round trip for signed fields: the canonical text of any value
/// within a type's range, a leading `-` included, parses back to that value.
pub proof fn lemma_signed_round_trip(v: int, min: int, max: int)
    requires
        min <= v <= max,
    ensures
        parse_signed_spec(signed_decimal_text(v), min, max) == Some(v),
{
    if v < 0 {
        lemma_decimal_text((-v) as nat);
        let s = signed_decimal_text(v);
        assert(s.drop_first() =~= decimal_text((-v) as nat));
    } else {
        lemma_decimal_text(v as nat);
        let s = decimal_text(v as nat);
        assert(is_digit(s[0]));
        assert(unsigned_body(s) == s);
    }
}

/// Ten to the power `n`.
pub open spec fn pow10(n: nat) -> nat
    decreases n,
{
    if n == 0 {
        1
    } else {
        10 * pow10((n - 1) as nat)
    }
}

proof fn lemma_pow10_monotone(n: nat, m: nat)
    requires
        n <= m,
    ensures
        pow10(n) <= pow10(m),
    decreases m - n,
{
    if n < m {
        lemma_pow10_monotone(n, (m - 1) as nat);
    }
}

/// Digits that do not start with `0` spell at least ten to the power of one
/// less than their count.
proof fn lemma_leading_digit_bound(s: Seq<char>)
    requires
        s.len() >= 1,
        all_digits(s),
        s[0] != '0',
    ensures
        digits_value(s) >= pow10((s.len() - 1) as nat),
    decreases s.len(),
{
    if s.len() > 1 {
        let t = s.drop_last();
        assert(t[0] == s[0]);
        assert(all_digits(t)) by {
            assert forall|i: int| 0 <= i < t.len() implies is_digit(#[trigger] t[i]) by {
                assert(t[i] == s[i]);
            }
        }
        lemma_leading_digit_bound(t);
    } else {
        assert(s.drop_last().len() == 0);
    }
}

/// Text of 21 or more digits with no `0` among them is too large for a `u64`,
/// so it never parses as one (nor as anything narrower).
pub proof fn lemma_long_zero_free_text_not_u64(s: Seq<char>, max: nat)
    requires
        s.len() >= 21,
        max <= u64::MAX,
        forall|i: int| 0 <= i < s.len() ==> #[trigger] s[i] != '0' && s[i] != '+',
    ensures
        parse_unsigned_spec(s, max) is None,
{
    assert(unsigned_body(s) == s);
    if all_digits(s) {
        lemma_leading_digit_bound(s);
        lemma_pow10_monotone(20, (s.len() - 1) as nat);
        reveal_with_fuel(pow10, 21);
        assert(pow10(20) == 100000000000000000000nat);
    }
}

/// Appending digits never makes the value smaller than that of the prefix.
proof fn lemma_digits_value_prefix(s: Seq<char>, k: int)
    requires
        0 <= k <= s.len(),
    ensures
        digits_value(s.subrange(0, k)) <= digits_value(s),
    decreases s.len() - k,
{
    if k < s.len() {
        lemma_digits_value_prefix(s, k + 1);
        assert(s.subrange(0, k + 1).drop_last() =~= s.subrange(0, k));
    } else {
        assert(s.subrange(0, k) =~= s);
    }
}

/// Reads the digits of `s` from `start` on as a number no larger than `max`.
fn parse_digits(s: &str, start: usize, max: u128) -> (r: Option<u128>)
    requires
        start <= s@.len(),
    ensures
        ({
            let body = s@.subrange(start as int, s@.len() as int);
            r == if body.len() > 0 && all_digits(body) && digits_value(body) <= max {
                Some(digits_value(body) as u128)
            } else {
                None::<u128>
            }
        }),
{
    let len = s.unicode_len();
    if start == len {
        return None;
    }
    let ghost body = s@.subrange(start as int, s@.len() as int);
    let mut acc: u128 = 0;
    let mut i: usize = start;
    while i < len
        invariant
            start <= i <= len,
            len == s@.len(),
            body == s@.subrange(start as int, s@.len() as int),
            all_digits(body.subrange(0, i - start)),
            acc as nat == digits_value(body.subrange(0, i - start)),
            acc <= max,
        decreases len - i,
    {
        let c = s.get_char(i);
        if !('0' <= c && c <= '9') {
            assert(!all_digits(body)) by {
                assert(body[i - start] == c);
            }
            return None;
        }
        let d = (c as u32 - '0' as u32) as u128;
        let ghost prefix = body.subrange(0, i - start + 1);
        proof {
            assert(prefix.drop_last() =~= body.subrange(0, i - start));
            assert(prefix.last() == c);
            assert(digit_value(c) == d);
        }
        let next = match acc.checked_mul(10) {
            Some(m) => m.checked_add(d),
            None => None,
        };
        match next {
            Some(v) if v <= max => {
                assert(all_digits(prefix)) by {
                    assert forall|j: int| 0 <= j < prefix.len() implies is_digit(
                        #[trigger] prefix[j],
                    ) by {
                        if j < i - start {
                            assert(prefix[j] == body.subrange(0, i - start)[j]);
                        }
                    }
                }
                acc = v;
            },
            _ => {
                proof {
                    lemma_digits_value_prefix(body, i - start + 1);
                    assert(body.subrange(0, i - start + 1) =~= prefix);
                }
                return None;
            },
        }
        i = i + 1;
    }
    assert(body.subrange(0, len - start) =~= body);
    Some(acc)
}

/// Parses unsigned decimal text with an optional `+`, up to `max`.
pub fn parse_unsigned(s: &str, max: u128) -> (r: Option<u128>)
    ensures
        r == match parse_unsigned_spec(s@, max as nat) {
            Some(v) => Some(v as u128),
            None => None::<u128>,
        },
{
    let len = s.unicode_len();
    if len > 0 && s.get_char(0) == '+' {
        let r = parse_digits(s, 1, max);
        assert(s@.subrange(1, s@.len() as int) =~= s@.drop_first());
        r
    } else {
        let r = parse_digits(s, 0, max);
        assert(s@.subrange(0, s@.len() as int) =~= s@);
        r
    }
}

/// Parses decimal text as a `u16`.
pub fn parse_u16(s: &str) -> (r: Option<u16>)
    ensures
        r == match parse_unsigned_spec(s@, u16::MAX as nat) {
            Some(v) => Some(v as u16),
            None => None::<u16>,
        },
{
    match parse_unsigned(s, u16::MAX as u128) {
        Some(v) => Some(v as u16),
        None => None,
    }
}

/// Parses decimal text as a `u32`.
pub fn parse_u32(s: &str) -> (r: Option<u32>)
    ensures
        r == match parse_unsigned_spec(s@, u32::MAX as nat) {
            Some(v) => Some(v as u32),
            None => None::<u32>,
        },
{
    match parse_unsigned(s, u32::MAX as u128) {
        Some(v) => Some(v as u32),
        None => None,
    }
}

/// Parses decimal text as a `u64`.
pub fn parse_u64(s: &str) -> (r: Option<u64>)
    ensures
        r == match parse_unsigned_spec(s@, u64::MAX as nat) {
            Some(v) => Some(v as u64),
            None => None::<u64>,
        },
{
    match parse_unsigned(s, u64::MAX as u128) {
        Some(v) => Some(v as u64),
        None => None,
    }
}

/// Parses decimal text as a `u128`.
pub fn parse_u128(s: &str) -> (r: Option<u128>)
    ensures
        r == match parse_unsigned_spec(s@, u128::MAX as nat) {
            Some(v) => Some(v as u128),
            None => None::<u128>,
        },
{
    parse_unsigned(s, u128::MAX)
}

/// Parses decimal text with an optional sign as an `i128`.
pub fn parse_i128(s: &str) -> (r: Option<i128>)
    ensures
        r == match parse_signed_spec(s@, i128::MIN as int, i128::MAX as int) {
            Some(v) => Some(v as i128),
            None => None::<i128>,
        },
{
    let len = s.unicode_len();
    if len > 0 && s.get_char(0) == '-' {
        // The magnitude of the smallest value is one more than the largest.
        let r = parse_digits(s, 1, 0x8000_0000_0000_0000_0000_0000_0000_0000u128);
        assert(s@.subrange(1, s@.len() as int) =~= s@.drop_first());
        match r {
            Some(m) => {
                if m == 0 {
                    Some(0)
                } else {
                    Some(-(((m - 1) as i128)) - 1)
                }
            },
            None => None,
        }
    } else {
        match parse_unsigned(s, i128::MAX as u128) {
            Some(v) => Some(v as i128),
            None => None,
        }
    }
}

/// The one-character text of a decimal digit.
fn digit_str(d: u128) -> (r: &'static str)
    requires
        d < 10,
    ensures
        r@ == seq![digit_char(d as nat)],
{
    proof {
        reveal_strlit("0");
        reveal_strlit("1");
        reveal_strlit("2");
        reveal_strlit("3");
        reveal_strlit("4");
        reveal_strlit("5");
        reveal_strlit("6");
        reveal_strlit("7");
        reveal_strlit("8");
        reveal_strlit("9");
    }
    if d == 0 {
        "0"
    } else if d == 1 {
        "1"
    } else if d == 2 {
        "2"
    } else if d == 3 {
        "3"
    } else if d == 4 {
        "4"
    } else if d == 5 {
        "5"
    } else if d == 6 {
        "6"
    } else if d == 7 {
        "7"
    } else if d == 8 {
        "8"
    } else {
        "9"
    }
}

/// Appends the canonical decimal text of `n` to `out`.
pub fn append_decimal(out: &mut String, n: u128)
    ensures
        final(out)@ == old(out)@ + decimal_text(n as nat),
    decreases n,
{
    if n >= 10 {
        append_decimal(out, n / 10);
    }
    out.append(digit_str(n % 10));
    proof {
        if n < 10 {
            assert(n % 10 == n);
        }
    }
}

/// The canonical decimal text of an unsigned integer.
pub fn unsigned_to_text(n: u128) -> (r: String)
    ensures
        r@ == decimal_text(n as nat),
{
    let mut out = String::new();
    append_decimal(&mut out, n);
    assert(out@ =~= decimal_text(n as nat));
    out
}

/// The canonical decimal text of a signed integer.
pub fn signed_to_text(v: i128) -> (r: String)
    ensures
        r@ == signed_decimal_text(v as int),
{
    if v < 0 {
        let mut out = String::from_str("-");
        proof {
            reveal_strlit("-");
        }
        let magnitude = (-(v + 1)) as u128 + 1;
        append_decimal(&mut out, magnitude);
        assert(out@ =~= seq!['-'] + decimal_text((-v) as nat));
        out
    } else {
        unsigned_to_text(v as u128)
    }
}

} // verus!
