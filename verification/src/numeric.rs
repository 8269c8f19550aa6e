//! Numeric wire-field handling: the upstream API encodes every metric as a
//! decimal string. This module gives the string-to-integer conversion an
//! exact specification and a verified implementation, and models
//! fixed-point decimal values as a mantissa/scale pair backed by the
//! `rust_decimal` crate behind trusted wrappers.

use vstd::prelude::*;

verus! {

/// A decimal digit, `'0'` through `'9'`.
pub open spec fn is_digit(c: char) -> bool {
    48 <= c as u32 <= 57
}

/// The numeric value of one digit character.
pub open spec fn digit_val(c: char) -> int {
    c as u32 - 48
}

/// Every character of `s` is a decimal digit.
pub open spec fn all_digits(s: Seq<char>) -> bool {
    forall|i: int| 0 <= i < s.len() ==> is_digit(#[trigger] s[i])
}

/// The integer denoted by a sequence of decimal digits, most significant
/// first; the empty sequence denotes zero.
pub open spec fn digits_val(s: Seq<char>) -> int
    decreases s.len(),
{
    if s.len() == 0 {
        0
    } else {
        digits_val(s.drop_last()) * 10 + digit_val(s.last())
    }
}

/// The digit portion of an integer string: what follows the optional sign.
pub open spec fn spec_i64_digits(s: Seq<char>) -> Seq<char> {
    if s.len() > 0 && (s[0] == '-' || s[0] == '+') {
        s.subrange(1, s.len() as int)
    } else {
        s
    }
}

/// What a signed 64-bit integer string denotes: an optional `+` or `-` sign,
/// then one or more decimal digits, the whole value within `i64` range.
/// Anything else (empty, stray characters, overflow) denotes nothing.
pub open spec fn spec_parse_i64(s: Seq<char>) -> Option<i64> {
    let negative = s.len() > 0 && s[0] == '-';
    let digits = spec_i64_digits(s);
    if digits.len() == 0 || !all_digits(digits) {
        None
    } else {
        let magnitude = digits_val(digits);
        let value = if negative {
            -magnitude
        } else {
            magnitude
        };
        if i64::MIN <= value <= i64::MAX {
            Some(value as i64)
        } else {
            None
        }
    }
}

/// A digit string denotes a nonnegative value.
proof fn lemma_digits_val_nonneg(s: Seq<char>)
    requires
        all_digits(s),
    ensures
        digits_val(s) >= 0,
    decreases s.len(),
{
    if s.len() > 0 {
        assert(all_digits(s.drop_last()));
        lemma_digits_val_nonneg(s.drop_last());
    }
}

/// Appending one digit multiplies the value by ten and adds the digit.
proof fn lemma_digits_val_push(s: Seq<char>, c: char)
    ensures
        digits_val(s.push(c)) == digits_val(s) * 10 + digit_val(c),
{
    assert(s.push(c).drop_last() =~= s);
}

/// A digit string denotes at least what any of its prefixes denotes.
proof fn lemma_digits_val_prefix_le(s: Seq<char>, i: int)
    requires
        all_digits(s),
        0 <= i <= s.len(),
    ensures
        digits_val(s.subrange(0, i)) <= digits_val(s),
    decreases s.len() - i,
{
    if i < s.len() {
        lemma_digits_val_prefix_le(s, i + 1);
        let shorter = s.subrange(0, i);
        let longer = s.subrange(0, i + 1);
        assert(shorter =~= longer.drop_last());
        assert(all_digits(shorter));
        lemma_digits_val_nonneg(shorter);
        assert(longer.last() == s[i] && is_digit(s[i]));
        assert(digits_val(longer) == digits_val(shorter) * 10 + digit_val(longer.last()));
        assert(digits_val(shorter) <= digits_val(longer));
    } else {
        assert(s.subrange(0, i) =~= s);
    }
}

/// The integer denoted by a string of decimal digits, read left to right;
/// `None` when the magnitude leaves `u64` range.
fn digits_to_u64(s: &str, start: usize, end: usize) -> (r: Option<u64>)
    requires
        start <= end <= s@.len(),
        all_digits(s@.subrange(start as int, end as int)),
    ensures
        match r {
            Some(v) => v == digits_val(s@.subrange(start as int, end as int)),
            None => digits_val(s@.subrange(start as int, end as int)) > u64::MAX,
        },
{
    let ghost whole = s@.subrange(start as int, end as int);
    let mut acc: u64 = 0;
    let mut i: usize = start;
    while i < end
        invariant
            start <= i <= end <= s@.len(),
            all_digits(whole),
            whole == s@.subrange(start as int, end as int),
            acc == digits_val(s@.subrange(start as int, i as int)),
        decreases end - i,
    {
        let c = s.get_char(i);
        let ghost prefix = s@.subrange(start as int, i as int);
        let ghost extended = s@.subrange(start as int, i + 1int);
        proof {
            assert(whole[i - start] == s@[i as int]);
            assert(extended =~= prefix.push(c));
            lemma_digits_val_push(prefix, c);
        }
        let d = (c as u32 - 48) as u64;
        let acc10 = match acc.checked_mul(10) {
            Some(v) => v,
            None => {
                proof {
                    lemma_digits_val_prefix_le(whole, i + 1 - start);
                    assert(prefix.push(c) =~= whole.subrange(0, i + 1 - start));
                }
                return None;
            },
        };
        acc = match acc10.checked_add(d) {
            Some(v) => v,
            None => {
                proof {
                    lemma_digits_val_prefix_le(whole, i + 1 - start);
                    assert(prefix.push(c) =~= whole.subrange(0, i + 1 - start));
                }
                return None;
            },
        };
        i = i + 1;
    }
    proof {
        assert(s@.subrange(start as int, i as int) =~= whole);
    }
    Some(acc)
}

/// Parses a signed 64-bit integer from its decimal string form, exactly the
/// strings `spec_parse_i64` accepts: an optional sign, then only digits,
/// within range. Used to read cursors and integer metrics off the wire.
pub fn parse_i64(s: &str) -> (r: Option<i64>)
    ensures
        r == spec_parse_i64(s@),
{
    let n = s.unicode_len();
    if n == 0 {
        return None;
    }
    let first = s.get_char(0);
    let negative = first == '-';
    let signed = negative || first == '+';
    let start: usize = if signed {
        1
    } else {
        0
    };
    let ghost digits = if signed {
        s@.subrange(1, s@.len() as int)
    } else {
        s@
    };
    proof {
        assert(digits =~= s@.subrange(start as int, n as int));
        assert(digits == spec_i64_digits(s@));
    }
    if start == n {
        return None;
    }
    // Reject any non-digit character before accumulating.
    let mut i: usize = start;
    while i < n
        invariant
            start <= i <= n == s@.len(),
            digits == s@.subrange(start as int, n as int),
            digits == spec_i64_digits(s@),
            forall|j: int| start <= j < i ==> is_digit(#[trigger] s@[j]),
        decreases n - i,
    {
        let c = s.get_char(i);
        let u = c as u32;
        if u < 48 || u > 57 {
            proof {
                assert(!is_digit(digits[i - start]));
            }
            return None;
        }
        i = i + 1;
    }
    proof {
        assert(all_digits(digits)) by {
            assert(forall|j: int|
                0 <= j < digits.len() ==> digits[j] == #[trigger] s@[j + start]);
        }
    }
    let magnitude = match digits_to_u64(s, start, n) {
        Some(v) => v,
        None => {
            // The magnitude exceeds u64::MAX, so it is out of i64 range
            // whatever the sign.
            return None;
        },
    };
    if negative {
        if magnitude > 9223372036854775808u64 {
            return None;
        }
        if magnitude == 9223372036854775808u64 {
            return Some(i64::MIN);
        }
        Some(-(magnitude as i64))
    } else {
        if magnitude > i64::MAX as u64 {
            return None;
        }
        Some(magnitude as i64)
    }
}

/// The parsed integer, or the zero default when the field is malformed: the
/// per-field tolerance policy of the normalizer.
pub open spec fn spec_i64_or_zero(s: Seq<char>) -> i64 {
    match spec_parse_i64(s) {
        Some(v) => v,
        None => 0,
    }
}

/// Parses an integer wire field, substituting `0` when it is malformed.
pub fn parse_i64_or_zero(s: &str) -> (r: i64)
    ensures
        r == spec_i64_or_zero(s@),
{
    match parse_i64(s) {
        Some(v) => v,
        None => 0,
    }
}

/// One less than 2^96: the largest mantissa magnitude a `rust_decimal`
/// value can carry.
pub const MAX_DECIMAL_MANTISSA: i128 = 0xFFFF_FFFF_FFFF_FFFF_FFFF_FFFFi128;

/// The largest scale (count of fractional digits) a `rust_decimal` value
/// can carry.
pub const MAX_DECIMAL_SCALE: u32 = 28;

/// A fixed-point decimal, `mantissa * 10^-scale`: the value model of a
/// `rust_decimal::Decimal` (96-bit mantissa magnitude, scale at most 28).
#[derive(Clone, Copy, Debug, PartialEq, Eq, Structural)]
pub struct DecimalValue {
    pub mantissa: i128,
    pub scale: u32,
}

/// The mantissa and scale stay within what a `rust_decimal::Decimal` holds.
pub open spec fn decimal_wf(d: DecimalValue) -> bool {
    &&& -MAX_DECIMAL_MANTISSA <= d.mantissa <= MAX_DECIMAL_MANTISSA
    &&& d.scale <= MAX_DECIMAL_SCALE
}

impl DecimalValue {
    /// The zero value, the default substituted for malformed decimal fields.
    pub fn zero() -> (r: DecimalValue)
        ensures
            r == (DecimalValue { mantissa: 0, scale: 0 }),
            decimal_wf(r),
    {
        DecimalValue { mantissa: 0, scale: 0 }
    }
}

/// Tests well-formedness at run time.
pub fn decimal_is_wf(d: &DecimalValue) -> (b: bool)
    ensures
        b == decimal_wf(*d),
{
    -MAX_DECIMAL_MANTISSA <= d.mantissa && d.mantissa <= MAX_DECIMAL_MANTISSA && d.scale
        <= MAX_DECIMAL_SCALE
}

/// The mantissa and scale that `rust_decimal` reads out of a decimal string,
/// or nothing when the string does not parse.
pub uninterp spec fn spec_parse_decimal(s: Seq<char>) -> Option<(i128, u32)>;

/// The text that `rust_decimal` renders a mantissa/scale pair to.
pub uninterp spec fn spec_decimal_text(mantissa: i128, scale: u32) -> Seq<char>;

/// Relies on `rust_decimal`: `Decimal`'s `FromStr` depends on the characters
/// alone, and `mantissa()`/`scale()` read the parts back out. The crate keeps
/// the mantissa magnitude below 2^96 and the scale at most `MAX_SCALE` (28).
#[verifier::external_body]
fn parse_decimal_parts(s: &str) -> (r: Option<(i128, u32)>)
    ensures
        r == spec_parse_decimal(s@),
        match r {
            Some(p) => -MAX_DECIMAL_MANTISSA <= p.0 <= MAX_DECIMAL_MANTISSA
                && p.1 <= MAX_DECIMAL_SCALE,
            None => true,
        },
{
    match s.parse::<rust_decimal::Decimal>() {
        Ok(d) => Some((d.mantissa(), d.scale())),
        Err(_) => None,
    }
}

/// The parsed decimal lifted into the library's value model.
pub open spec fn spec_decimal_value(s: Seq<char>) -> Option<DecimalValue> {
    match spec_parse_decimal(s) {
        Some(p) => Some(DecimalValue { mantissa: p.0, scale: p.1 }),
        None => None,
    }
}

/// The parsed decimal, or the zero default when the field is malformed: the
/// per-field tolerance policy of the normalizer.
pub open spec fn spec_decimal_or_zero(s: Seq<char>) -> DecimalValue {
    match spec_decimal_value(s) {
        Some(d) => d,
        None => DecimalValue { mantissa: 0, scale: 0 },
    }
}

/// Parses a decimal wire field into the library's value model.
pub fn parse_decimal(s: &str) -> (r: Option<DecimalValue>)
    ensures
        r == spec_decimal_value(s@),
        match r {
            Some(d) => decimal_wf(d),
            None => true,
        },
{
    match parse_decimal_parts(s) {
        Some(p) => Some(DecimalValue { mantissa: p.0, scale: p.1 }),
        None => None,
    }
}

/// Parses a decimal wire field, substituting zero when it is malformed.
pub fn parse_decimal_or_zero(s: &str) -> (r: DecimalValue)
    ensures
        r == spec_decimal_or_zero(s@),
        decimal_wf(r),
{
    match parse_decimal(s) {
        Some(d) => d,
        None => DecimalValue::zero(),
    }
}

/// Relies on `rust_decimal`: `from_i128_with_scale` then `Display` render a
/// mantissa/scale pair to text, a function of the two numbers alone. The
/// constructor panics when the scale exceeds 28 or the mantissa magnitude
/// reaches 2^96, so well-formedness is required.
#[verifier::external_body]
pub(crate) fn decimal_to_string(d: &DecimalValue) -> (r: String)
    requires
        decimal_wf(*d),
    ensures
        r@ == spec_decimal_text(d.mantissa, d.scale),
{
    rust_decimal::Decimal::from_i128_with_scale(d.mantissa, d.scale).to_string()
}

/// The character for one decimal digit value.
pub open spec fn digit_char(d: int) -> char {
    if d == 0 {
        '0'
    } else if d == 1 {
        '1'
    } else if d == 2 {
        '2'
    } else if d == 3 {
        '3'
    } else if d == 4 {
        '4'
    } else if d == 5 {
        '5'
    } else if d == 6 {
        '6'
    } else if d == 7 {
        '7'
    } else if d == 8 {
        '8'
    } else {
        '9'
    }
}

/// The canonical decimal text of a nonnegative integer: no sign, no leading
/// zeros (except `"0"` itself).
pub open spec fn spec_u64_string(n: int) -> Seq<char>
    recommends
        n >= 0,
    decreases n,
{
    if n < 10 {
        seq![digit_char(n)]
    } else {
        spec_u64_string(n / 10).push(digit_char(n % 10))
    }
}

/// The canonical decimal text of an integer: a `-` sign for negatives, then
/// the digits of the magnitude.
pub open spec fn spec_i64_string(n: int) -> Seq<char> {
    if n < 0 {
        seq!['-'] + spec_u64_string(-n)
    } else {
        spec_u64_string(n)
    }
}

/// One digit as a string slice.
fn digit_str(d: u64) -> (r: &'static str)
    requires
        d < 10,
    ensures
        r@ =~= seq![digit_char(d as int)],
{
    proof {
        reveal_strlit("0");
        reveal_strlit("1");
        reveal_strlit("2");
        reveal_strlit("3");
        reveal_strlit("4");
        reveal_strlit("5");
        reveal_strlit("6");
        reveal_strlit("7");
        reveal_strlit("8");
        reveal_strlit("9");
    }
    if d == 0 {
        "0"
    } else if d == 1 {
        "1"
    } else if d == 2 {
        "2"
    } else if d == 3 {
        "3"
    } else if d == 4 {
        "4"
    } else if d == 5 {
        "5"
    } else if d == 6 {
        "6"
    } else if d == 7 {
        "7"
    } else if d == 8 {
        "8"
    } else {
        "9"
    }
}

/// Appends the decimal digits of `x` to `out`.
fn append_u64(out: &mut String, x: u64)
    ensures
        final(out)@ == old(out)@ + spec_u64_string(x as int),
    decreases x,
{
    if x >= 10 {
        append_u64(out, x / 10);
        let r = digit_str(x % 10);
        out.append(r);
        proof {
            assert(final(out)@ =~= old(out)@ + spec_u64_string(x as int)) by {
                assert(spec_u64_string(x as int)
                    == spec_u64_string(x as int / 10).push(digit_char(x as int % 10)));
            }
        }
    } else {
        let r = digit_str(x);
        out.append(r);
        proof {
            assert(final(out)@ =~= old(out)@ + spec_u64_string(x as int));
        }
    }
}

/// Renders an unsigned integer to its canonical decimal text.
pub fn u64_to_string(x: u64) -> (r: String)
    ensures
        r@ == spec_u64_string(x as int),
{
    let mut out = String::new();
    append_u64(&mut out, x);
    proof {
        assert(out@ =~= spec_u64_string(x as int));
    }
    out
}

/// Renders a signed integer to its canonical decimal text.
pub fn i64_to_string(x: i64) -> (r: String)
    ensures
        r@ == spec_i64_string(x as int),
{
    if x < 0 {
        let mut out = String::new();
        out.append("-");
        let magnitude: u64 = if x == i64::MIN {
            9223372036854775808u64
        } else {
            (-x) as u64
        };
        append_u64(&mut out, magnitude);
        proof {
            reveal_strlit("-");
            assert(out@ =~= spec_i64_string(x as int));
        }
        out
    } else {
        u64_to_string(x as u64)
    }
}

} // verus!
