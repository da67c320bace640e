//! Decimal text of integers: what a number looks like when written out, and
//! what number a piece of text stands for.

use vstd::prelude::*;
use vstd::std_specs::iter::IteratorSpec;

verus! {

/// Why a piece of text does not stand for a number of the wanted type.
#[derive(Clone, Copy, Debug, PartialEq, Eq, Structural)]
pub enum CoercionError {
    /// The text is empty.
    Empty,
    /// The text holds a character that is neither a digit nor a leading sign,
    /// or holds a sign and nothing else.
    InvalidDigit,
    /// The number is too large for the type.
    PosOverflow,
    /// The number is too small for the type.
    NegOverflow,
}

/// The character that stands for the digit `d`.
pub open spec fn digit_char(d: nat) -> char
    recommends
        d < 10,
{
    (('0' as nat) + d) as char
}

/// Whether `c` is one of `'0'` to `'9'`.
pub open spec fn is_digit(c: char) -> bool {
    '0' <= c && c <= '9'
}

/// The digit that `c` stands for.
pub open spec fn digit_value(c: char) -> nat
    recommends
        is_digit(c),
{
    ((c as nat) - ('0' as nat)) as nat
}

/// The decimal text of `n`, without sign and without leading zeros.
pub open spec fn decimal_text(n: nat) -> Seq<char>
    decreases n,
{
    if n < 10 {
        seq![digit_char(n)]
    } else {
        decimal_text(n / 10).push(digit_char(n % 10))
    }
}

/// One decimal digit as text.
fn digit_str(d: u8) -> (s: &'static str)
    requires
        d < 10,
    ensures
        s@ == seq![digit_char(d as nat)],
{
    proof {
        reveal_strlit("0");
        reveal_strlit("1");
        reveal_strlit("2");
        reveal_strlit("3");
        reveal_strlit("4");
        reveal_strlit("5");
        reveal_strlit("6");
        reveal_strlit("7");
        reveal_strlit("8");
        reveal_strlit("9");
    }
    let s = match d {
        0 => "0",
        1 => "1",
        2 => "2",
        3 => "3",
        4 => "4",
        5 => "5",
        6 => "6",
        7 => "7",
        8 => "8",
        _ => "9",
    };
    assert(s@ =~= seq![digit_char(d as nat)]);
    s
}

/// The number that a run of digits stands for; the empty run stands for 0.
pub open spec fn digits_value(s: Seq<char>) -> nat
    decreases s.len(),
{
    if s.len() == 0 {
        0
    } else {
        digits_value(s.drop_last()) * 10 + digit_value(s.last())
    }
}

/// How many digits `s` starts with.
pub open spec fn digit_prefix_len(s: Seq<char>) -> nat
    decreases s.len(),
{
    if s.len() == 0 || !is_digit(s[0]) {
        0
    } else {
        1 + digit_prefix_len(s.drop_first())
    }
}

/// Whether `s` starts with a minus sign that a type reaching down to `min`
/// accepts.
pub open spec fn is_negative(s: Seq<char>, min: int) -> bool {
    min < 0 && s.len() > 0 && s[0] == '-'
}

/// `s` without its leading sign, if it has one that the type accepts.
pub open spec fn unsigned_part(s: Seq<char>, min: int) -> Seq<char> {
    if s.len() > 0 && (s[0] == '+' || is_negative(s, min)) {
        s.drop_first()
    } else {
        s
    }
}

/// The integer in `min..=max` that the text `s` stands for.
///
/// The text is an optional sign followed by at least one digit; `-` is a
/// sign only where `min` is negative. Reading from the left, a digit that
/// takes the number out of range is reported before a later character that
/// is no digit.
pub open spec fn parse_int(s: Seq<char>, min: int, max: int) -> Result<int, CoercionError> {
    let negative = is_negative(s, min);
    let body = unsigned_part(s, min);
    let digits = body.take(digit_prefix_len(body) as int);
    let magnitude = digits_value(digits) as int;
    if s.len() == 0 {
        Err(CoercionError::Empty)
    } else if body.len() == 0 {
        Err(CoercionError::InvalidDigit)
    } else if !negative && magnitude > max {
        Err(CoercionError::PosOverflow)
    } else if negative && -magnitude < min {
        Err(CoercionError::NegOverflow)
    } else if digits.len() < body.len() {
        Err(CoercionError::InvalidDigit)
    } else if negative {
        Ok(-magnitude)
    } else {
        Ok(magnitude)
    }
}

/// Appending one character multiplies the value by ten and adds the digit.
pub proof fn lemma_digits_value_push(s: Seq<char>, c: char)
    ensures
        digits_value(s.push(c)) == digits_value(s) * 10 + digit_value(c),
{
    assert(s.push(c).drop_last() =~= s);
    assert(s.push(c).last() == c);
}

/// A longer prefix never stands for a smaller number.
pub proof fn lemma_digits_value_monotone(s: Seq<char>, j: int, k: int)
    requires
        0 <= j <= k <= s.len(),
    ensures
        digits_value(s.take(j)) <= digits_value(s.take(k)),
    decreases k - j,
{
    if j < k {
        lemma_digits_value_monotone(s, j, k - 1);
        assert(s.take(k).drop_last() =~= s.take(k - 1));
    }
}

/// The leading digits are digits, and what follows them, if anything, is not.
pub proof fn lemma_digit_prefix_len(s: Seq<char>)
    ensures
        digit_prefix_len(s) <= s.len(),
        forall|j: int| 0 <= j < digit_prefix_len(s) ==> is_digit(#[trigger] s[j]),
        digit_prefix_len(s) < s.len() ==> !is_digit(s[digit_prefix_len(s) as int]),
    decreases s.len(),
{
    if s.len() == 0 || !is_digit(s[0]) {
    } else {
        let t = s.drop_first();
        lemma_digit_prefix_len(t);
        assert forall|j: int| 0 <= j < digit_prefix_len(s) implies is_digit(#[trigger] s[j]) by {
            if j > 0 {
                assert(s[j] == t[j - 1]);
            }
        }
        if digit_prefix_len(s) < s.len() {
            assert(s[digit_prefix_len(s) as int] == t[digit_prefix_len(t) as int]);
        }
    }
}

/// Where the first `i` characters are digits and the next one, if any, is
/// not, `s` starts with exactly `i` digits.
pub proof fn lemma_digit_prefix_len_is(s: Seq<char>, i: int)
    requires
        0 <= i <= s.len(),
        forall|j: int| 0 <= j < i ==> is_digit(#[trigger] s[j]),
        i < s.len() ==> !is_digit(s[i]),
    ensures
        digit_prefix_len(s) == i,
{
    lemma_digit_prefix_len(s);
    let k = digit_prefix_len(s) as int;
    if k < i {
        assert(is_digit(s[k]));
    } else if k > i {
        assert(is_digit(s[i]));
    }
}

/// The lower bound that the core of the parsers works with.
spec fn lower_bound(signed: bool, neg_limit: u128) -> int {
    if signed {
        -(neg_limit as int)
    } else {
        0
    }
}

/// Reads an optional sign and the digits behind it. The result holds whether
/// the text is negative, and the number without its sign.
fn parse_magnitude(s: &str, signed: bool, neg_limit: u128, pos_limit: u128) -> (r: Result<
    (bool, u128),
    CoercionError,
>)
    requires
        signed ==> neg_limit > 0,
    ensures
        match r {
            Ok((negative, magnitude)) => {
                &&& negative == is_negative(s@, lower_bound(signed, neg_limit))
                &&& parse_int(s@, lower_bound(signed, neg_limit), pos_limit as int) == Ok::<
                    int,
                    CoercionError,
                >(if negative { -(magnitude as int) } else { magnitude as int })
            },
            Err(e) => parse_int(s@, lower_bound(signed, neg_limit), pos_limit as int) == Err::<
                int,
                CoercionError,
            >(e),
        },
{
    broadcast use vstd::string::group_string_axioms;

    if s.is_empty() {
        return Err(CoercionError::Empty);
    }
    let first = s.get_char(0);
    let negative = signed && first == '-';
    let has_sign = first == '+' || negative;
    let limit = if negative { neg_limit } else { pos_limit };
    let ghost min = lower_bound(signed, neg_limit);
    let ghost body = unsigned_part(s@, min);
    let mut it = s.chars();
    if has_sign {
        let _ = it.next();
    }
    let mut acc: u128 = 0;
    let ghost mut i: int = 0;
    let mut any = false;
    loop
        invariant
            it.obeys_prophetic_iter_laws(),
            0 <= i <= body.len(),
            it.remaining() == body.skip(i),
            forall|j: int| 0 <= j < i ==> is_digit(#[trigger] body[j]),
            acc == digits_value(body.take(i)),
            acc <= limit,
            any == (i > 0),
            body == unsigned_part(s@, min),
            min == lower_bound(signed, neg_limit),
            negative == is_negative(s@, min),
            limit == if negative { neg_limit } else { pos_limit },
            s@.len() > 0,
            signed ==> neg_limit > 0,
        ensures
            i == body.len(),
        decreases body.len() - i,
    {
        match it.next() {
            None => {
                break;
            },
            Some(c) => {
                assert(body.skip(i).drop_first() =~= body.skip(i + 1));
                if !(c >= '0' && c <= '9') {
                    proof {
                        lemma_digit_prefix_len_is(body, i);
                    }
                    return Err(CoercionError::InvalidDigit);
                }
                let d: u128 = (c as u32 - '0' as u32) as u128;
                proof {
                    lemma_digits_value_push(body.take(i), c);
                    assert(body.take(i + 1) =~= body.take(i).push(c));
                }
                let grown = match acc.checked_mul(10) {
                    Some(m) => m.checked_add(d),
                    None => None,
                };
                let fits = match grown {
                    Some(v) => v <= limit,
                    None => false,
                };
                if !fits {
                    proof {
                        lemma_digit_prefix_len(body);
                        let k = digit_prefix_len(body) as int;
                        if k < i + 1 {
                            assert(is_digit(body[k]));
                        }
                        lemma_digits_value_monotone(body.take(k), i + 1, k);
                        assert(body.take(k).take(i + 1) =~= body.take(i + 1));
                        assert(body.take(k).take(k) =~= body.take(k));
                    }
                    return Err(
                        if negative {
                            CoercionError::NegOverflow
                        } else {
                            CoercionError::PosOverflow
                        },
                    );
                }
                acc = grown.unwrap();
                any = true;
                proof {
                    i = i + 1;
                }
            },
        }
    }
    if !any {
        return Err(CoercionError::InvalidDigit);
    }
    proof {
        lemma_digit_prefix_len_is(body, i);
        assert(body.take(i) =~= body);
    }
    Ok((negative, acc))
}

/// What `parse_u128` returns for a text.
pub open spec fn parse_u128_spec(s: Seq<char>) -> Result<u128, CoercionError> {
    match parse_int(s, 0, u128::MAX as int) {
        Ok(v) => Ok(v as u128),
        Err(e) => Err(e),
    }
}

/// What `parse_u64` returns for a text.
pub open spec fn parse_u64_spec(s: Seq<char>) -> Result<u64, CoercionError> {
    match parse_int(s, 0, u64::MAX as int) {
        Ok(v) => Ok(v as u64),
        Err(e) => Err(e),
    }
}

/// What `parse_i64` returns for a text.
pub open spec fn parse_i64_spec(s: Seq<char>) -> Result<i64, CoercionError> {
    match parse_int(s, i64::MIN as int, i64::MAX as int) {
        Ok(v) => Ok(v as i64),
        Err(e) => Err(e),
    }
}

/// Whether a text stands for an unsigned 128-bit integer.
pub open spec fn is_u128(s: Seq<char>) -> bool {
    parse_u128_spec(s) is Ok
}

/// The unsigned 128-bit integer that a text stands for.
pub open spec fn u128_of(s: Seq<char>) -> u128
    recommends
        is_u128(s),
{
    parse_u128_spec(s)->Ok_0
}

/// Whether a text stands for an unsigned 64-bit integer.
pub open spec fn is_u64(s: Seq<char>) -> bool {
    parse_u64_spec(s) is Ok
}

/// The unsigned 64-bit integer that a text stands for.
pub open spec fn u64_of(s: Seq<char>) -> u64
    recommends
        is_u64(s),
{
    parse_u64_spec(s)->Ok_0
}

/// Whether a text stands for a signed 64-bit integer.
pub open spec fn is_i64(s: Seq<char>) -> bool {
    parse_i64_spec(s) is Ok
}

/// The signed 64-bit integer that a text stands for.
pub open spec fn i64_of(s: Seq<char>) -> i64
    recommends
        is_i64(s),
{
    parse_i64_spec(s)->Ok_0
}

/// Reads an unsigned 128-bit integer from its decimal text.
pub fn parse_u128(s: &str) -> (r: Result<u128, CoercionError>)
    ensures
        r == parse_u128_spec(s@),
{
    match parse_magnitude(s, false, 0, u128::MAX) {
        Ok((_, magnitude)) => Ok(magnitude),
        Err(e) => Err(e),
    }
}

/// Reads an unsigned 64-bit integer from its decimal text.
pub fn parse_u64(s: &str) -> (r: Result<u64, CoercionError>)
    ensures
        r == parse_u64_spec(s@),
{
    match parse_magnitude(s, false, 0, u64::MAX as u128) {
        Ok((_, magnitude)) => Ok(magnitude as u64),
        Err(e) => Err(e),
    }
}

/// Reads a signed 64-bit integer from its decimal text.
pub fn parse_i64(s: &str) -> (r: Result<i64, CoercionError>)
    ensures
        r == parse_i64_spec(s@),
{
    match parse_magnitude(s, true, 0x8000_0000_0000_0000, i64::MAX as u128) {
        Ok((negative, magnitude)) => {
            if negative {
                Ok((0 - magnitude as i128) as i64)
            } else {
                Ok(magnitude as i64)
            }
        },
        Err(e) => Err(e),
    }
}

/// Writes an unsigned 128-bit integer as decimal text.
pub fn format_u128(n: u128) -> (s: String)
    ensures
        s@ == decimal_text(n as nat),
    decreases n,
{
    if n < 10 {
        digit_str(n as u8).to_owned()
    } else {
        let mut s = format_u128(n / 10);
        s.append(digit_str((n % 10) as u8));
        s
    }
}

/// Writes an unsigned 64-bit integer as decimal text.
pub fn format_u64(n: u64) -> (s: String)
    ensures
        s@ == decimal_text(n as nat),
{
    format_u128(n as u128)
}

/// Decimal text is never empty and holds digits only.
pub proof fn lemma_decimal_text_is_digits(n: nat)
    ensures
        decimal_text(n).len() >= 1,
        forall|j: int| 0 <= j < decimal_text(n).len() ==> is_digit(#[trigger] decimal_text(n)[j]),
    decreases n,
{
    if n >= 10 {
        lemma_decimal_text_is_digits(n / 10);
    }
}

/// Decimal text stands for the number it was written from.
pub proof fn lemma_decimal_text_value(n: nat)
    ensures
        digits_value(decimal_text(n)) == n,
    decreases n,
{
    if n < 10 {
        lemma_digits_value_push(Seq::<char>::empty(), digit_char(n));
        assert(Seq::<char>::empty().push(digit_char(n)) =~= decimal_text(n));
    } else {
        lemma_decimal_text_value(n / 10);
        lemma_digits_value_push(decimal_text(n / 10), digit_char(n % 10));
    }
}

/// Writing a number out and reading the text back gives the number, for
/// every type whose range holds it.
pub proof fn lemma_parse_decimal_text(n: nat, min: int, max: int)
    requires
        min <= 0,
        n <= max,
    ensures
        parse_int(decimal_text(n), min, max) == Ok::<int, CoercionError>(n as int),
{
    let s = decimal_text(n);
    lemma_decimal_text_is_digits(n);
    lemma_decimal_text_value(n);
    assert(is_digit(s[0]));
    lemma_digit_prefix_len_is(s, s.len() as int);
    assert(s.take(s.len() as int) =~= s);
}

/// Formatting an unsigned 128-bit integer and coercing the text back yields
/// the integer.
pub proof fn lemma_u128_round_trip(n: u128)
    ensures
        parse_u128_spec(decimal_text(n as nat)) == Ok::<u128, CoercionError>(n),
{
    lemma_parse_decimal_text(n as nat, 0, u128::MAX as int);
}

/// Formatting an unsigned 64-bit integer and coercing the text back yields
/// the integer.
pub proof fn lemma_u64_round_trip(n: u64)
    ensures
        parse_u64_spec(decimal_text(n as nat)) == Ok::<u64, CoercionError>(n),
{
    lemma_parse_decimal_text(n as nat, 0, u64::MAX as int);
}

/// A text with a character that is neither a digit nor an accepted leading
/// sign stands for no number.
pub proof fn lemma_non_numeric_is_rejected(s: Seq<char>, min: int, max: int, i: int)
    requires
        0 <= i < s.len(),
        !is_digit(s[i]),
        i == 0 ==> !(s[0] == '+' || is_negative(s, min)),
    ensures
        parse_int(s, min, max) is Err,
{
    let body = unsigned_part(s, min);
    lemma_digit_prefix_len(body);
    let k = digit_prefix_len(body) as int;
    if body.len() == s.len() {
        assert(body == s);
        if k > i {
            assert(is_digit(body[i]));
        }
    } else {
        assert(body[i - 1] == s[i]);
        if k > i - 1 {
            assert(is_digit(body[i - 1]));
        }
    }
    assert(body.take(k).len() == k);
}

} // verus!
