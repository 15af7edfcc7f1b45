//! The standard conversions from text: integers in decimal notation,
//! booleans, single characters and plain text.

use vstd::prelude::*;
use vstd::string::StringExecFns;
use vstd::string::StrSliceExecFns;
use crate::error::{BoxedError, CharErrorKind, IntErrorKind};
use crate::text::{decimal, digit_char};

verus! {

/// Types with a standard conversion from text.
pub trait FromText: Sized {
    /// Whether converting `input` gives `r`.
    spec fn parses(input: Seq<char>, r: Result<Self, BoxedError>) -> bool;

    /// The name of the type.
    spec fn label_spec() -> &'static str;

    /// Converts `input`.
    fn from_text(input: &str) -> (r: Result<Self, BoxedError>)
        ensures
            Self::parses(input@, r),
    ;

    /// Returns the name of the type.
    fn label() -> (name: &'static str)
        ensures
            name == Self::label_spec(),
    ;
}

/// Whether `c` is a decimal digit.
pub open spec fn is_digit(c: char) -> bool {
    '0' <= c <= '9'
}

/// The number that the digit `c` stands for.
pub open spec fn digit_value(c: char) -> int {
    c as u32 - 48
}

/// The number that a run of digits stands for.
pub open spec fn digits_value(s: Seq<char>) -> int
    decreases s.len(),
{
    if s.len() == 0 {
        0
    } else {
        digits_value(s.drop_last()) * 10 + digit_value(s.last())
    }
}

/// The length of the run of digits that `s` starts with.
pub open spec fn digit_run(s: Seq<char>) -> int
    decreases s.len(),
{
    if s.len() == 0 || !is_digit(s[0]) {
        0
    } else {
        1 + digit_run(s.drop_first())
    }
}

/// What the text `s` is as an integer between `min` and `max`.
///
/// The text is an optional sign and then digits; the sign `-` only where
/// `signed` holds. The digits are read from the left: a number out of range
/// is reported as soon as the digits read so far exceed the range, and a
/// character that is no digit where the digits before it are in range.
pub open spec fn parse_int_spec(s: Seq<char>, signed: bool, min: int, max: int) -> Result<
    int,
    IntErrorKind,
> {
    if s.len() == 0 {
        Err(IntErrorKind::Empty)
    } else if s.len() == 1 && (s[0] == '+' || s[0] == '-') {
        Err(IntErrorKind::InvalidDigit)
    } else {
        let negative = signed && s[0] == '-';
        let body = if s[0] == '+' || negative {
            s.drop_first()
        } else {
            s
        };
        let magnitude = digits_value(body.take(digit_run(body)));
        let value = if negative {
            -magnitude
        } else {
            magnitude
        };
        if value > max {
            Err(IntErrorKind::PosOverflow)
        } else if value < min {
            Err(IntErrorKind::NegOverflow)
        } else if digit_run(body) < body.len() {
            Err(IntErrorKind::InvalidDigit)
        } else {
            Ok(value)
        }
    }
}

/// The run of digits at the start of `s` holds digits only, and ends at the
/// end of `s` or before a character that is no digit.
pub proof fn lemma_digit_run(s: Seq<char>)
    ensures
        0 <= digit_run(s) <= s.len(),
        forall|i: int| 0 <= i < digit_run(s) ==> is_digit(#[trigger] s[i]),
        digit_run(s) < s.len() ==> !is_digit(s[digit_run(s)]),
    decreases s.len(),
{
    if s.len() > 0 && is_digit(s[0]) {
        let rest = s.drop_first();
        lemma_digit_run(rest);
        assert forall|i: int| 0 <= i < digit_run(s) implies is_digit(#[trigger] s[i]) by {
            if i > 0 {
                assert(s[i] == rest[i - 1]);
            }
        }
    }
}

/// The run of digits at the start of `s` has length `k` if the first `k`
/// characters are digits and the next one, if any, is not.
pub proof fn lemma_digit_run_is(s: Seq<char>, k: int)
    requires
        0 <= k <= s.len(),
        forall|i: int| 0 <= i < k ==> is_digit(#[trigger] s[i]),
        k < s.len() ==> !is_digit(s[k]),
    ensures
        digit_run(s) == k,
    decreases s.len(),
{
    if k > 0 {
        let rest = s.drop_first();
        assert(is_digit(s[0]));
        assert forall|i: int| 0 <= i < k - 1 implies is_digit(#[trigger] rest[i]) by {
            assert(rest[i] == s[i + 1]);
        }
        lemma_digit_run_is(rest, k - 1);
    }
}

/// The run of digits at the start of `s` is at least `k` long if the first
/// `k` characters are digits.
pub proof fn lemma_digit_run_at_least(s: Seq<char>, k: int)
    requires
        0 <= k <= s.len(),
        forall|i: int| 0 <= i < k ==> is_digit(#[trigger] s[i]),
    ensures
        k <= digit_run(s) <= s.len(),
    decreases s.len(),
{
    if s.len() > 0 && is_digit(s[0]) {
        let rest = s.drop_first();
        if k > 0 {
            assert forall|i: int| 0 <= i < k - 1 implies is_digit(#[trigger] rest[i]) by {
                assert(rest[i] == s[i + 1]);
            }
            lemma_digit_run_at_least(rest, k - 1);
        } else {
            lemma_digit_run_at_least(rest, 0);
        }
    }
}

/// A longer run of digits stands for a number that is at least as large.
pub proof fn lemma_digits_value_grows(s: Seq<char>, j: int, k: int)
    requires
        0 <= j <= k <= s.len(),
        forall|i: int| 0 <= i < k ==> is_digit(#[trigger] s[i]),
    ensures
        0 <= digits_value(s.take(j)) <= digits_value(s.take(k)),
    decreases k - j,
{
    lemma_digits_value_nonneg(s.take(j));
    if j < k {
        lemma_digits_value_grows(s, j + 1, k);
        assert(s.take(j + 1).drop_last() =~= s.take(j));
        lemma_digits_value_step(s.take(j + 1));
    }
}

/// A run of digits stands for a number that is not negative.
pub proof fn lemma_digits_value_nonneg(s: Seq<char>)
    requires
        forall|i: int| 0 <= i < s.len() ==> is_digit(#[trigger] s[i]),
    ensures
        0 <= digits_value(s),
    decreases s.len(),
{
    if s.len() > 0 {
        let rest = s.drop_last();
        assert forall|i: int| 0 <= i < rest.len() implies is_digit(#[trigger] rest[i]) by {
            assert(rest[i] == s[i]);
        }
        lemma_digits_value_nonneg(rest);
        assert(is_digit(s[s.len() - 1]));
    }
}

/// Adding a digit to a run of digits does not make its number smaller.
pub proof fn lemma_digits_value_step(s: Seq<char>)
    requires
        s.len() > 0,
        forall|i: int| 0 <= i < s.len() ==> is_digit(#[trigger] s[i]),
    ensures
        digits_value(s.drop_last()) <= digits_value(s),
{
    let rest = s.drop_last();
    assert forall|i: int| 0 <= i < rest.len() implies is_digit(#[trigger] rest[i]) by {
        assert(rest[i] == s[i]);
    }
    lemma_digits_value_nonneg(rest);
    assert(is_digit(s[s.len() - 1]));
}

/// The decimal notation of a number is made of digits, and stands for the
/// number.
pub proof fn lemma_decimal_is_digits(n: nat)
    ensures
        decimal(n).len() > 0,
        forall|i: int| 0 <= i < decimal(n).len() ==> is_digit(#[trigger] decimal(n)[i]),
        digits_value(decimal(n)) == n,
    decreases n,
{
    if n < 10 {
        assert(is_digit(digit_char(n)));
        assert(digit_value(digit_char(n)) == n);
        assert(decimal(n).drop_last() =~= Seq::<char>::empty());
        assert(digits_value(decimal(n).drop_last()) == 0);
    } else {
        lemma_decimal_is_digits(n / 10);
        let last = digit_char(n % 10);
        assert(is_digit(last));
        assert(digit_value(last) == n % 10);
        assert(decimal(n).drop_last() =~= decimal(n / 10));
        assert(decimal(n).last() == last);
    }
}

/// A number that is written in decimal notation is read back as itself,
/// for every type whose range holds it.
pub proof fn lemma_decimal_round_trip(n: nat, signed: bool, min: int, max: int)
    requires
        min <= 0,
        n <= max,
    ensures
        parse_int_spec(decimal(n), signed, min, max) == Ok::<int, IntErrorKind>(n as int),
{
    let s = decimal(n);
    lemma_decimal_is_digits(n);
    assert(is_digit(s[0]));
    lemma_digit_run_is(s, s.len() as int);
    assert(s.take(s.len() as int) =~= s);
}

/// Reads `input` as an integer whose magnitude is at most `neg_limit` if it
/// is negative and at most `pos_limit` if not. The result is the sign of the
/// text and the magnitude of the number.
fn parse_magnitude(input: &str, signed: bool, neg_limit: u128, pos_limit: u128) -> (r: Result<
    (bool, u128),
    IntErrorKind,
>)
    ensures
        match r {
            Ok((negative, magnitude)) => {
                &&& parse_int_spec(input@, signed, -(neg_limit as int), pos_limit as int) == Ok::<
                    int,
                    IntErrorKind,
                >(
                    if negative {
                        -(magnitude as int)
                    } else {
                        magnitude as int
                    },
                )
                &&& magnitude <= if negative {
                    neg_limit
                } else {
                    pos_limit
                }
            },
            Err(k) => parse_int_spec(input@, signed, -(neg_limit as int), pos_limit as int) == Err::<
                int,
                IntErrorKind,
            >(k),
        },
{
    let n = input.unicode_len();
    if n == 0 {
        return Err(IntErrorKind::Empty);
    }
    let first = input.get_char(0);
    if n == 1 && (first == '+' || first == '-') {
        return Err(IntErrorKind::InvalidDigit);
    }
    let negative = signed && first == '-';
    let start: usize = if first == '+' || negative {
        1
    } else {
        0
    };
    let body = input.substring_char(start, n);
    assert(body@ =~= if first == '+' || negative {
        input@.drop_first()
    } else {
        input@
    });
    let limit: u128 = if negative {
        neg_limit
    } else {
        pos_limit
    };
    let mut acc: u128 = 0;
    proof {
        assert(body@.take(0).len() == 0);
    }
    for c in it: body.chars()
        invariant
            it.seq() == body@,
            limit == if negative {
                neg_limit
            } else {
                pos_limit
            },
            acc <= limit,
            acc == digits_value(body@.take(it.index())),
            forall|i: int| 0 <= i < it.index() ==> is_digit(#[trigger] body@[i]),
            input@.len() > 0,
            !(input@.len() == 1 && (input@[0] == '+' || input@[0] == '-')),
            negative == (signed && input@[0] == '-'),
            body@ == if input@[0] == '+' || negative {
                input@.drop_first()
            } else {
                input@
            },
    {
        let ghost k = it.index();
        if !(c >= '0' && c <= '9') {
            proof {
                lemma_digit_run_is(body@, k);
            }
            return Err(IntErrorKind::InvalidDigit);
        }
        let d: u128 = (c as u32 - 48) as u128;
        proof {
            assert(body@.take(k + 1).drop_last() =~= body@.take(k));
            assert(body@.take(k + 1).last() == c);
            assert(digits_value(body@.take(k + 1)) == acc * 10 + d);
        }
        let fits = acc <= limit / 10 && d <= limit - acc * 10;
        if !fits {
            proof {
                assert(acc * 10 + d > limit);
                lemma_digit_run_at_least(body@, k + 1);
                lemma_digit_run(body@);
                lemma_digits_value_grows(body@, k + 1, digit_run(body@));
            }
            if negative {
                return Err(IntErrorKind::NegOverflow);
            } else {
                return Err(IntErrorKind::PosOverflow);
            }
        }
        acc = acc * 10 + d;
    }
    proof {
        lemma_digit_run_is(body@, body@.len() as int);
        assert(body@.take(body@.len() as int) =~= body@);
    }
    Ok((negative, acc))
}

/// Reads `input` as an integer between `min` and `max`, for a type of at
/// most 64 bits.
fn parse_integer(input: &str, signed: bool, min: i128, max: i128) -> (r: Result<i128, IntErrorKind>)
    requires
        -0x1_0000_0000_0000_0000 <= min <= 0 <= max <= 0x1_0000_0000_0000_0000,
    ensures
        r == match parse_int_spec(input@, signed, min as int, max as int) {
            Ok(v) => Ok::<i128, IntErrorKind>(v as i128),
            Err(k) => Err(k),
        },
        r matches Ok(v) ==> min <= v <= max,
{
    match parse_magnitude(input, signed, (-min) as u128, max as u128) {
        Ok((negative, magnitude)) => {
            if negative {
                Ok(-(magnitude as i128))
            } else {
                Ok(magnitude as i128)
            }
        },
        Err(k) => Err(k),
    }
}

impl FromText for i32 {
    open spec fn label_spec() -> &'static str {
        "i32"
    }

    open spec fn parses(input: Seq<char>, r: Result<i32, BoxedError>) -> bool {
        r == match parse_int_spec(input, true, i32::MIN as int, i32::MAX as int) {
            Ok(v) => Ok::<i32, BoxedError>(v as i32),
            Err(k) => Err(BoxedError::ParseInt(k)),
        }
    }

    fn from_text(input: &str) -> (r: Result<i32, BoxedError>) {
        match parse_integer(input, true, i32::MIN as i128, i32::MAX as i128) {
            Ok(v) => Ok(v as i32),
            Err(k) => Err(BoxedError::ParseInt(k)),
        }
    }

    fn label() -> (name: &'static str) {
        "i32"
    }
}

impl FromText for i8 {
    open spec fn label_spec() -> &'static str {
        "i8"
    }

    open spec fn parses(input: Seq<char>, r: Result<i8, BoxedError>) -> bool {
        r == match parse_int_spec(input, true, i8::MIN as int, i8::MAX as int) {
            Ok(v) => Ok::<i8, BoxedError>(v as i8),
            Err(k) => Err(BoxedError::ParseInt(k)),
        }
    }

    fn from_text(input: &str) -> (r: Result<i8, BoxedError>) {
        match parse_integer(input, true, i8::MIN as i128, i8::MAX as i128) {
            Ok(v) => Ok(v as i8),
            Err(k) => Err(BoxedError::ParseInt(k)),
        }
    }

    fn label() -> (name: &'static str) {
        "i8"
    }
}

impl FromText for i16 {
    open spec fn label_spec() -> &'static str {
        "i16"
    }

    open spec fn parses(input: Seq<char>, r: Result<i16, BoxedError>) -> bool {
        r == match parse_int_spec(input, true, i16::MIN as int, i16::MAX as int) {
            Ok(v) => Ok::<i16, BoxedError>(v as i16),
            Err(k) => Err(BoxedError::ParseInt(k)),
        }
    }

    fn from_text(input: &str) -> (r: Result<i16, BoxedError>) {
        match parse_integer(input, true, i16::MIN as i128, i16::MAX as i128) {
            Ok(v) => Ok(v as i16),
            Err(k) => Err(BoxedError::ParseInt(k)),
        }
    }

    fn label() -> (name: &'static str) {
        "i16"
    }
}

impl FromText for i64 {
    open spec fn label_spec() -> &'static str {
        "i64"
    }

    open spec fn parses(input: Seq<char>, r: Result<i64, BoxedError>) -> bool {
        r == match parse_int_spec(input, true, i64::MIN as int, i64::MAX as int) {
            Ok(v) => Ok::<i64, BoxedError>(v as i64),
            Err(k) => Err(BoxedError::ParseInt(k)),
        }
    }

    fn from_text(input: &str) -> (r: Result<i64, BoxedError>) {
        match parse_integer(input, true, i64::MIN as i128, i64::MAX as i128) {
            Ok(v) => Ok(v as i64),
            Err(k) => Err(BoxedError::ParseInt(k)),
        }
    }

    fn label() -> (name: &'static str) {
        "i64"
    }
}

impl FromText for isize {
    open spec fn label_spec() -> &'static str {
        "isize"
    }

    open spec fn parses(input: Seq<char>, r: Result<isize, BoxedError>) -> bool {
        r == match parse_int_spec(input, true, isize::MIN as int, isize::MAX as int) {
            Ok(v) => Ok::<isize, BoxedError>(v as isize),
            Err(k) => Err(BoxedError::ParseInt(k)),
        }
    }

    fn from_text(input: &str) -> (r: Result<isize, BoxedError>) {
        match parse_integer(input, true, isize::MIN as i128, isize::MAX as i128) {
            Ok(v) => Ok(v as isize),
            Err(k) => Err(BoxedError::ParseInt(k)),
        }
    }

    fn label() -> (name: &'static str) {
        "isize"
    }
}

impl FromText for u8 {
    open spec fn label_spec() -> &'static str {
        "u8"
    }

    open spec fn parses(input: Seq<char>, r: Result<u8, BoxedError>) -> bool {
        r == match parse_int_spec(input, false, u8::MIN as int, u8::MAX as int) {
            Ok(v) => Ok::<u8, BoxedError>(v as u8),
            Err(k) => Err(BoxedError::ParseInt(k)),
        }
    }

    fn from_text(input: &str) -> (r: Result<u8, BoxedError>) {
        match parse_integer(input, false, u8::MIN as i128, u8::MAX as i128) {
            Ok(v) => Ok(v as u8),
            Err(k) => Err(BoxedError::ParseInt(k)),
        }
    }

    fn label() -> (name: &'static str) {
        "u8"
    }
}

impl FromText for u16 {
    open spec fn label_spec() -> &'static str {
        "u16"
    }

    open spec fn parses(input: Seq<char>, r: Result<u16, BoxedError>) -> bool {
        r == match parse_int_spec(input, false, u16::MIN as int, u16::MAX as int) {
            Ok(v) => Ok::<u16, BoxedError>(v as u16),
            Err(k) => Err(BoxedError::ParseInt(k)),
        }
    }

    fn from_text(input: &str) -> (r: Result<u16, BoxedError>) {
        match parse_integer(input, false, u16::MIN as i128, u16::MAX as i128) {
            Ok(v) => Ok(v as u16),
            Err(k) => Err(BoxedError::ParseInt(k)),
        }
    }

    fn label() -> (name: &'static str) {
        "u16"
    }
}

impl FromText for u32 {
    open spec fn label_spec() -> &'static str {
        "u32"
    }

    open spec fn parses(input: Seq<char>, r: Result<u32, BoxedError>) -> bool {
        r == match parse_int_spec(input, false, u32::MIN as int, u32::MAX as int) {
            Ok(v) => Ok::<u32, BoxedError>(v as u32),
            Err(k) => Err(BoxedError::ParseInt(k)),
        }
    }

    fn from_text(input: &str) -> (r: Result<u32, BoxedError>) {
        match parse_integer(input, false, u32::MIN as i128, u32::MAX as i128) {
            Ok(v) => Ok(v as u32),
            Err(k) => Err(BoxedError::ParseInt(k)),
        }
    }

    fn label() -> (name: &'static str) {
        "u32"
    }
}

impl FromText for u64 {
    open spec fn label_spec() -> &'static str {
        "u64"
    }

    open spec fn parses(input: Seq<char>, r: Result<u64, BoxedError>) -> bool {
        r == match parse_int_spec(input, false, u64::MIN as int, u64::MAX as int) {
            Ok(v) => Ok::<u64, BoxedError>(v as u64),
            Err(k) => Err(BoxedError::ParseInt(k)),
        }
    }

    fn from_text(input: &str) -> (r: Result<u64, BoxedError>) {
        match parse_integer(input, false, u64::MIN as i128, u64::MAX as i128) {
            Ok(v) => Ok(v as u64),
            Err(k) => Err(BoxedError::ParseInt(k)),
        }
    }

    fn label() -> (name: &'static str) {
        "u64"
    }
}

impl FromText for usize {
    open spec fn label_spec() -> &'static str {
        "usize"
    }

    open spec fn parses(input: Seq<char>, r: Result<usize, BoxedError>) -> bool {
        r == match parse_int_spec(input, false, usize::MIN as int, usize::MAX as int) {
            Ok(v) => Ok::<usize, BoxedError>(v as usize),
            Err(k) => Err(BoxedError::ParseInt(k)),
        }
    }

    fn from_text(input: &str) -> (r: Result<usize, BoxedError>) {
        match parse_integer(input, false, usize::MIN as i128, usize::MAX as i128) {
            Ok(v) => Ok(v as usize),
            Err(k) => Err(BoxedError::ParseInt(k)),
        }
    }

    fn label() -> (name: &'static str) {
        "usize"
    }
}

impl FromText for u128 {
    open spec fn label_spec() -> &'static str {
        "u128"
    }

    open spec fn parses(input: Seq<char>, r: Result<u128, BoxedError>) -> bool {
        r == match parse_int_spec(input, false, u128::MIN as int, u128::MAX as int) {
            Ok(v) => Ok::<u128, BoxedError>(v as u128),
            Err(k) => Err(BoxedError::ParseInt(k)),
        }
    }

    fn from_text(input: &str) -> (r: Result<u128, BoxedError>) {
        match parse_magnitude(input, false, 0, u128::MAX) {
            Ok((_, magnitude)) => Ok(magnitude),
            Err(k) => Err(BoxedError::ParseInt(k)),
        }
    }

    fn label() -> (name: &'static str) {
        "u128"
    }
}

impl FromText for i128 {
    open spec fn label_spec() -> &'static str {
        "i128"
    }

    open spec fn parses(input: Seq<char>, r: Result<i128, BoxedError>) -> bool {
        r == match parse_int_spec(input, true, i128::MIN as int, i128::MAX as int) {
            Ok(v) => Ok::<i128, BoxedError>(v as i128),
            Err(k) => Err(BoxedError::ParseInt(k)),
        }
    }

    fn from_text(input: &str) -> (r: Result<i128, BoxedError>) {
        match parse_magnitude(
            input,
            true,
            0x8000_0000_0000_0000_0000_0000_0000_0000,
            0x7fff_ffff_ffff_ffff_ffff_ffff_ffff_ffff,
        ) {
            Ok((negative, magnitude)) => {
                if !negative {
                    Ok(magnitude as i128)
                } else if magnitude == 0x8000_0000_0000_0000_0000_0000_0000_0000 {
                    Ok(i128::MIN)
                } else {
                    Ok(-(magnitude as i128))
                }
            },
            Err(k) => Err(BoxedError::ParseInt(k)),
        }
    }

    fn label() -> (name: &'static str) {
        "i128"
    }
}

impl FromText for char {
    open spec fn label_spec() -> &'static str {
        "char"
    }

    /// A text of one character is that character; an empty text and a
    /// text of more characters are errors.
    open spec fn parses(input: Seq<char>, r: Result<char, BoxedError>) -> bool {
        r == if input.len() == 0 {
            Err::<char, BoxedError>(BoxedError::ParseChar(CharErrorKind::EmptyString))
        } else if input.len() == 1 {
            Ok(input[0])
        } else {
            Err(BoxedError::ParseChar(CharErrorKind::TooManyChars))
        }
    }

    fn from_text(input: &str) -> (r: Result<char, BoxedError>) {
        let n = input.unicode_len();
        if n == 0 {
            Err(BoxedError::ParseChar(CharErrorKind::EmptyString))
        } else if n == 1 {
            Ok(input.get_char(0))
        } else {
            Err(BoxedError::ParseChar(CharErrorKind::TooManyChars))
        }
    }

    fn label() -> (name: &'static str) {
        "char"
    }
}

impl FromText for bool {
    open spec fn label_spec() -> &'static str {
        "bool"
    }

    open spec fn parses(input: Seq<char>, r: Result<bool, BoxedError>) -> bool {
        r == if input == "true"@ {
            Ok::<bool, BoxedError>(true)
        } else if input == "false"@ {
            Ok(false)
        } else {
            Err(BoxedError::ParseBool)
        }
    }

    fn from_text(input: &str) -> (r: Result<bool, BoxedError>) {
        let text = String::from_str(input);
        if text == String::from_str("true") {
            Ok(true)
        } else if text == String::from_str("false") {
            Ok(false)
        } else {
            Err(BoxedError::ParseBool)
        }
    }

    fn label() -> (name: &'static str) {
        "bool"
    }
}

impl FromText for String {
    open spec fn label_spec() -> &'static str {
        "alloc::string::String"
    }

    open spec fn parses(input: Seq<char>, r: Result<String, BoxedError>) -> bool {
        r matches Ok(text) && text@ == input
    }

    fn from_text(input: &str) -> (r: Result<String, BoxedError>) {
        Ok(String::from_str(input))
    }

    fn label() -> (name: &'static str) {
        "alloc::string::String"
    }
}

} // verus!
