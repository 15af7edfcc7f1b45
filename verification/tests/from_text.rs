use std::num::IntErrorKind as StdKind;

use mkenv::error::{BoxedError, IntErrorKind};
use mkenv::from_text::FromText;

const INPUTS: &[&str] = &[
    "", "0", "7", "30", "+30", "-30", "+", "-", "++1", "--1", "+-1", "-+1", "1+", "1-", " 1", "1 ",
    "foobar", "12a", "a12", "1_000", "0x10", "1.5", "1e3", "٣", "１２", "000", "-000", "+000",
    "0000000000000000000000000000000000000012", "-0000000000000000000000000000000000000012",
    "127", "128", "-128", "-129", "255", "256", "-1", "-0", "32767", "32768", "-32768", "-32769",
    "65535", "65536", "2147483647", "2147483648", "-2147483648", "-2147483649", "4294967295",
    "4294967296", "9223372036854775807", "9223372036854775808", "-9223372036854775808",
    "-9223372036854775809", "18446744073709551615", "18446744073709551616",
    "99999999999999999999999999999999999999999999", "-99999999999999999999999999999999999999999999",
    "99999999999999999999999999999999999999999999x", "2147483647x", "2147483648x", "256x", "25x",
    "-129x", "-12x", "x99999999999999999999999999999999", "1\u{0}", "\n1", "١",
];

fn kind_of(kind: &StdKind) -> IntErrorKind {
    match kind {
        StdKind::Empty => IntErrorKind::Empty,
        StdKind::InvalidDigit => IntErrorKind::InvalidDigit,
        StdKind::PosOverflow => IntErrorKind::PosOverflow,
        StdKind::NegOverflow => IntErrorKind::NegOverflow,
        other => panic!("a kind that no decimal notation gives: {other:?}"),
    }
}

fn check<T>(input: &str)
where
    T: FromText + std::str::FromStr<Err = std::num::ParseIntError> + PartialEq + std::fmt::Debug,
{
    let got = T::from_text(input);
    match input.parse::<T>() {
        Ok(expected) => match got {
            Ok(value) => assert_eq!(value, expected, "input {input:?}"),
            Err(e) => panic!("input {input:?}: expected {expected:?}, got the error {e:?}"),
        },
        Err(expected) => match got {
            Err(BoxedError::ParseInt(kind)) => {
                assert_eq!(kind, kind_of(expected.kind()), "input {input:?}")
            }
            other => panic!("input {input:?}: expected {expected:?}, got {other:?}"),
        },
    }
}

#[test]
fn integers_are_read_as_the_standard_conversion_reads_them() {
    for input in INPUTS {
        check::<i8>(input);
        check::<i16>(input);
        check::<i32>(input);
        check::<i64>(input);
        check::<isize>(input);
        check::<u8>(input);
        check::<u16>(input);
        check::<u32>(input);
        check::<u64>(input);
        check::<usize>(input);
        check::<i128>(input);
        check::<u128>(input);
    }
}

const WIDE_INPUTS: &[&str] = &[
    "170141183460469231731687303715884105727",
    "170141183460469231731687303715884105728",
    "-170141183460469231731687303715884105728",
    "-170141183460469231731687303715884105729",
    "340282366920938463463374607431768211455",
    "340282366920938463463374607431768211456",
    "+340282366920938463463374607431768211455",
    "-340282366920938463463374607431768211455",
    "000340282366920938463463374607431768211455",
    "3402823669209384634633746074317682114550",
    "340282366920938463463374607431768211455x",
    "340282366920938463463374607431768211456x",
    "-170141183460469231731687303715884105728x",
    "-170141183460469231731687303715884105729x",
    "99999999999999999999999999999999999999",
    "999999999999999999999999999999999999999",
    "-99999999999999999999999999999999999999",
    "-0",
    "-00000000000000000000000000000000000000000000000",
];

#[test]
fn wide_integers_are_read_as_the_standard_conversion_reads_them() {
    for input in WIDE_INPUTS {
        check::<i128>(input);
        check::<u128>(input);
        check::<i64>(input);
        check::<u64>(input);
    }
    assert_eq!(i128::from_text("-170141183460469231731687303715884105728").unwrap(), i128::MIN);
    assert_eq!(u128::from_text("340282366920938463463374607431768211455").unwrap(), u128::MAX);
}

#[test]
fn a_character_is_a_text_of_one_character() {
    for input in ["", "a", "é", "ab", " ", "  ", "\u{1F600}", "e\u{301}", "\n", "10"] {
        let got = char::from_text(input);
        match input.parse::<char>() {
            Ok(expected) => assert_eq!(got.unwrap(), expected, "input {input:?}"),
            Err(expected) => {
                let e = got.unwrap_err();
                assert!(matches!(e, BoxedError::ParseChar(_)), "input {input:?}");
                assert_eq!(e.to_string(), expected.to_string(), "input {input:?}");
            }
        }
    }
    assert!(matches!(
        char::from_text(""),
        Err(BoxedError::ParseChar(mkenv::error::CharErrorKind::EmptyString))
    ));
    assert!(matches!(
        char::from_text("ab"),
        Err(BoxedError::ParseChar(mkenv::error::CharErrorKind::TooManyChars))
    ));
}

#[test]
fn small_numbers_are_read_as_the_standard_conversion_reads_them() {
    for n in -300i32..300 {
        let plain = n.to_string();
        let signed = format!("{n:+}");
        for input in [plain.as_str(), signed.as_str()] {
            check::<i8>(input);
            check::<u8>(input);
            check::<i32>(input);
            check::<u64>(input);
        }
    }
}

#[test]
fn thirty_is_read_and_foobar_is_an_invalid_digit() {
    assert!(matches!(i32::from_text("30"), Ok(30)));
    assert!(matches!(
        i32::from_text("foobar"),
        Err(BoxedError::ParseInt(IntErrorKind::InvalidDigit))
    ));
    assert!(matches!(i32::from_text(""), Err(BoxedError::ParseInt(IntErrorKind::Empty))));
    assert!(matches!(
        i32::from_text("2147483648"),
        Err(BoxedError::ParseInt(IntErrorKind::PosOverflow))
    ));
    assert!(matches!(
        i32::from_text("-2147483649"),
        Err(BoxedError::ParseInt(IntErrorKind::NegOverflow))
    ));
    assert!(matches!(i32::from_text("-2147483648"), Ok(i32::MIN)));
    assert!(matches!(u8::from_text("-1"), Err(BoxedError::ParseInt(IntErrorKind::InvalidDigit))));
}

#[test]
fn booleans_are_true_and_false_exactly() {
    assert!(matches!(bool::from_text("true"), Ok(true)));
    assert!(matches!(bool::from_text("false"), Ok(false)));
    for input in ["", "True", "TRUE", "1", "0", "yes", " true", "true ", "falsee"] {
        assert!(matches!(bool::from_text(input), Err(BoxedError::ParseBool)), "input {input:?}");
        assert!(input.parse::<bool>().is_err());
    }
}

#[test]
fn text_is_read_as_it_is() {
    assert_eq!(String::from_text("").unwrap(), "");
    assert_eq!(String::from_text("  héllo\n").unwrap(), "  héllo\n");
}

#[test]
fn labels_name_the_types() {
    assert_eq!(i8::label(), "i8");
    assert_eq!(i16::label(), "i16");
    assert_eq!(i32::label(), "i32");
    assert_eq!(i64::label(), "i64");
    assert_eq!(isize::label(), "isize");
    assert_eq!(u8::label(), "u8");
    assert_eq!(u16::label(), "u16");
    assert_eq!(u32::label(), "u32");
    assert_eq!(u64::label(), "u64");
    assert_eq!(usize::label(), "usize");
    assert_eq!(i128::label(), "i128");
    assert_eq!(u128::label(), "u128");
    assert_eq!(char::label(), "char");
    assert_eq!(bool::label(), "bool");
    assert_eq!(String::label(), "alloc::string::String");
}

#[test]
fn what_is_written_in_decimal_is_read_back() {
    for n in [0usize, 1, 9, 10, 99, 100, 65535, 4294967295, usize::MAX] {
        let text = mkenv::text::decimal_string(n);
        assert_eq!(usize::from_text(&text).unwrap(), n);
    }
    for n in 0..=255usize {
        let text = mkenv::text::decimal_string(n);
        assert_eq!(u8::from_text(&text).unwrap() as usize, n);
    }
    assert!(u8::from_text(&mkenv::text::decimal_string(256)).is_err());
}

/// A short text over the characters that matter to the notation of
/// integers, chosen by a linear congruential generator.
fn next_text(state: &mut u64) -> String {
    const ALPHABET: &[u8] = b"0123456789+-0129 x";
    let mut step = || {
        *state = state.wrapping_mul(6364136223846793005).wrapping_add(1442695040888963407);
        (*state >> 33) as usize
    };
    let len = step() % 24;
    (0..len).map(|_| ALPHABET[step() % ALPHABET.len()] as char).collect()
}

#[test]
fn generated_texts_are_read_as_the_standard_conversion_reads_them() {
    let mut state = 0x5eed;
    for _ in 0..20000 {
        let input = next_text(&mut state);
        check::<i8>(&input);
        check::<u8>(&input);
        check::<i16>(&input);
        check::<u16>(&input);
        check::<i32>(&input);
        check::<u32>(&input);
        check::<i64>(&input);
        check::<u64>(&input);
        check::<isize>(&input);
        check::<usize>(&input);
        check::<i128>(&input);
        check::<u128>(&input);
    }
}

#[test]
fn generated_long_texts_are_read_as_the_standard_conversion_reads_them() {
    let mut state = 0xfeed;
    for _ in 0..5000 {
        let input = format!("{}{}", next_text(&mut state), next_text(&mut state));
        check::<i128>(&input);
        check::<u128>(&input);
        check::<i64>(&input);
    }
}
