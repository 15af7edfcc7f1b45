use mkenv::error::{
    BoxedError, CachedError, CharErrorKind, FileReadError, IntErrorKind, IntoBoxedError, IoError, IoErrorKind,
    ParseError, ReadVarError, VarError,
};
use mkenv::Render;

#[test]
fn var_error_messages() {
    assert_eq!(VarError::NotPresent.to_string(), "environment variable not found");
    assert_eq!(
        VarError::NotUnicode("\"\\xFF\"".to_owned()).to_string(),
        "environment variable was not valid unicode: \"\\xFF\""
    );
    assert_eq!(VarError::NotPresent.render(), "environment variable not found");
}

#[test]
fn var_errors_compare_by_kind_and_payload() {
    assert!(VarError::NotPresent == VarError::NotPresent);
    assert!(VarError::NotUnicode("a".to_owned()) == VarError::NotUnicode("a".to_owned()));
    assert!(VarError::NotUnicode("a".to_owned()) != VarError::NotUnicode("b".to_owned()));
    assert!(VarError::NotPresent != VarError::NotUnicode(String::new()));
    assert!(VarError::NotUnicode("a".to_owned()).duplicate() == VarError::NotUnicode("a".to_owned()));
    assert!(VarError::NotPresent.duplicate() == VarError::NotPresent);
}

#[test]
fn int_error_messages() {
    assert_eq!(IntErrorKind::Empty.to_string(), "cannot parse integer from empty string");
    assert_eq!(IntErrorKind::InvalidDigit.to_string(), "invalid digit found in string");
    assert_eq!(IntErrorKind::PosOverflow.to_string(), "number too large to fit in target type");
    assert_eq!(IntErrorKind::NegOverflow.to_string(), "number too small to fit in target type");
    assert_eq!(IntErrorKind::Empty.render(), "cannot parse integer from empty string");
}

#[test]
fn int_error_messages_are_those_of_the_standard_conversion() {
    assert_eq!(IntErrorKind::Empty.to_string(), "".parse::<i32>().unwrap_err().to_string());
    assert_eq!(IntErrorKind::InvalidDigit.to_string(), "x".parse::<i32>().unwrap_err().to_string());
    assert_eq!(
        IntErrorKind::PosOverflow.to_string(),
        "99999999999".parse::<i32>().unwrap_err().to_string()
    );
    assert_eq!(
        IntErrorKind::NegOverflow.to_string(),
        "-99999999999".parse::<i32>().unwrap_err().to_string()
    );
    assert_eq!(BoxedError::ParseBool.to_string(), "x".parse::<bool>().unwrap_err().to_string());
}

fn not_found() -> IoError {
    IoError {
        kind: IoErrorKind::NotFound,
        message: "No such file or directory (os error 2)".to_owned(),
    }
}

#[test]
fn boxed_error_messages() {
    assert_eq!(
        BoxedError::Var(VarError::NotPresent).to_string(),
        "environment variable not found"
    );
    assert_eq!(
        BoxedError::FileRead(FileReadError { var_name: "F", cause: not_found() }).to_string(),
        "No such file or directory (os error 2)"
    );
    assert_eq!(
        BoxedError::ParseInt(IntErrorKind::InvalidDigit).to_string(),
        "invalid digit found in string"
    );
    assert_eq!(BoxedError::ParseBool.to_string(), "provided string was not `true` or `false`");
    assert_eq!(
        BoxedError::ParseChar(CharErrorKind::EmptyString).to_string(),
        "cannot parse char from empty string"
    );
    assert_eq!(
        BoxedError::ParseChar(CharErrorKind::TooManyChars).to_string(),
        "too many characters in string"
    );
    assert_eq!(CharErrorKind::TooManyChars.render(), "too many characters in string");
    assert_eq!(BoxedError::msg("this is bad").to_string(), "this is bad");
    assert_eq!(BoxedError::Message(String::new()).to_string(), "");
    assert_eq!(BoxedError::msg("shown").render(), "shown");
}

#[test]
fn parse_error_message_is_prefixed_and_chained() {
    let inner = ParseError { source: BoxedError::msg("this is bad") };
    assert_eq!(inner.to_string(), "parse error: this is bad");
    assert_eq!(inner.render(), "parse error: this is bad");
    assert_eq!(inner.source().to_string(), "this is bad");

    let nested = BoxedError::Parse(Box::new(ParseError {
        source: BoxedError::Parse(Box::new(ParseError {
            source: BoxedError::ParseInt(IntErrorKind::Empty),
        })),
    }));
    assert_eq!(
        nested.to_string(),
        "parse error: parse error: cannot parse integer from empty string"
    );
    let cause = nested.source().unwrap();
    assert_eq!(cause.to_string(), "parse error: cannot parse integer from empty string");
    assert!(matches!(
        cause.source(),
        Some(BoxedError::ParseInt(IntErrorKind::Empty))
    ));
    assert!(BoxedError::ParseBool.source().is_none());
    assert!(BoxedError::msg("leaf").source().is_none());
}

#[test]
fn io_error_is_shown_by_its_message_and_copied_whole() {
    let e = not_found();
    assert_eq!(e.render(), "No such file or directory (os error 2)");
    let copy = e.duplicate();
    assert_eq!(copy.kind, IoErrorKind::NotFound);
    assert_eq!(copy.message, e.message);
    let file = FileReadError { var_name: "F", cause: e };
    assert_eq!(file.render(), "No such file or directory (os error 2)");
}

#[test]
fn read_var_error_messages_are_those_of_what_they_hold() {
    assert_eq!(
        ReadVarError::Var(VarError::NotPresent).to_string(),
        "environment variable not found"
    );
    assert_eq!(ReadVarError::Other(BoxedError::msg("custom")).to_string(), "custom");
    assert_eq!(ReadVarError::Other(BoxedError::msg("custom")).render(), "custom");
}

#[test]
fn read_var_errors_of_a_layer_are_all_equal() {
    let a = ReadVarError::Other(BoxedError::msg("a"));
    let b = ReadVarError::Other(BoxedError::ParseInt(IntErrorKind::Empty));
    assert!(a == b);
    assert!(ReadVarError::Var(VarError::NotPresent) == ReadVarError::Var(VarError::NotPresent));
    assert!(
        ReadVarError::Var(VarError::NotPresent)
            != ReadVarError::Var(VarError::NotUnicode("x".to_owned()))
    );
    assert!(ReadVarError::Var(VarError::NotPresent) != a);
    assert!(a != ReadVarError::Var(VarError::NotPresent));
}

#[test]
fn read_var_errors_of_a_kind_are_equal_whatever_they_hold() {
    let a = ReadVarError::Var(VarError::NotUnicode("a".to_owned()));
    let b = ReadVarError::Var(VarError::NotUnicode("b".to_owned()));
    assert!(a == b);
    assert!(b == a);
    assert!(a == a);
    assert!(CachedError(&a) == CachedError(&b));
    let missing = ReadVarError::Var(VarError::NotPresent);
    assert!(missing != a);
    assert!(a != missing);
    assert!(CachedError(&missing) != CachedError(&a));
    let parse = ReadVarError::Other(BoxedError::ParseBool);
    let file = ReadVarError::Other(BoxedError::FileRead(FileReadError {
        var_name: "F",
        cause: not_found(),
    }));
    assert!(parse == file);
    assert!(file == parse);
    assert!(a != parse);
    assert!(parse != a);
}

#[test]
fn var_errors_tell_their_kind() {
    let a = VarError::NotUnicode("a".to_owned());
    let b = VarError::NotUnicode("b".to_owned());
    assert!(a.is_same_kind(&b));
    assert!(VarError::NotPresent.is_same_kind(&VarError::NotPresent));
    assert!(!VarError::NotPresent.is_same_kind(&a));
    assert!(!a.is_same_kind(&VarError::NotPresent));
    assert!(a != b);
}

#[test]
fn read_var_error_is_boxed_with_its_message() {
    let boxed = ReadVarError::Var(VarError::NotPresent).into_boxed();
    assert!(matches!(boxed, BoxedError::Var(VarError::NotPresent)));
    let boxed = ReadVarError::Other(BoxedError::ParseBool).into_boxed();
    assert!(matches!(boxed, BoxedError::ParseBool));
}

#[test]
fn cached_error_is_shown_and_boxed_by_the_message_of_the_error() {
    let inner = ReadVarError::Other(BoxedError::Parse(Box::new(ParseError {
        source: BoxedError::ParseInt(IntErrorKind::InvalidDigit),
    })));
    let cached = CachedError(&inner);
    assert_eq!(cached.render(), "parse error: invalid digit found in string");
    match cached.into_boxed() {
        BoxedError::Message(m) => assert_eq!(m, "parse error: invalid digit found in string"),
        other => panic!("unexpected error: {other:?}"),
    }
}
