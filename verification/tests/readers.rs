use std::time::Duration;

use mkenv::environment::Environment;
use mkenv::error::{BoxedError, CachedError, IntErrorKind, ReadVarError, VarError};
use mkenv::layers::TextVar;
use mkenv::{Layer, LayerExt};

/// An environment that holds the given variables and nothing else.
fn with_env(defs: &[(&str, &str)]) -> Environment {
    let mut env = Environment::new();
    for (key, value) in defs {
        env.set_var(key, value);
    }
    env
}

#[test]
fn assert_unset() {
    const VAR_NAME: &str = "__TEST_UNSET_VAR";
    let mut cached = TextVar::from_var_name(VAR_NAME).cached();

    let res = cached.try_get(&with_env(&[]));
    assert!(matches!(res, Err(CachedError(ReadVarError::Var(VarError::NotPresent)))));

    let res = cached.try_get(&with_env(&[(VAR_NAME, "random value")]));
    assert!(matches!(res, Err(CachedError(ReadVarError::Var(VarError::NotPresent)))));
}

#[test]
fn assert_cached_inner_error() {
    const VAR_NAME: &str = "__TEST_CACHED_INNER_ERROR";
    let mut cached = TextVar::from_var_name(VAR_NAME).parsed_from_str::<u32>().cached();

    let res = cached.try_get(&with_env(&[(VAR_NAME, "foobar")]));
    assert!(matches!(res, Err(CachedError(ReadVarError::Other(_)))));

    let res = cached.try_get(&with_env(&[(VAR_NAME, "3")]));
    assert!(matches!(res, Err(CachedError(ReadVarError::Other(_)))));
}

#[test]
fn assert_cached_val() {
    const VAR_NAME: &str = "__TEST_CACHED_VALUE";
    let mut cached = TextVar::from_var_name(VAR_NAME).cached();

    let res = cached.try_get(&with_env(&[(VAR_NAME, "foo")]));
    assert!(matches!(res.map(|s| s.as_str()), Ok("foo")));

    let res = cached.try_get(&with_env(&[(VAR_NAME, "bar")]));
    assert!(matches!(res.map(|s| s.as_str()), Ok("foo")));
}

#[test]
fn assert_default_val() {
    const VAR_NAME: &str = "__TEST_DEFAULT_VAL";

    let config = TextVar::from_var_name(VAR_NAME).or_default_val(|| "hello".to_owned());

    let Ok(res) = config.try_get(&with_env(&[]));
    assert_eq!(res, "hello");
}

#[test]
fn assert_non_default_val() {
    const VAR_NAME: &str = "__TEST_NON_DEFAULT_VAL";

    let config = TextVar::from_var_name(VAR_NAME).or_default_val(|| "hello".to_owned());

    let Ok(res) = config.try_get(&with_env(&[(VAR_NAME, "hi")]));
    assert_eq!(res, "hi");
}

#[test]
fn assert_parse_success() {
    const VAR_NAME: &str = "__TEST_PARSE_SUCCESS";

    let config = TextVar::from_var_name(VAR_NAME).parsed_from_str::<i32>();

    let res = config.try_get(&with_env(&[(VAR_NAME, "30")]));
    assert!(matches!(res, Ok(30)));
}

#[test]
fn assert_parse_fail() {
    const VAR_NAME: &str = "__TEST_PARSE_FAIL";

    let config = TextVar::from_var_name(VAR_NAME).parsed_from_str::<i32>();

    fn is_parse_error(e: &BoxedError) -> bool {
        match e {
            BoxedError::Parse(e) => {
                matches!(e.source(), BoxedError::ParseInt(IntErrorKind::InvalidDigit))
            }
            _ => false,
        }
    }

    let res = config.try_get(&with_env(&[(VAR_NAME, "foobar")]));
    assert!(matches!(res, Err(ReadVarError::Other(e)) if is_parse_error(&e)));
}

#[test]
fn assert_custom_parse_success() {
    const VAR_NAME: &str = "__TEST_CUSTOM_PARSE_SUCCESS";

    let config = TextVar::from_var_name(VAR_NAME).parsed(|input: &str| {
        input
            .parse::<u64>()
            .map(|n| Duration::from_millis(n))
            .map_err(|e| BoxedError::msg(&e.to_string()))
    });

    let res = config.try_get(&with_env(&[(VAR_NAME, "250")]));
    assert!(matches!(res, Ok(d) if d.as_millis() == 250));
}
