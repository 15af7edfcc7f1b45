use mkenv::descriptor::VarDescriptor;
use mkenv::environment::Environment;
use mkenv::error::{BoxedError, ConfigInitError, IntErrorKind, ReadVarError, VarError};
use mkenv::exec::{fmt_exec_results, init_result, ConfigInitializer, ExecResult};
use mkenv::layers::or_default::FromDefault;
use mkenv::layers::parsed::FromStrFn;
use mkenv::layers::{Cached, FileRead, OrDefault, Parsed, TextVar};
use mkenv::{LayerExt, Render};

fn with_env(defs: &[(&str, &str)]) -> Environment {
    let mut env = Environment::new();
    for (key, value) in defs {
        env.set_var(key, value);
    }
    env
}

fn names(results: &[ExecResult<'_>]) -> Vec<&'static str> {
    results.iter().map(|res| res.config.var_name).collect()
}

type CachedNumber = Cached<OrDefault<Parsed<i32, TextVar, FromStrFn<i32>>, FromDefault>>;

type TestConfig = (TextVar, (TextVar, (CachedNumber, ())));

fn define_test_config() -> TestConfig {
    (
        TextVar::from_var_name("VAR_A"),
        (
            TextVar::from_var_name("VAR_B"),
            (
                TextVar::from_var_name("VAR_C")
                    .description("hello")
                    .parsed_from_str::<i32>()
                    .or_default()
                    .cached(),
                (),
            ),
        ),
    )
}

#[test]
fn assert_result_iter_coherent_no_flattening() {
    let mut config = define_test_config();
    let res = config.init_raw(&with_env(&[]));

    assert_eq!(names(&res), ["VAR_A", "VAR_B", "VAR_C"]);
}

type Foo = (TextVar, (TextVar, ()));

type Bar = (Foo, (TextVar, (TextVar, ())));

fn define_foo() -> Foo {
    (TextVar::from_var_name("VAR_A"), (TextVar::from_var_name("VAR_B"), ()))
}

fn define_bar() -> Bar {
    (define_foo(), (TextVar::from_var_name("VAR_C"), (TextVar::from_var_name("VAR_D"), ())))
}

#[test]
fn assert_result_iter_coherent_with_flattening() {
    let mut config = define_bar();
    let res = config.init_raw(&with_env(&[]));

    assert_eq!(names(&res), ["VAR_A", "VAR_B", "VAR_C", "VAR_D"]);
}

#[test]
fn a_nested_configuration_stands_where_it_is_declared() {
    let mut config = (
        TextVar::from_var_name("FIRST"),
        (define_foo(), (TextVar::from_var_name("MIDDLE"), (define_foo(), ()))),
    );
    let res = config.init_raw(&with_env(&[]));
    assert_eq!(names(&res), ["FIRST", "VAR_A", "VAR_B", "MIDDLE", "VAR_A", "VAR_B"]);
}

#[test]
fn every_value_is_read_whatever_the_reads_before_it_gave() {
    let mut config = define_bar();
    let env = with_env(&[("VAR_B", "b"), ("VAR_D", "d")]);
    let res = config.init_raw(&env);
    let failed: Vec<bool> = res.iter().map(|r| r.error.is_some()).collect();
    assert_eq!(failed, [true, false, true, false]);
    assert!(matches!(res[0].error, Some(BoxedError::Var(VarError::NotPresent))));
    assert!(matches!(res[2].error, Some(BoxedError::Var(VarError::NotPresent))));
}

#[test]
fn the_empty_configuration_has_no_result() {
    let mut config = ();
    assert!(config.init_raw(&with_env(&[])).is_empty());
    assert!(config.try_init(&with_env(&[])).is_ok());
    config.init(&with_env(&[]));
}

#[test]
fn a_read_of_the_configuration_fills_the_caches() {
    let mut config = define_test_config();
    let res = config.init_raw(&with_env(&[("VAR_C", "5")]));
    assert!(res[2].error.is_none());
    let cached = &mut config.1 .1 .0;
    assert_eq!(*cached.get(&with_env(&[("VAR_C", "6")])), 5);
}

#[test]
fn try_init_succeeds_when_every_value_is_there() {
    let mut config = define_bar();
    let env = with_env(&[("VAR_A", "a"), ("VAR_B", "b"), ("VAR_C", "c"), ("VAR_D", "d")]);
    assert!(config.try_init(&env).is_ok());
    config.init(&env);
}

#[test]
fn try_init_reports_every_value_that_is_not_there() {
    let mut config = define_bar();
    let env = with_env(&[("VAR_B", "b"), ("VAR_C", "c")]);
    let err = config.try_init(&env).unwrap_err();
    assert_eq!(
        err.to_string(),
        "Error during configuration initialization:\n\
         Got 2 incorrect variables\n\
         - `VAR_A`: environment variable not found\n\
         - `VAR_D`: environment variable not found\n\
         Got 2 valid variables\n\
         - `VAR_B`\n\
         - `VAR_C`\n\
         Full required environment description:\n\
         - `VAR_A`\n\
         - `VAR_D`\n\
         - `VAR_B`\n\
         - `VAR_C`\n"
    );
    assert_eq!(err.render(), err.to_string());
}

fn descriptor(var_name: &'static str) -> VarDescriptor {
    VarDescriptor { var_name, description: None, default_val_fmt: None }
}

#[test]
fn report_with_one_valid_variable_is_singular() {
    let a = descriptor("A");
    let res = fmt_exec_results(vec![ExecResult { config: &a, error: None }]);
    assert!(res.is_ok());
    assert_eq!(
        res.to_string(),
        "Got 0 incorrect variable\n\
         Got 1 valid variable\n\
         - `A`\n\
         Full required environment description:\n\
         - `A`\n"
    );
}

#[test]
fn report_with_two_incorrect_variables_is_plural() {
    let a = descriptor("A");
    let b = descriptor("B");
    let res = fmt_exec_results(vec![
        ExecResult { config: &a, error: Some(BoxedError::Var(VarError::NotPresent)) },
        ExecResult { config: &b, error: Some(BoxedError::ParseInt(IntErrorKind::InvalidDigit)) },
    ]);
    assert!(!res.is_ok());
    assert_eq!(
        res.to_string(),
        "Got 2 incorrect variables\n\
         - `A`: environment variable not found\n\
         - `B`: invalid digit found in string\n\
         Got 0 valid variable\n\
         Full required environment description:\n\
         - `A`\n\
         - `B`\n"
    );
}

#[test]
fn report_of_nothing() {
    let res = fmt_exec_results(vec![]);
    assert_eq!(
        res.to_string(),
        "Got 0 incorrect variable\nGot 0 valid variable\nFull required environment description:\n"
    );
    assert_eq!(res.render(), res.to_string());
}

#[test]
fn report_lists_the_incorrect_then_the_valid_in_the_order_of_the_reads() {
    let url = VarDescriptor {
        var_name: "DB_URL",
        description: Some("The URL to the database"),
        default_val_fmt: None,
    };
    let port = VarDescriptor {
        var_name: "PORT",
        description: Some("The port to listen on"),
        default_val_fmt: Some("8080"),
    };
    let user = descriptor("USER");
    let key = VarDescriptor { var_name: "KEY", description: None, default_val_fmt: Some("none") };
    let res = fmt_exec_results(vec![
        ExecResult { config: &url, error: None },
        ExecResult { config: &port, error: Some(BoxedError::msg("out of range")) },
        ExecResult { config: &user, error: None },
        ExecResult { config: &key, error: Some(BoxedError::Var(VarError::NotPresent)) },
    ]);
    let correct: Vec<&str> = res.correct_vars.iter().map(|d| d.var_name).collect();
    let incorrect: Vec<&str> = res.incorrect_vars.iter().map(|r| r.config.var_name).collect();
    assert_eq!(correct, ["DB_URL", "USER"]);
    assert_eq!(incorrect, ["PORT", "KEY"]);
    assert_eq!(
        res.to_string(),
        "Got 2 incorrect variables\n\
         - `PORT`: out of range\n\
         - `KEY`: environment variable not found\n\
         Got 2 valid variables\n\
         - `DB_URL`\n\
         - `USER`\n\
         Full required environment description:\n\
         - `PORT`: The port to listen on (default: 8080)\n\
         - `KEY` (default: none)\n\
         - `DB_URL`: The URL to the database\n\
         - `USER`\n"
    );
}

#[test]
fn report_counts_are_written_in_decimal() {
    let a = descriptor("A");
    let results: Vec<ExecResult<'_>> =
        (0..12).map(|_| ExecResult { config: &a, error: None }).collect();
    let text = fmt_exec_results(results).to_string();
    assert!(text.starts_with("Got 0 incorrect variable\nGot 12 valid variables\n- `A`\n"));
}

#[test]
fn init_result_fails_exactly_if_a_read_failed() {
    let a = descriptor("A");
    assert!(init_result(vec![]).is_ok());
    assert!(init_result(vec![ExecResult { config: &a, error: None }]).is_ok());
    let err: ConfigInitError<'_> = init_result(vec![
        ExecResult { config: &a, error: None },
        ExecResult { config: &a, error: Some(BoxedError::ParseBool) },
    ])
    .unwrap_err();
    assert_eq!(err.error.correct_vars.len(), 1);
    assert_eq!(err.error.incorrect_vars.len(), 1);
    assert!(matches!(err.error.incorrect_vars[0].error, BoxedError::ParseBool));
}

#[test]
fn from_result_keeps_the_descriptor_and_boxes_the_error() {
    let a = descriptor("A");
    let ok: Result<u8, ReadVarError> = Ok(1);
    let res = ExecResult::from_result(&a, ok);
    assert_eq!(res.config.var_name, "A");
    assert!(res.error.is_none());

    let failed: Result<u8, ReadVarError> = Err(ReadVarError::Var(VarError::NotPresent));
    let res = ExecResult::from_result(&a, failed);
    assert!(matches!(res.error, Some(BoxedError::Var(VarError::NotPresent))));

    let failed: Result<u8, ReadVarError> = Err(ReadVarError::Other(BoxedError::ParseBool));
    let res = ExecResult::from_result(&a, failed);
    assert!(matches!(res.error, Some(BoxedError::ParseBool)));
}

#[test]
fn from_config_reads_the_value_once() {
    let var = TextVar::from_var_name("N").description("a number").parsed_from_str::<u8>();
    let res = ExecResult::from_config(&var, &with_env(&[("N", "300")]));
    assert_eq!(res.config.to_string(), "`N`: a number");
    assert_eq!(
        res.error.unwrap().to_string(),
        "parse error: number too large to fit in target type"
    );
    let res = ExecResult::from_config(&var, &with_env(&[("N", "30")]));
    assert!(res.error.is_none());
}

#[test]
fn from_config_of_a_defaulted_value_never_fails() {
    let var = TextVar::from_var_name("N").parsed_from_str::<u8>().or_default_val(|| 1);
    assert!(ExecResult::from_config(&var, &with_env(&[])).error.is_none());
    assert!(ExecResult::from_config(&var, &with_env(&[("N", "x")])).error.is_none());
}

#[test]
fn from_cached_reports_the_cached_error_by_its_message() {
    let mut cached = TextVar::from_var_name("N").parsed_from_str::<u8>().cached();
    let res = ExecResult::from_cached(&mut cached, &with_env(&[("N", "x")]));
    assert_eq!(res.config.var_name, "N");
    match res.error {
        Some(BoxedError::Message(m)) => {
            assert_eq!(m, "parse error: invalid digit found in string")
        }
        other => panic!("unexpected error: {other:?}"),
    }
    let res = ExecResult::from_cached(&mut cached, &with_env(&[("N", "1")]));
    assert!(res.error.is_some());
}

type Secret = FileRead<TextVar>;

#[test]
fn a_file_that_cannot_be_read_is_reported_with_its_variable() {
    let secret: Secret = TextVar::from_var_name("SECRET_FILE").file_read();
    let mut config = (secret, (TextVar::from_var_name("USER"), ()));
    let mut env = with_env(&[("SECRET_FILE", "/run/secret"), ("USER", "me")]);
    env.set_file_error(
        "/run/secret",
        mkenv::error::IoErrorKind::NotFound,
        "No such file or directory (os error 2)",
    );
    let err = config.try_init(&env).unwrap_err();
    assert_eq!(
        err.to_string(),
        "Error during configuration initialization:\n\
         Got 1 incorrect variable\n\
         - `SECRET_FILE`: No such file or directory (os error 2)\n\
         Got 1 valid variable\n\
         - `USER`\n\
         Full required environment description:\n\
         - `SECRET_FILE`\n\
         - `USER`\n"
    );
}
