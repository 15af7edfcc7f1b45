use mkenv::prelude::{
    ConfigInitializer, Environment, Layer, LayerExt, TextVar,
};

#[test]
fn a_configuration_is_declared_and_read() {
    let mut env = Environment::new();
    env.set_var("PORT", "8080");

    let port = TextVar::from_var_name("PORT")
        .description("The port to listen on")
        .parsed_from_str::<u16>();
    let workers = TextVar::from_var_name("WORKERS").parsed_from_str::<u32>().or_default();

    let mut config = (port, (workers, ()));
    assert!(config.try_init(&env).is_ok());
    assert_eq!(config.0.try_get(&env).ok(), Some(8080));
    assert_eq!(config.1 .0.try_get(&env).ok(), Some(0));

    env.remove_var("PORT");
    let report = config.try_init(&env).unwrap_err().to_string();
    assert_eq!(
        report,
        "Error during configuration initialization:\n\
         Got 1 incorrect variable\n\
         - `PORT`: environment variable not found\n\
         Got 1 valid variable\n\
         - `WORKERS`\n\
         Full required environment description:\n\
         - `PORT`: The port to listen on\n\
         - `WORKERS`\n"
    );
}
