//! Declarations of configuration read from named environment inputs.
//!
//! A configuration value is described by a chain of layers over a base
//! reader: the base reads one named variable, and each layer adds one
//! behaviour (file indirection, parsing, defaulting, caching). A whole
//! configuration is read in one pass, and every missing or invalid input is
//! reported together.
//!
//! The environment is passed in as a value, so every read is a function of
//! the reader and of the environment it is given.
//!
//! ```
//! use mkenv::prelude::*;
//!
//! let mut env = Environment::new();
//! env.set_var("PORT", "8080");
//!
//! let port = TextVar::from_var_name("PORT")
//!     .description("The port to listen on")
//!     .parsed_from_str::<u16>();
//! let workers = TextVar::from_var_name("WORKERS").parsed_from_str::<u32>().or_default();
//!
//! // A configuration is a value alone, or a pair of configurations.
//! let mut config = (port, (workers, ()));
//! assert!(config.try_init(&env).is_ok());
//! assert_eq!(config.0.try_get(&env).ok(), Some(8080));
//! ```
//!
//! # Layers
//!
//! * [`layers::TextVar`] reads the text of one variable.
//! * [`layers::FileRead`] reads the file whose path the inner value gives.
//! * [`layers::Parsed`] converts the text of the inner value.
//! * [`layers::OrDefault`] replaces any failure of the inner value by a
//!   fallback, so that its read never fails.
//! * [`layers::Cached`] keeps the result of the first read of the inner
//!   value and hands it out ever after.
//!
//! # Reading in verified code
//!
//! What a read may give is stated by [`Layer::outcome`]. For the text of a
//! variable and for the layers over named conversions
//! ([`LayerExt::parsed_from_str`], [`LayerExt::or_default`], or any type
//! that implements [`layers::parsed::ParseFn`] or
//! [`layers::or_default::DefaultFn`]) a caller unfolds it down to the
//! environment without help.
//!
//! Through the type of a closure or of a function the verifier does not
//! unfold the definitions of a layer. Where a layer holds one:
//!
//! * for a parsed value, call [`layers::parsed::lemma_parsed_outcome`] for
//!   the layer, the environment and the result at hand, and
//!   [`layers::parsed::lemma_closure_parses`] for the function, and take the
//!   value out of the result with a `match`;
//! * for a value with a default, read it with
//!   [`layers::OrDefault::get_or_default`], which hands the value out by
//!   itself, and call [`layers::or_default::lemma_closure_produces`] for
//!   the producer.

pub mod builder;
pub mod descriptor;
pub mod environment;
pub mod error;
pub mod exec;
pub mod from_text;
pub mod imp;
pub mod layer;
pub mod layers;
pub mod prelude;
pub mod text;

pub use builder::LayerExt;
pub use descriptor::{ConfigDescriptor, ConfigValueDescriptor, VarDescriptor};
pub use imp::{
    CapturedVars, Env, EnvError, EnvResidual, EnvSplitIncluded, EnvVar, Error, FmtReqEnv, WithVars,
};
pub use layer::Layer;
pub use text::Render;
