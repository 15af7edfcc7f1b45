//! Module containing configuration value types.
//!
//! Configuration value types are the base reader, which reads one named
//! variable, and the layers that wrap a reader and add one behaviour.

pub mod cached;
pub mod file_read;
pub mod or_default;
pub mod parsed;
pub mod text_var;

pub use cached::Cached;
pub use file_read::FileRead;
pub use or_default::OrDefault;
pub use parsed::Parsed;
pub use text_var::TextVar;
