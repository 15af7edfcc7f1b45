//! Utility module importing the most relevant types and traits.

pub use crate::builder::LayerExt;
pub use crate::descriptor::{ConfigDescriptor, ConfigValueDescriptor};
pub use crate::environment::Environment;
pub use crate::exec::ConfigInitializer;
pub use crate::layer::Layer;
pub use crate::layers::{Cached, FileRead, OrDefault, Parsed, TextVar};
pub use crate::text::Render;
