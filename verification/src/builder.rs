//! Module containing the [`LayerExt`] utility trait.

use vstd::prelude::*;
use crate::error::BoxedError;
use crate::from_text::FromText;
use crate::layer::Layer;
use crate::layers::or_default::FromDefault;
use crate::layers::parsed::FromStrFn;
use crate::layers::{Cached, FileRead, OrDefault, Parsed};

verus! {

/// Utility trait for building configuration value types.
///
/// Each method wraps the configuration value in one more layer.
pub trait LayerExt: Sized {
    /// Marks the configuration value to be cached. The cache starts empty.
    fn cached(self) -> (layer: Cached<Self>) where Self: Layer
        ensures
            layer.var == self,
            layer.cached is None,
    {
        Cached { var: self, cached: None }
    }

    /// Marks the configuration value to be read from a file.
    fn file_read(self) -> (layer: FileRead<Self>)
        ensures
            layer.var == self,
    {
        FileRead { var: self }
    }

    /// Marks the configuration value to be parsed, using the provided
    /// function, which can be called on every text.
    fn parsed<T, F>(self, parse_fn: F) -> (layer: Parsed<T, Self, F>) where
        Self: Layer,
        F: Fn(&str) -> Result<T, BoxedError>,

        requires
            forall|text: &str| call_requires(parse_fn, (text,)),
        ensures
            layer.var() == self,
            layer.parse_fn() == parse_fn,
    {
        Parsed::new(self, parse_fn)
    }

    /// Marks the configuration value to be parsed, using the standard
    /// conversion of `T` from text.
    ///
    /// The types with a standard conversion are the integers (`i8`, `i16`,
    /// `i32`, `i64`, `i128`, `isize`, `u8`, `u16`, `u32`, `u64`, `u128`,
    /// `usize`), `bool`, `char` and `String`, and every type for which its
    /// crate implements [`FromText`]. For any other type, give
    /// [`parsed`](LayerExt::parsed) the function that converts it.
    fn parsed_from_str<T: FromText>(self) -> (layer: Parsed<T, Self, FromStrFn<T>>) where
        Self: Layer,

        ensures
            layer.var() == self,
    {
        Parsed::new(self, FromStrFn::new())
    }

    /// Marks the configuration value to fallback to a default value on read, using the provided
    /// function, which can be called.
    fn or_default_val<F>(self, default_fn: F) -> (layer: OrDefault<Self, F>) where
        Self: Layer,
        F: Fn() -> <Self as Layer>::Output,

        requires
            call_requires(default_fn, ()),
        ensures
            layer.var() == self,
            layer.default_fn() == default_fn,
    {
        OrDefault::new(self, default_fn)
    }

    /// Marks the configuration value to fallback to the default value of the output on read.
    fn or_default(self) -> (layer: OrDefault<Self, FromDefault>) where
        Self: Layer,
        <Self as Layer>::Output: Default,

        ensures
            layer.var() == self,
    {
        OrDefault::new(self, FromDefault)
    }
}

impl<T: Layer> LayerExt for T {
}

} // verus!
