//! Module containing everything related to the [`Parsed`] configuration value type.

use core::marker::PhantomData;
use vstd::prelude::*;
use crate::descriptor::{ConfigValueDescriptor, VarDescriptor};
use crate::environment::Environment;
use crate::error::{BoxedError, ParseError, ReadVarError};
use crate::from_text::FromText;
use crate::layer::Layer;

verus! {

/// A parsing function: a conversion from text to a value of type `T`.
///
/// Every function from `&str` to `Result<T, BoxedError>` is one.
pub trait ParseFn<T> {
    /// Whether the function can be called on `input`.
    spec fn accepts(&self, input: Seq<char>) -> bool;

    /// Whether the function may return `r` for `input`.
    spec fn converts(&self, input: Seq<char>, r: Result<T, BoxedError>) -> bool;

    /// Converts `input`.
    fn parse(&self, input: &str) -> (r: Result<T, BoxedError>)
        requires
            self.accepts(input@),
        ensures
            self.converts(input@, r),
    ;
}

impl<T, F: Fn(&str) -> Result<T, BoxedError>> ParseFn<T> for F {
    open spec fn accepts(&self, input: Seq<char>) -> bool {
        forall|text: &str| text@ == input ==> call_requires(*self, (text,))
    }

    open spec fn converts(&self, input: Seq<char>, r: Result<T, BoxedError>) -> bool {
        exists|text: &str| text@ == input && call_ensures(*self, (text,), r)
    }

    fn parse(&self, input: &str) -> (r: Result<T, BoxedError>) {
        self(input)
    }
}

/// The parsing function that is the standard conversion of `T` from text.
#[derive(Debug)]
pub struct FromStrFn<T> {
    marker: PhantomData<T>,
}

impl<T> FromStrFn<T> {
    /// The standard conversion of `T` from text.
    pub fn new() -> Self {
        FromStrFn { marker: PhantomData }
    }
}

impl<T: FromText> ParseFn<T> for FromStrFn<T> {
    open spec fn accepts(&self, input: Seq<char>) -> bool {
        true
    }

    open spec fn converts(&self, input: Seq<char>, r: Result<T, BoxedError>) -> bool {
        T::parses(input, r)
    }

    fn parse(&self, input: &str) -> (r: Result<T, BoxedError>) {
        T::from_text(input)
    }
}

/// A configuration value that parses the content of the inner configuration value to `T`.
///
/// The parsing function it holds can be called on every text.
#[derive(Debug)]
pub struct Parsed<T, V, F: ParseFn<T>> {
    var: V,
    parse_fn: F,
    marker: PhantomData<T>,
}

impl<T, V, F: ParseFn<T>> Parsed<T, V, F> {
    #[verifier::type_invariant]
    spec fn accepts_every_text(&self) -> bool {
        forall|input: Seq<char>| self.parse_fn.accepts(input)
    }

    /// The inner configuration value.
    pub closed spec fn var(&self) -> V {
        self.var
    }

    /// The parsing function.
    pub closed spec fn parse_fn(&self) -> F {
        self.parse_fn
    }

    /// Returns the inner configuration value.
    pub fn inner(&self) -> (var: &V)
        ensures
            *var == self.var(),
    {
        &self.var
    }

    /// Wraps `var` in a layer that parses its content with `parse_fn`.
    pub fn new(var: V, parse_fn: F) -> (layer: Self)
        requires
            forall|input: Seq<char>| parse_fn.accepts(input),
        ensures
            layer.var() == var,
            layer.parse_fn() == parse_fn,
    {
        Parsed { var, parse_fn, marker: PhantomData }
    }
}

/// A closure is a parsing function that accepts what the closure can be
/// called on and converts as the closure returns.
pub proof fn lemma_closure_parses<T, F: Fn(&str) -> Result<T, BoxedError>>(f: F)
    ensures
        forall|input: Seq<char>|
            #![trigger f.accepts(input)]
            f.accepts(input) == (forall|text: &str| text@ == input ==> call_requires(f, (text,))),
        forall|input: Seq<char>, r: Result<T, BoxedError>|
            #![trigger f.converts(input, r)]
            f.converts(input, r) == (exists|text: &str|
                text@ == input && call_ensures(f, (text,), r)),
{
}

/// What the layer returns once the text was converted: the value, or the
/// error of the conversion as the cause of a parse error.
pub open spec fn parse_result_spec<T>(converted: Result<T, BoxedError>) -> Result<T, ReadVarError> {
    match converted {
        Ok(value) => Ok(value),
        Err(source) => Err(ReadVarError::Other(BoxedError::Parse(Box::new(ParseError { source })))),
    }
}

/// Turns what the conversion gave into what the layer returns.
pub fn parse_result<T>(converted: Result<T, BoxedError>) -> (r: Result<T, ReadVarError>)
    ensures
        r == parse_result_spec(converted),
{
    match converted {
        Ok(value) => Ok(value),
        Err(source) => Err(ReadVarError::Other(BoxedError::Parse(Box::new(ParseError { source })))),
    }
}

/// Whether the layer may return `r` when the inner read gave `inner`: an
/// inner error is passed on, and an inner value is converted.
pub open spec fn parsed_outcome<T, F: ParseFn<T>>(
    parse_fn: F,
    inner: Result<String, ReadVarError>,
    r: Result<T, ReadVarError>,
) -> bool {
    match inner {
        Err(e) => r == Err::<T, ReadVarError>(e),
        Ok(raw) => exists|converted: Result<T, BoxedError>| #[trigger]
            parse_fn.converts(raw@, converted) && r == parse_result_spec(converted),
    }
}

impl<T, V: ConfigValueDescriptor, F: ParseFn<T>> ConfigValueDescriptor for Parsed<T, V, F> {
    open spec fn descriptor(&self) -> VarDescriptor {
        self.var().descriptor()
    }

    fn get_descriptor(&self) -> (d: &VarDescriptor) {
        self.var.get_descriptor()
    }
}

impl<T, V, F> Layer for Parsed<T, V, F> where
    V: Layer<Output = String, Error = ReadVarError>,
    F: ParseFn<T>,
 {
    type Output = T;

    type Error = ReadVarError;

    open spec fn outcome(&self, env: &Environment, r: Result<T, ReadVarError>) -> bool {
        exists|inner: Result<String, ReadVarError>| #[trigger]
            self.var().outcome(env, inner) && parsed_outcome(self.parse_fn(), inner, r)
    }

    fn try_get(&self, env: &Environment) -> (r: Result<T, ReadVarError>) {
        proof {
            use_type_invariant(self);
        }
        let inner = self.var.try_get(env);
        match inner {
            Err(e) => {
                let r = Err(e);
                assert(self.var().outcome(env, inner) && parsed_outcome(self.parse_fn(), inner, r));
                r
            },
            Ok(raw) => {
                let converted = self.parse_fn.parse(raw.as_str());
                let r = parse_result(converted);
                assert(self.var().outcome(env, inner) && parsed_outcome(self.parse_fn(), inner, r));
                r
            },
        }
    }
}

/// What a read of the layer may give, by its definition. Verified code
/// calls this where the layer holds a closure: the definition is then not
/// unfolded by itself.
pub proof fn lemma_parsed_outcome<T, V, F>(
    layer: Parsed<T, V, F>,
    env: &Environment,
    r: Result<T, ReadVarError>,
) where V: Layer<Output = String, Error = ReadVarError>, F: ParseFn<T>
    ensures
        layer.outcome(env, r) == (exists|inner: Result<String, ReadVarError>| #[trigger]
            layer.var().outcome(env, inner) && parsed_outcome(layer.parse_fn(), inner, r)),
{
}

/// The descriptor of the layer is that of the inner value, by its
/// definition; for verified code that holds the layer with a closure.
pub proof fn lemma_parsed_descriptor<T, V: ConfigValueDescriptor, F: ParseFn<T>>(
    layer: Parsed<T, V, F>,
)
    ensures
        layer.descriptor() == layer.var().descriptor(),
{
}

} // verus!
