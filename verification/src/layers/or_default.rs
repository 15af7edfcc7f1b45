//! Module containing everything related to the [`OrDefault`] configuration value type.

use core::convert::Infallible;
use vstd::prelude::*;
use crate::descriptor::{ConfigValueDescriptor, VarDescriptor};
use crate::environment::Environment;
use crate::error::BoxedError;
use crate::layer::Layer;
use crate::layers::parsed::{ParseFn, Parsed};
use crate::layers::text_var::TextVar;

verus! {

/// A producer of fallback values of type `T`.
///
/// Every function without arguments that returns a `T` is one.
pub trait DefaultFn<T> {
    /// Whether the producer can be called.
    spec fn callable(&self) -> bool;

    /// Whether the producer may return `value`.
    spec fn produces(&self, value: T) -> bool;

    /// Produces a value.
    fn produce(&self) -> (value: T)
        requires
            self.callable(),
        ensures
            self.produces(value),
    ;
}

impl<T, F: Fn() -> T> DefaultFn<T> for F {
    open spec fn callable(&self) -> bool {
        call_requires(*self, ())
    }

    open spec fn produces(&self, value: T) -> bool {
        call_ensures(*self, (), value)
    }

    fn produce(&self) -> (value: T) {
        self()
    }
}

/// The producer that returns the default value of the type.
#[derive(Debug)]
pub struct FromDefault;

impl<T: Default> DefaultFn<T> for FromDefault {
    open spec fn callable(&self) -> bool {
        true
    }

    open spec fn produces(&self, value: T) -> bool {
        call_ensures(T::default, (), value)
    }

    fn produce(&self) -> (value: T) {
        T::default()
    }
}

/// Reads the inner configuration value, or returns a default value.
///
/// The read of this type can never fail. The producer it holds can be called.
#[derive(Debug)]
pub struct OrDefault<V: Layer, F: DefaultFn<<V as Layer>::Output>> {
    var: V,
    default_fn: F,
}

impl<V: Layer, F: DefaultFn<<V as Layer>::Output>> OrDefault<V, F> {
    #[verifier::type_invariant]
    spec fn producer_callable(&self) -> bool {
        self.default_fn.callable()
    }

    /// The inner configuration value.
    pub closed spec fn var(&self) -> V {
        self.var
    }

    /// The producer of the fallback value.
    pub closed spec fn default_fn(&self) -> F {
        self.default_fn
    }

    /// Returns the inner configuration value.
    pub fn inner(&self) -> (var: &V)
        ensures
            *var == self.var(),
    {
        &self.var
    }

    /// Wraps `var` in a layer that falls back to a value of `default_fn`.
    pub fn new(var: V, default_fn: F) -> (layer: Self)
        requires
            default_fn.callable(),
        ensures
            layer.var() == var,
            layer.default_fn() == default_fn,
    {
        OrDefault { var, default_fn }
    }
}

/// A closure is a producer that can be called when the closure can, and
/// produces what the closure returns.
pub proof fn lemma_closure_produces<T, F: Fn() -> T>(f: F)
    ensures
        f.callable() == call_requires(f, ()),
        forall|value: T|
            #![trigger f.produces(value)]
            f.produces(value) == call_ensures(f, (), value),
{
}

/// Whether the layer may return `r` when the inner read gave `inner`: an
/// inner value is passed on, and an inner error of any kind, that of a
/// malformed value too, is replaced by a value of the producer.
pub open spec fn or_default_outcome<T, E, F: DefaultFn<T>>(
    default_fn: F,
    inner: Result<T, E>,
    r: Result<T, Infallible>,
) -> bool {
    match inner {
        Ok(value) => r == Ok::<T, Infallible>(value),
        Err(_) => r matches Ok(value) && default_fn.produces(value),
    }
}

impl<V, F> ConfigValueDescriptor for OrDefault<V, F> where
    V: Layer + ConfigValueDescriptor,
    F: DefaultFn<<V as Layer>::Output>,
 {
    open spec fn descriptor(&self) -> VarDescriptor {
        self.var().descriptor()
    }

    fn get_descriptor(&self) -> (d: &VarDescriptor) {
        self.var.get_descriptor()
    }
}

impl<V, F> Layer for OrDefault<V, F> where V: Layer, F: DefaultFn<<V as Layer>::Output> {
    type Output = <V as Layer>::Output;

    type Error = Infallible;

    open spec fn outcome(&self, env: &Environment, r: Result<Self::Output, Infallible>) -> bool {
        r is Ok && exists|inner: Result<<V as Layer>::Output, <V as Layer>::Error>| #[trigger]
            self.var().outcome(env, inner) && or_default_outcome(self.default_fn(), inner, r)
    }

    fn try_get(&self, env: &Environment) -> (r: Result<Self::Output, Infallible>) {
        proof {
            use_type_invariant(self);
        }
        let inner = self.var.try_get(env);
        match inner {
            Ok(value) => {
                let r = Ok(value);
                assert(self.var().outcome(env, inner) && or_default_outcome(self.default_fn(), inner, r));
                r
            },
            Err(_) => {
                let r = Ok(self.default_fn.produce());
                assert(self.var().outcome(env, inner) && or_default_outcome(self.default_fn(), inner, r));
                r
            },
        }
    }
}

/// Whether `value` is what the layer gives when the inner read gave
/// `inner`: the inner value, or for an inner error of any kind a value of
/// the producer.
pub open spec fn or_default_value<T, E, F: DefaultFn<T>>(
    default_fn: F,
    inner: Result<T, E>,
    value: T,
) -> bool {
    match inner {
        Ok(inner_value) => value == inner_value,
        Err(_) => default_fn.produces(value),
    }
}

impl<T, E, V: Layer<Output = T, Error = E>, F: DefaultFn<T>> OrDefault<V, F> {
    /// Reads the value, which is there whatever the environment holds: the
    /// inner value, or the fallback value where the inner read fails.
    ///
    /// This is the read for verified code that holds the layer with a
    /// closure or a function as producer: with [`lemma_closure_produces`]
    /// for the producer, the caller knows the value that was read.
    pub fn get_or_default(&self, env: &Environment) -> (value: T)
        ensures
            self.outcome(env, Ok(value)),
            exists|inner: Result<T, E>| #[trigger]
                self.var().outcome(env, inner) && or_default_value(
                    self.default_fn(),
                    inner,
                    value,
                ),
    {
        let r = self.try_get(env);
        proof {
            let inner = choose|inner: Result<T, E>| #[trigger]
                self.var().outcome(env, inner) && or_default_outcome(self.default_fn(), inner, r);
            assert(self.var().outcome(env, inner) && or_default_value(
                self.default_fn(),
                inner,
                r->Ok_0,
            ));
        }
        match r {
            Ok(value) => value,
            Err(_) => vstd::pervasive::unreached(),
        }
    }
}

/// A read with a default never fails, and where the inner read fails, for
/// whatever reason, it gives a value of the producer.
pub proof fn lemma_default_replaces_any_failure<V: Layer, F: DefaultFn<<V as Layer>::Output>>(
    layer: OrDefault<V, F>,
    env: &Environment,
    r: Result<<V as Layer>::Output, Infallible>,
)
    requires
        layer.outcome(env, r),
    ensures
        r is Ok,
        (forall|inner: Result<<V as Layer>::Output, <V as Layer>::Error>| #[trigger]
            layer.var().outcome(env, inner) ==> inner is Err) ==> layer.default_fn().produces(
            r->Ok_0,
        ),
        (forall|inner: Result<<V as Layer>::Output, <V as Layer>::Error>| #[trigger]
            layer.var().outcome(env, inner) ==> inner is Ok) ==> layer.var().outcome(
            env,
            Ok(r->Ok_0),
        ),
{
    let inner = choose|inner: Result<<V as Layer>::Output, <V as Layer>::Error>| #[trigger]
        layer.var().outcome(env, inner) && or_default_outcome(layer.default_fn(), inner, r);
    assert(layer.var().outcome(env, inner));
}

/// A variable that is not set is replaced by a value of the producer.
pub proof fn lemma_default_for_unset<F: DefaultFn<String>>(
    layer: OrDefault<TextVar, F>,
    env: &Environment,
    r: Result<String, Infallible>,
)
    requires
        layer.outcome(env, r),
        env.var_spec(layer.var().descriptor().var_name@) is Err,
    ensures
        r matches Ok(value) && layer.default_fn().produces(value),
{
    lemma_default_replaces_any_failure(layer, env, r);
}

/// A variable that is set to a text that cannot be parsed is replaced by a
/// value of the producer too, as if it were not set.
pub proof fn lemma_default_for_malformed<T, P: ParseFn<T>, F: DefaultFn<T>>(
    layer: OrDefault<Parsed<T, TextVar, P>, F>,
    env: &Environment,
    r: Result<T, Infallible>,
)
    requires
        layer.outcome(env, r),
        env.var_spec(layer.var().var().descriptor().var_name@) matches Ok(text) && forall|
            converted: Result<T, BoxedError>,
        | #[trigger] layer.var().parse_fn().converts(text@, converted) ==> converted is Err,
    ensures
        r matches Ok(value) && layer.default_fn().produces(value),
{
    lemma_default_replaces_any_failure(layer, env, r);
}

/// The descriptor of the layer is that of the inner value, by its
/// definition; for verified code that holds the layer with a closure.
pub proof fn lemma_or_default_descriptor<V, F>(layer: OrDefault<V, F>) where
    V: Layer + ConfigValueDescriptor,
    F: DefaultFn<<V as Layer>::Output>,

    ensures
        layer.descriptor() == layer.var().descriptor(),
{
}

} // verus!
