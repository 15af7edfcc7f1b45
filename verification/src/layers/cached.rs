//! Module containing everything related to the [`Cached`] configuration value type.

use vstd::prelude::*;
use crate::descriptor::{ConfigValueDescriptor, VarDescriptor};
use crate::environment::Environment;
use crate::error::CachedError;
use crate::layer::Layer;

verus! {

/// A cached configuration value.
///
/// Caching means it saves the result of the first read of the inner configuration value, and
/// returns it for every next read.
///
/// Each read returns a reference to the cached result. A read takes the
/// layer by exclusive reference, so no two reads can race for the cache:
/// the first one fills it, once.
pub struct Cached<V: Layer> {
    pub var: V,
    pub cached: Option<Result<<V as Layer>::Output, <V as Layer>::Error>>,
}

/// The cached result, as a read hands it out: a reference to the value, or
/// to the error as a cached error.
pub open spec fn handed_out<'a, T, E>(stored: &'a Result<T, E>) -> Result<&'a T, CachedError<'a, E>> {
    match stored {
        Ok(value) => Ok(value),
        Err(e) => Err(CachedError(e)),
    }
}

impl<V: Layer> Cached<V> {
    /// Whether a read with `env` may leave `stored` in the cache: what the
    /// cache holds already, or for an empty cache a result of the inner read.
    pub open spec fn may_store(
        &self,
        env: &Environment,
        stored: Result<<V as Layer>::Output, <V as Layer>::Error>,
    ) -> bool {
        match self.cached {
            Some(first) => stored == first,
            None => self.var.outcome(env, stored),
        }
    }

    /// Reads the value: the first read reads the inner configuration value
    /// and keeps the result, and every read returns what is kept.
    pub fn try_get<'a>(&'a mut self, env: &Environment) -> (r: Result<
        &'a <V as Layer>::Output,
        CachedError<'a, <V as Layer>::Error>,
    >)
        ensures
            final(self).var == old(self).var,
            final(self).cached is Some,
            old(self).may_store(env, final(self).cached->0),
            r == handed_out(&final(self).cached->0),
    {
        if self.cached.is_none() {
            let first = self.var.try_get(env);
            self.cached = Some(first);
        }
        match self.cached.as_ref().unwrap() {
            Ok(value) => Ok(value),
            Err(e) => Err(CachedError(e)),
        }
    }

    /// Reads the value with an environment from which the read cannot fail.
    pub fn get<'a>(&'a mut self, env: &Environment) -> (value: &'a <V as Layer>::Output)
        requires
            forall|stored: Result<<V as Layer>::Output, <V as Layer>::Error>|
                old(self).may_store(env, stored) ==> stored is Ok,
        ensures
            final(self).var == old(self).var,
            old(self).may_store(env, Ok(*value)),
            final(self).cached == Some(Ok::<<V as Layer>::Output, <V as Layer>::Error>(*value)),
    {
        match self.try_get(env) {
            Ok(value) => value,
            Err(_) => vstd::pervasive::unreached(),
        }
    }

    /// Takes the ownership of the cached result, and leaves the cache empty.
    ///
    /// It returns `None` if the configuration value hasn't been read yet.
    pub fn take(&mut self) -> (taken: Option<Result<<V as Layer>::Output, <V as Layer>::Error>>)
        ensures
            taken == old(self).cached,
            final(self).cached is None,
            final(self).var == old(self).var,
    {
        self.cached.take()
    }
}

impl<V: Layer + ConfigValueDescriptor> ConfigValueDescriptor for Cached<V> {
    open spec fn descriptor(&self) -> VarDescriptor {
        self.var.descriptor()
    }

    fn get_descriptor(&self) -> (d: &VarDescriptor) {
        self.var.get_descriptor()
    }
}

/// Once a cached value was read, every later read gives the result of the
/// first one, whatever the environment holds by then.
///
/// The first read, from `first_env`, takes the layer from `before` to
/// `after`; `later` is what a read from `later_env` may then leave in the
/// cache, and hand out.
pub proof fn lemma_cache_keeps_first_result<V: Layer>(
    before: Cached<V>,
    after: Cached<V>,
    first_env: &Environment,
    later_env: &Environment,
    later: Result<<V as Layer>::Output, <V as Layer>::Error>,
)
    requires
        after.var == before.var,
        after.cached is Some,
        before.may_store(first_env, after.cached->0),
        after.may_store(later_env, later),
    ensures
        later == after.cached->0,
        handed_out(&later) == handed_out(&after.cached->0),
        before.cached is Some ==> later == before.cached->0,
        before.cached is None ==> before.var.outcome(first_env, later),
{
}

/// The descriptor of the layer is that of the inner value, by its
/// definition; for verified code whose inner value holds a closure.
pub proof fn lemma_cached_descriptor<V: Layer + ConfigValueDescriptor>(layer: Cached<V>)
    ensures
        layer.descriptor() == layer.var.descriptor(),
{
}

} // verus!
