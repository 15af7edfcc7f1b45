//! The reader abstraction: a layer attempts to produce a typed value from
//! the environment, or fails with a typed error.

use vstd::prelude::*;
use vstd::string::StringExecFns;
use crate::descriptor::quoted_name;
use crate::environment::Environment;

verus! {

/// Represents types able to read a value from the environment.
pub trait Layer {
    /// The type of the read output.
    type Output;

    /// The type of the error.
    type Error;

    /// Whether a read from `env` may give `r`. Where an implementation does
    /// not say, any result may come.
    open spec fn outcome(&self, env: &Environment, r: Result<Self::Output, Self::Error>) -> bool {
        true
    }

    /// Reads and returns the value from the environment, or returns an error.
    fn try_get(&self, env: &Environment) -> (r: Result<Self::Output, Self::Error>)
        ensures
            self.outcome(env, r),
    ;

    /// Reads and returns the value from the environment, which must be
    /// one from which the read cannot fail.
    fn get(&self, env: &Environment) -> (value: Self::Output)
        requires
            forall|r: Result<Self::Output, Self::Error>| self.outcome(env, r) ==> r is Ok,
        ensures
            self.outcome(env, Ok(value)),
    {
        match self.try_get(env) {
            Ok(value) => value,
            Err(_) => vstd::pervasive::unreached(),
        }
    }
}

impl<T: Layer> Layer for &T {
    type Output = <T as Layer>::Output;

    type Error = <T as Layer>::Error;

    open spec fn outcome(&self, env: &Environment, r: Result<Self::Output, Self::Error>) -> bool {
        (**self).outcome(env, r)
    }

    fn try_get(&self, env: &Environment) -> (r: Result<Self::Output, Self::Error>) {
        (**self).try_get(env)
    }
}

/// The message for a value that could not be read: the variable, the type
/// that was expected and the error.
pub open spec fn failure_text(var_name: Seq<char>, expected: Seq<char>, error: Seq<char>) -> Seq<
    char,
> {
    "couldn't get env var "@ + quoted_name(var_name) + " (expected type "@ + quoted_name(expected)
        + "): "@ + error
}

/// Builds the message for a value that could not be read.
pub fn failure_message(var_name: &str, expected: &str, error: &str) -> (s: String)
    ensures
        s@ == failure_text(var_name@, expected@, error@),
{
    let mut s = String::from_str("couldn't get env var ");
    s.append("`");
    s.append(var_name);
    s.append("`");
    s.append(" (expected type ");
    s.append("`");
    s.append(expected);
    s.append("`");
    s.append("): ");
    s.append(error);
    assert(s@ =~= failure_text(var_name@, expected@, error@));
    s
}

} // verus!
