//! Module containing everything related to the [`TextVar`] configuration value type.

use vstd::prelude::*;
use crate::descriptor::{ConfigValueDescriptor, VarDescriptor};
use crate::environment::Environment;
use crate::error::{ReadVarError, VarError};
use crate::layer::Layer;

verus! {

/// A configuration value that simply returns the content of the environment variable.
#[derive(Debug)]
pub struct TextVar {
    descriptor: VarDescriptor,
}

impl TextVar {
    /// Creates a [`TextVar`] from the environment variable key.
    pub fn from_var_name(var_name: &'static str) -> (var: Self)
        ensures
            var.descriptor() == (VarDescriptor {
                var_name,
                description: None,
                default_val_fmt: None,
            }),
    {
        Self { descriptor: VarDescriptor { var_name, description: None, default_val_fmt: None } }
    }

    /// Changes the description of the configuration descriptor.
    pub fn description(self, description: &'static str) -> (var: Self)
        ensures
            var.descriptor() == (VarDescriptor {
                description: Some(description),
                ..self.descriptor()
            }),
    {
        let mut var = self;
        var.descriptor.description = Some(description);
        var
    }

    /// Changes the default value shown in the configuration descriptor.
    ///
    /// The text is only shown to the user: it does not make the read fall
    /// back to anything.
    pub fn default_fmt_val(self, default_fmt_val: &'static str) -> (var: Self)
        ensures
            var.descriptor() == (VarDescriptor {
                default_val_fmt: Some(default_fmt_val),
                ..self.descriptor()
            }),
    {
        let mut var = self;
        var.descriptor.default_val_fmt = Some(default_fmt_val);
        var
    }
}

impl ConfigValueDescriptor for TextVar {
    closed spec fn descriptor(&self) -> VarDescriptor {
        self.descriptor
    }

    fn get_descriptor(&self) -> (d: &VarDescriptor) {
        &self.descriptor
    }
}

impl Layer for TextVar {
    type Output = String;

    type Error = ReadVarError;

    /// The read gives the text that the environment holds for the variable,
    /// as it is, or the reason for which it holds none.
    open spec fn outcome(&self, env: &Environment, r: Result<String, ReadVarError>) -> bool {
        r == match env.var_spec(self.descriptor().var_name@) {
            Ok(text) => Ok::<String, ReadVarError>(text),
            Err(e) => Err(ReadVarError::Var(e)),
        }
    }

    fn try_get(&self, env: &Environment) -> (r: Result<String, ReadVarError>) {
        match env.var(self.descriptor.var_name) {
            Ok(text) => Ok(text),
            Err(e) => Err(ReadVarError::Var(e)),
        }
    }
}

/// A read of the base layer yields that the variable is not present where
/// the environment holds nothing for it, and the very text that the
/// environment holds where it holds one.
pub proof fn lemma_base_read(var: TextVar, env: &Environment, r: Result<String, ReadVarError>)
    requires
        var.outcome(env, r),
    ensures
        env.var_spec(var.descriptor().var_name@) == Err::<String, VarError>(VarError::NotPresent)
            ==> r == Err::<String, ReadVarError>(ReadVarError::Var(VarError::NotPresent)),
        env.var_spec(var.descriptor().var_name@) matches Ok(text) ==> r == Ok::<
            String,
            ReadVarError,
        >(text),
{
}

} // verus!
