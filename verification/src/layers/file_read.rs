//! Module containing everything related to the [`FileRead`] configuration value type.

use vstd::prelude::*;
use crate::descriptor::{ConfigValueDescriptor, VarDescriptor};
use crate::environment::Environment;
use crate::error::{BoxedError, FileReadError, IoError, IoErrorKind, ReadVarError};
use crate::layer::Layer;

verus! {

/// A configuration value that reads the content of the specified file.
///
/// The path to the file is given by the output of the inner configuration value.
#[derive(Debug)]
pub struct FileRead<V> {
    pub var: V,
}

/// The error of a file that could not be read, for the variable that gave
/// its path.
pub open spec fn file_error(var_name: &'static str, cause: IoError) -> ReadVarError {
    ReadVarError::Other(BoxedError::FileRead(FileReadError { var_name, cause }))
}

/// What the layer returns once the file was read: the content of the file,
/// or the error of the read with the name of the variable.
pub open spec fn read_result_spec(var_name: &'static str, content: Result<String, IoError>) -> Result<
    String,
    ReadVarError,
> {
    match content {
        Ok(text) => Ok(text),
        Err(cause) => Err(file_error(var_name, cause)),
    }
}

/// Whether the layer may return `r` when the inner read gave `inner`: an
/// inner error is passed on, and an inner value is the path of the file
/// that is read from `env`. A file that the environment does not hold is
/// reported as not found.
pub open spec fn file_read_outcome(
    var_name: &'static str,
    env: &Environment,
    inner: Result<String, ReadVarError>,
    r: Result<String, ReadVarError>,
) -> bool {
    match inner {
        Err(e) => r == Err::<String, ReadVarError>(e),
        Ok(path) => match env.file_spec(path@) {
            Some(content) => r == read_result_spec(var_name, content),
            None => r matches Err(ReadVarError::Other(BoxedError::FileRead(e))) && e.var_name
                == var_name && e.cause.kind == IoErrorKind::NotFound,
        },
    }
}

/// Turns what reading the file gave into what the layer returns, for the
/// variable `var_name` that gave the path.
pub fn read_result(var_name: &'static str, content: Result<String, IoError>) -> (r: Result<
    String,
    ReadVarError,
>)
    ensures
        r == read_result_spec(var_name, content),
{
    match content {
        Ok(text) => Ok(text),
        Err(cause) => Err(
            ReadVarError::Other(BoxedError::FileRead(FileReadError { var_name, cause })),
        ),
    }
}

impl<V> FileRead<V> where V: Layer<Output = String, Error = ReadVarError> {
    /// Reads the path of the file from the inner configuration value.
    pub fn path(&self, env: &Environment) -> (r: Result<String, ReadVarError>)
        ensures
            self.var.outcome(env, r),
    {
        self.var.try_get(env)
    }
}

impl<V> ConfigValueDescriptor for FileRead<V> where V: ConfigValueDescriptor {
    open spec fn descriptor(&self) -> VarDescriptor {
        self.var.descriptor()
    }

    fn get_descriptor(&self) -> (d: &VarDescriptor) {
        self.var.get_descriptor()
    }
}

impl<V> Layer for FileRead<V> where
    V: Layer<Output = String, Error = ReadVarError> + ConfigValueDescriptor,
 {
    type Output = String;

    type Error = ReadVarError;

    open spec fn outcome(&self, env: &Environment, r: Result<String, ReadVarError>) -> bool {
        exists|inner: Result<String, ReadVarError>| #[trigger]
            self.var.outcome(env, inner) && file_read_outcome(
                self.var.descriptor().var_name,
                env,
                inner,
                r,
            )
    }

    fn try_get(&self, env: &Environment) -> (r: Result<String, ReadVarError>) {
        let inner = self.var.try_get(env);
        let r = match &inner {
            Err(_) => inner,
            Ok(path) => {
                let content = env.read_to_string(path.as_str());
                read_result(self.var.get_descriptor().var_name, content)
            },
        };
        assert(file_read_outcome(self.var.descriptor().var_name, env, inner, r));
        r
    }
}

/// What a read of the layer may give, by its definition. Verified code
/// calls this where the inner value holds a closure: the definition is then
/// not unfolded by itself.
pub proof fn lemma_file_read_outcome<V>(
    layer: FileRead<V>,
    env: &Environment,
    r: Result<String, ReadVarError>,
) where V: Layer<Output = String, Error = ReadVarError> + ConfigValueDescriptor
    ensures
        layer.outcome(env, r) == (exists|inner: Result<String, ReadVarError>| #[trigger]
            layer.var.outcome(env, inner) && file_read_outcome(
                layer.var.descriptor().var_name,
                env,
                inner,
                r,
            )),
{
}

/// The descriptor of the layer is that of the inner value, by its
/// definition; for verified code whose inner value holds a closure.
pub proof fn lemma_file_read_descriptor<V: ConfigValueDescriptor>(layer: FileRead<V>)
    ensures
        layer.descriptor() == layer.var.descriptor(),
{
}

} // verus!
