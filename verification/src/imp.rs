//! The first form of the library: the fields of a configuration are
//! visited one by one, and the variables found and the errors met are
//! captured on the way.

use core::marker::PhantomData;
use vstd::prelude::*;
use vstd::string::StringExecFns;
use crate::descriptor::quoted_name;
use crate::environment::Environment;
use crate::error::IoError;
use crate::from_text::FromText;
use crate::text::{heading, joined, push_heading, same_text, Render};

verus! {

/// An error met when visiting a field.
#[derive(Debug)]
pub enum Error {
    /// The variable is not set.
    Missing(&'static str),
    /// The variable holds a text that is not a value of the expected type.
    Invalid { var: &'static str, expected_type: &'static str },
    /// The file that the variable points to could not be read.
    Io(&'static str, IoError),
}

impl Error {
    /// The message of the error.
    pub open spec fn text(&self) -> Seq<char> {
        match self {
            Error::Missing(var) => "Missing "@ + quoted_name(var@),
            Error::Invalid { var, expected_type } => quoted_name(var@)
                + " variable has an invalid data type for "@ + quoted_name(expected_type@),
            Error::Io(var, err) => "IO error when reading "@ + quoted_name(var@) + ": "@
                + err.message@,
        }
    }

    /// Whether two errors are equal: errors of the same kind for the same
    /// variable, with the same expected type or the same kind of failure.
    pub open spec fn same(&self, other: &Self) -> bool {
        match (self, other) {
            (Error::Missing(l0), Error::Missing(r0)) => l0@ == r0@,
            (
                Error::Invalid { var: l_var, expected_type: l_type },
                Error::Invalid { var: r_var, expected_type: r_type },
            ) => l_var@ == r_var@ && l_type@ == r_type@,
            (Error::Io(l0, l1), Error::Io(r0, r1)) => l0@ == r0@ && l1.kind == r1.kind,
            _ => false,
        }
    }

    /// The message of the error as a string.
    pub fn to_string(&self) -> (s: String)
        ensures
            s@ == self.text(),
    {
        match self {
            Error::Missing(var) => {
                let mut s = String::from_str("Missing ");
                s.append("`");
                s.append(var);
                s.append("`");
                assert(s@ =~= self.text());
                s
            },
            Error::Invalid { var, expected_type } => {
                let mut s = String::from_str("`");
                s.append(var);
                s.append("`");
                s.append(" variable has an invalid data type for ");
                s.append("`");
                s.append(expected_type);
                s.append("`");
                assert(s@ =~= self.text());
                s
            },
            Error::Io(var, err) => {
                let mut s = String::from_str("IO error when reading ");
                s.append("`");
                s.append(var);
                s.append("`");
                s.append(": ");
                s.append(err.message.as_str());
                assert(s@ =~= self.text());
                s
            },
        }
    }
}

impl PartialEq for Error {
    fn eq(&self, other: &Self) -> (r: bool) {
        match (self, other) {
            (Error::Missing(l0), Error::Missing(r0)) => same_text(l0, r0),
            (
                Error::Invalid { var: l_var, expected_type: l_type },
                Error::Invalid { var: r_var, expected_type: r_type },
            ) => same_text(l_var, r_var) && same_text(l_type, r_type),
            (Error::Io(l0, l1), Error::Io(r0, r1)) => same_text(l0, r0) && l1.kind == r1.kind,
            _ => false,
        }
    }
}

impl vstd::std_specs::cmp::PartialEqSpecImpl for Error {
    open spec fn obeys_eq_spec() -> bool {
        true
    }

    open spec fn eq_spec(&self, other: &Self) -> bool {
        self.same(other)
    }
}

impl Render for Error {
    open spec fn rendered(&self) -> Seq<char> {
        self.text()
    }

    fn render(&self) -> (s: String) {
        self.to_string()
    }
}

/// Types that can describe the environment they require.
pub trait FmtReqEnv {
    /// Whether `text` is a description of the required environment. Where
    /// an implementation does not say, every text is.
    open spec fn describes(text: Seq<char>) -> bool {
        true
    }

    /// Writes the description of the required environment.
    fn fmt() -> (s: String)
        ensures
            Self::describes(s@),
    ;
}

/// Types that are built from the values of their fields once every field
/// was visited.
pub trait EnvResidual: Sized {
    /// The values of the fields, each of them present or not.
    type Residual;

    /// Whether every field has a value. Where an implementation does not
    /// say, the value can be built from any fields.
    open spec fn complete(residual: &Self::Residual) -> bool {
        true
    }

    /// Builds the value from the values of its fields.
    fn from_residual(residual: Self::Residual) -> Self
        requires
            Self::complete(&residual),
    ;
}

/// A field of a configuration: the variable it is read from, and what it is for.
pub trait EnvVar {
    /// The name of the variable.
    const ENV_VAR: &'static str;

    /// The description of the variable.
    const ENV_DESC: &'static str;
}

/// Configurations that can be split into the configurations they include
/// and their own fields.
pub trait EnvSplitIncluded {
    /// The included configurations.
    type OnlyIncluded;

    /// The fields of the configuration itself.
    type WithoutIncluded;

    /// Splits the configuration.
    fn split(self) -> (Self::OnlyIncluded, Self::WithoutIncluded);
}

/// A value together with the names of the variables it was read from.
#[derive(Debug)]
pub struct WithVars<T> {
    pub item: T,
    pub vars: Vec<&'static str>,
}

#[derive(Debug)]
struct CapturedVarsInner<E> {
    vars: Vec<&'static str>,
    errs: Vec<Error>,
    _marker: PhantomData<E>,
}

/// The variables found and the errors met while visiting the fields of a
/// configuration.
#[derive(Debug)]
pub struct CapturedVars<E> {
    inner: CapturedVarsInner<E>,
}

/// The report line of a variable that was found.
pub open spec fn var_line(var: &'static str) -> Seq<char> {
    "- "@ + quoted_name(var@) + "\n"@
}

/// The report line of an error.
pub open spec fn err_line(err: Error) -> Seq<char> {
    "- "@ + err.text() + "\n"@
}

/// The report of a visit: the variables found, the errors met, and the
/// description of the required environment.
pub open spec fn captured_text(
    vars: Seq<&'static str>,
    errs: Seq<Error>,
    required_env: Seq<char>,
) -> Seq<char> {
    heading(vars.len(), "valid"@) + joined(vars, |var: &'static str| var_line(var)) + heading(
        errs.len(),
        "incorrect"@,
    ) + joined(errs, |err: Error| err_line(err))
        + "Note: full required environment description:\n"@ + required_env
}

impl<E> CapturedVarsInner<E> {
    fn default() -> (inner: Self)
        ensures
            inner.vars@.len() == 0,
            inner.errs@.len() == 0,
    {
        Self { vars: Vec::new(), errs: Vec::new(), _marker: PhantomData }
    }

    /// Reads the variable, if it holds a text.
    fn visit_opt(&self, env: &Environment, var: &str) -> (r: Option<String>)
        ensures
            r == found(env, var@),
    {
        match env.var(var) {
            Ok(text) => Some(text),
            Err(_) => None,
        }
    }

    /// Reads the variable as a `T`. A variable that holds no text gives no
    /// value; one that holds a text that is no `T` is an error.
    fn visit_opt_as<T: FromText>(&mut self, env: &Environment, var: &'static str) -> (r: Option<
        Option<T>,
    >)
        ensures
            visited_opt_as(env, var, old(self).vars@, old(self).errs@, final(self).vars@, final(self).errs@, r),
    {
        match self.visit_opt(env, var) {
            Some(text) => match T::from_text(text.as_str()) {
                Ok(out) => {
                    self.vars.push(var);
                    Some(Some(out))
                },
                Err(_) => {
                    self.errs.push(Error::Invalid { var, expected_type: T::label() });
                    None
                },
            },
            None => Some(None),
        }
    }
}

/// The text that the environment holds for the variable, if it holds one.
pub open spec fn found(env: &Environment, var: Seq<char>) -> Option<String> {
    match env.var_spec(var) {
        Ok(text) => Some(text),
        Err(_) => None,
    }
}

/// What visiting the variable `var` as a `T` does. A text that is a `T`
/// gives the value, and the variable is captured. No text gives no value.
/// A text that is no `T` is captured as an error of an invalid value.
pub open spec fn visited_opt_as<T: FromText>(
    env: &Environment,
    var: &'static str,
    vars: Seq<&'static str>,
    errs: Seq<Error>,
    vars_after: Seq<&'static str>,
    errs_after: Seq<Error>,
    r: Option<Option<T>>,
) -> bool {
    match found(env, var@) {
        Some(text) => exists|parsed: Result<T, crate::error::BoxedError>| #[trigger]
            T::parses(text@, parsed) && match parsed {
                Ok(out) => r == Some(Some(out)) && vars_after == vars.push(var) && errs_after
                    == errs,
                Err(_) => r is None && vars_after == vars && errs_after == errs.push(
                    Error::Invalid { var, expected_type: T::label_spec() },
                ),
            },
        None => r == Some(None::<T>) && vars_after == vars && errs_after == errs,
    }
}

/// The value in a value that may be absent.
pub open spec fn flat<T>(r: Option<Option<T>>) -> Option<T> {
    match r {
        Some(Some(value)) => Some(value),
        _ => None,
    }
}

/// What visiting the variable `var` as the path of a file does. The content
/// of a file that can be read is the value, and the variable is captured.
/// A file that cannot be read and a variable without text are captured as
/// errors.
pub open spec fn visited_read(
    env: &Environment,
    var: &'static str,
    vars: Seq<&'static str>,
    errs: Seq<Error>,
    vars_after: Seq<&'static str>,
    errs_after: Seq<Error>,
    r: Option<String>,
) -> bool {
    match found(env, var@) {
        Some(path) => exists|content: Result<String, IoError>| #[trigger]
            env.reads_file(path@, content) && match content {
                Ok(out) => r == Some(out) && vars_after == vars.push(var) && errs_after == errs,
                Err(e) => r is None && vars_after == vars && errs_after == errs.push(
                    Error::Io(var, e),
                ),
            },
        None => r is None && vars_after == vars && errs_after == errs.push(Error::Missing(var)),
    }
}

impl<E> Default for CapturedVars<E> {
    /// A record without variables and without errors.
    fn default() -> (captured: Self)
        ensures
            captured.vars().len() == 0,
            captured.errs().len() == 0,
    {
        Self { inner: CapturedVarsInner::default() }
    }
}

impl<E> CapturedVars<E> {
    /// The names of the variables found so far, in the order of the visits.
    pub closed spec fn vars(&self) -> Seq<&'static str> {
        self.inner.vars@
    }

    /// The errors met so far, in the order of the visits.
    pub closed spec fn errs(&self) -> Seq<Error> {
        self.inner.errs@
    }

    /// The text of the report, for the given description of the required
    /// environment.
    pub open spec fn text(&self, required_env: Seq<char>) -> Seq<char> {
        captured_text(self.vars(), self.errs(), required_env)
    }

    /// Turns the record of a visit and the values of the fields into the
    /// result of the visit: the record itself if an error was met, else the
    /// value built from the fields, with the variables found.
    pub fn conclude(captured: Self, residual: <E as EnvResidual>::Residual) -> (r: Result<
        WithVars<E>,
        Self,
    >) where E: EnvResidual
        requires
            captured.errs().len() == 0 ==> E::complete(&residual),
        ensures
            match r {
                Ok(with_vars) => captured.errs().len() == 0 && with_vars.vars@ == captured.vars()
                    && call_ensures(E::from_residual, (residual,), with_vars.item),
                Err(back) => captured.errs().len() > 0 && back == captured,
            },
    {
        if captured.failed() {
            Err(captured)
        } else {
            Ok(captured.bind_captured_vars(E::from_residual(residual)))
        }
    }

    /// Visits the fields of a configuration with `f`, from an empty record,
    /// and returns the result of the visit.
    pub fn capture<F>(f: F) -> (r: Result<WithVars<E>, Self>) where
        E: EnvResidual,
        F: FnOnce(Self) -> (Self, <E as EnvResidual>::Residual),

        requires
            forall|start: Self|
                start.vars().len() == 0 && start.errs().len() == 0 ==> call_requires(f, (start,)),
            forall|start: Self, end: (Self, <E as EnvResidual>::Residual)|
                #![trigger call_ensures(f, (start,), end)]
                call_ensures(f, (start,), end) && end.0.errs().len() == 0 ==> E::complete(&end.1),
        ensures
            exists|start: Self, end: (Self, <E as EnvResidual>::Residual)|
                {
                    &&& start.vars().len() == 0
                    &&& start.errs().len() == 0
                    &&& #[trigger] call_ensures(f, (start,), end)
                    &&& match r {
                        Ok(with_vars) => end.0.errs().len() == 0 && with_vars.vars@
                            == end.0.vars() && call_ensures(
                            E::from_residual,
                            (end.1,),
                            with_vars.item,
                        ),
                        Err(back) => end.0.errs().len() > 0 && back == end.0,
                    }
                },
    {
        let start = Self::default();
        let end = f(start);
        let (captured, residual) = end;
        let r = Self::conclude(captured, residual);
        assert(call_ensures(f, (start,), end));
        r
    }

    /// The names of the variables found so far.
    pub fn captured_vars(&self) -> (vars: &[&'static str])
        ensures
            vars@ == self.vars(),
    {
        self.inner.vars.as_slice()
    }

    /// The errors met so far.
    pub fn errors(&self) -> (errs: &[Error])
        ensures
            errs@ == self.errs(),
    {
        self.inner.errs.as_slice()
    }

    /// Binds the variables found to the value that was read from them.
    pub fn bind_captured_vars(self, item: E) -> (with_vars: WithVars<E>)
        ensures
            with_vars.item == item,
            with_vars.vars@ == self.vars(),
    {
        WithVars { item, vars: self.inner.vars }
    }

    /// Whether an error was met.
    pub fn failed(&self) -> (failed: bool)
        ensures
            failed == (self.errs().len() > 0),
    {
        self.inner.errs.len() != 0
    }

    /// Visits an included configuration: reads it, and captures the
    /// variables it found and the errors it met.
    pub fn visit_env<T>(&mut self, env: &Environment) -> (r: Option<T>) where T: Env
        ensures
            exists|res: Result<WithVars<T>, CapturedVars<T>>| #[trigger]
                T::reads(env, res) && match res {
                    Ok(with_vars) => {
                        &&& r == Some(with_vars.item)
                        &&& final(self).vars() == old(self).vars() + with_vars.vars@
                        &&& final(self).errs() == old(self).errs()
                    },
                    Err(captured) => {
                        &&& r is None
                        &&& final(self).vars() == old(self).vars() + captured.vars()
                        &&& final(self).errs() == old(self).errs() + captured.errs()
                    },
                },
    {
        let res = T::get_env(env);
        let ghost witness = res;
        let r = match res {
            Ok(with_vars) => {
                let mut vars = with_vars.vars;
                self.inner.vars.append(&mut vars);
                Some(with_vars.item)
            },
            Err(captured) => {
                let mut vars = captured.inner.vars;
                let mut errs = captured.inner.errs;
                self.inner.vars.append(&mut vars);
                self.inner.errs.append(&mut errs);
                None
            },
        };
        assert(T::reads(env, witness));
        r
    }

    /// Visits an optional text field: captures the variable if it holds a text.
    pub fn visit_opt(&mut self, env: &Environment, var: &'static str) -> (r: Option<String>)
        ensures
            r == found(env, var@),
            final(self).vars() == if r is Some {
                old(self).vars().push(var)
            } else {
                old(self).vars()
            },
            final(self).errs() == old(self).errs(),
    {
        let r = self.inner.visit_opt(env, var);
        if r.is_some() {
            self.inner.vars.push(var);
        }
        r
    }

    /// Visits a required text field: captures the variable if it holds a
    /// text, and the error that it is missing if not.
    pub fn visit(&mut self, env: &Environment, var: &'static str) -> (r: Option<String>)
        ensures
            r == found(env, var@),
            r is Some ==> final(self).vars() == old(self).vars().push(var) && final(self).errs()
                == old(self).errs(),
            r is None ==> final(self).vars() == old(self).vars() && final(self).errs()
                == old(self).errs().push(Error::Missing(var)),
    {
        let r = self.inner.visit_opt(env, var);
        if r.is_some() {
            self.inner.vars.push(var);
        } else {
            self.inner.errs.push(Error::Missing(var));
        }
        r
    }

    /// Visits an optional field of type `T`.
    pub fn visit_opt_as<T>(&mut self, env: &Environment, var: &'static str) -> (r: Option<T>) where
        T: FromText,

        ensures
            exists|inner: Option<Option<T>>| #[trigger]
                visited_opt_as(
                    env,
                    var,
                    old(self).vars(),
                    old(self).errs(),
                    final(self).vars(),
                    final(self).errs(),
                    inner,
                ) && r == flat(inner),
    {
        let inner = self.inner.visit_opt_as(env, var);
        let ghost witness = inner;
        let r = match inner {
            Some(Some(value)) => Some(value),
            _ => None,
        };
        assert(visited_opt_as(
            env,
            var,
            old(self).vars(),
            old(self).errs(),
            self.vars(),
            self.errs(),
            witness,
        ) && r == flat(witness));
        r
    }

    /// Visits a required field of type `T`: as an optional one, but a
    /// variable without text is captured as missing.
    pub fn visit_as<T>(&mut self, env: &Environment, var: &'static str) -> (r: Option<T>) where
        T: FromText,

        ensures
            exists|inner: Option<Option<T>>, errs: Seq<Error>| #[trigger]
                visited_opt_as(
                    env,
                    var,
                    old(self).vars(),
                    old(self).errs(),
                    final(self).vars(),
                    errs,
                    inner,
                ) && r == flat(inner) && final(self).errs() == if inner == Some(None::<T>) {
                    errs.push(Error::Missing(var))
                } else {
                    errs
                },
    {
        let inner = self.inner.visit_opt_as(env, var);
        let ghost witness = inner;
        let ghost errs = self.inner.errs@;
        let r = match inner {
            Some(Some(v)) => Some(v),
            Some(None) => {
                self.inner.errs.push(Error::Missing(var));
                None
            },
            None => None,
        };
        assert(visited_opt_as(
            env,
            var,
            old(self).vars(),
            old(self).errs(),
            self.vars(),
            errs,
            witness,
        ));
        r
    }

    /// Visits a field that holds the path of a file, and reads the file.
    pub fn visit_read(&mut self, env: &Environment, var: &'static str) -> (r: Option<String>)
        ensures
            visited_read(
                env,
                var,
                old(self).vars(),
                old(self).errs(),
                final(self).vars(),
                final(self).errs(),
                r,
            ),
    {
        match self.inner.visit_opt(env, var) {
            Some(path) => {
                let content = env.read_to_string(path.as_str());
                let ghost witness = content;
                let r = match content {
                    Ok(out) => {
                        self.inner.vars.push(var);
                        Some(out)
                    },
                    Err(e) => {
                        self.inner.errs.push(Error::Io(var, e));
                        None
                    },
                };
                assert(env.reads_file(path@, witness));
                r
            },
            None => {
                self.inner.errs.push(Error::Missing(var));
                None
            },
        }
    }

    /// The report as a string.
    pub fn to_string(&self) -> (s: String) where E: FmtReqEnv
        ensures
            exists|required_env: Seq<char>| #[trigger]
                E::describes(required_env) && s@ == self.text(required_env),
    {
        let mut out = String::new();
        push_heading(&mut out, self.inner.vars.len(), "valid");
        let ghost head1 = out@;
        let ghost var_fn = |var: &'static str| var_line(var);
        let ghost err_fn = |err: Error| err_line(err);
        let mut i: usize = 0;
        while i < self.inner.vars.len()
            invariant
                i <= self.inner.vars.len(),
                var_fn == |var: &'static str| var_line(var),
                out@ == head1 + joined(self.inner.vars@.take(i as int), var_fn),
            decreases self.inner.vars.len() - i,
        {
            let var = self.inner.vars[i];
            let ghost before = out@;
            out.append("- ");
            out.append("`");
            out.append(var);
            out.append("`");
            out.append("\n");
            proof {
                let next = self.inner.vars@.take(i + 1);
                assert(next.drop_last() =~= self.inner.vars@.take(i as int));
                assert(next.last() == var);
                assert(out@ =~= before + var_line(var));
                assert(out@ =~= head1 + joined(next, var_fn));
            }
            i += 1;
        }
        assert(self.inner.vars@.take(i as int) =~= self.inner.vars@);

        push_heading(&mut out, self.inner.errs.len(), "incorrect");
        let ghost head2 = out@;
        let mut j: usize = 0;
        while j < self.inner.errs.len()
            invariant
                j <= self.inner.errs.len(),
                err_fn == |err: Error| err_line(err),
                out@ == head2 + joined(self.inner.errs@.take(j as int), err_fn),
            decreases self.inner.errs.len() - j,
        {
            let err = &self.inner.errs[j];
            let ghost before = out@;
            out.append("- ");
            let message = err.to_string();
            out.append(message.as_str());
            out.append("\n");
            proof {
                let next = self.inner.errs@.take(j + 1);
                assert(next.drop_last() =~= self.inner.errs@.take(j as int));
                assert(next.last() == *err);
                assert(out@ =~= before + err_line(*err));
                assert(out@ =~= head2 + joined(next, err_fn));
            }
            j += 1;
        }
        assert(self.inner.errs@.take(j as int) =~= self.inner.errs@);

        out.append("Note: full required environment description:\n");
        let description = E::fmt();
        out.append(description.as_str());
        assert(E::describes(description@) && out@ =~= self.text(description@));
        out
    }
}

/// Configurations that are read from the environment field by field.
pub trait Env: Sized + FmtReqEnv + EnvResidual + EnvSplitIncluded {
    /// Whether reading the configuration from `env` may give `r`. Where an
    /// implementation does not say, any result may come.
    open spec fn reads(env: &Environment, r: Result<WithVars<Self>, CapturedVars<Self>>) -> bool {
        true
    }

    /// Reads the configuration, and returns it with the variables it was
    /// read from, or the record of the visit if an error was met.
    fn get_env(env: &Environment) -> (r: Result<WithVars<Self>, CapturedVars<Self>>)
        ensures
            Self::reads(env, r),
    ;

    /// Reads the configuration, without the variables it was read from.
    fn get_with_vars(env: &Environment) -> (r: Result<Self, CapturedVars<Self>>)
        ensures
            exists|full: Result<WithVars<Self>, CapturedVars<Self>>| #[trigger]
                Self::reads(env, full) && r == match full {
                    Ok(with_vars) => Ok::<Self, CapturedVars<Self>>(with_vars.item),
                    Err(captured) => Err(captured),
                },
    {
        let full = Self::get_env(env);
        let ghost witness = full;
        let r = match full {
            Ok(with_vars) => Ok(with_vars.item),
            Err(captured) => Err(captured),
        };
        assert(Self::reads(env, witness));
        r
    }

    /// Reads the configuration, or returns the error of its initialization.
    fn try_get(env: &Environment) -> (r: Result<Self, EnvError<Self>>)
        ensures
            exists|full: Result<WithVars<Self>, CapturedVars<Self>>| #[trigger]
                Self::reads(env, full) && r == match full {
                    Ok(with_vars) => Ok::<Self, EnvError<Self>>(with_vars.item),
                    Err(captured) => Err(EnvError { inner: captured }),
                },
    {
        let full = Self::get_env(env);
        let ghost witness = full;
        let r = match full {
            Ok(with_vars) => Ok(with_vars.item),
            Err(captured) => Err(EnvError { inner: captured }),
        };
        assert(Self::reads(env, witness));
        r
    }

    /// Reads the configuration from an environment from which the read
    /// cannot fail.
    fn get(env: &Environment) -> (item: Self)
        requires
            forall|full: Result<WithVars<Self>, CapturedVars<Self>>| #[trigger]
                Self::reads(env, full) ==> full is Ok,
        ensures
            exists|with_vars: WithVars<Self>| #[trigger]
                Self::reads(env, Ok(with_vars)) && with_vars.item == item,
    {
        let full = Self::get_env(env);
        match full {
            Ok(with_vars) => {
                assert(Self::reads(env, Ok(with_vars)));
                with_vars.item
            },
            Err(_) => vstd::pervasive::unreached(),
        }
    }
}

/// The error of a configuration that could not be read: the record of the
/// visit.
#[derive(Debug)]
pub struct EnvError<E> {
    pub inner: CapturedVars<E>,
}

impl<E> From<CapturedVars<E>> for EnvError<E> {
    fn from(inner: CapturedVars<E>) -> (e: Self) {
        Self { inner }
    }
}

impl<E> vstd::std_specs::convert::FromSpecImpl<CapturedVars<E>> for EnvError<E> {
    open spec fn obeys_from_spec() -> bool {
        true
    }

    open spec fn from_spec(inner: CapturedVars<E>) -> Self {
        EnvError { inner }
    }
}

impl<E> AsRef<CapturedVars<E>> for EnvError<E> {
    fn as_ref(&self) -> (inner: &CapturedVars<E>)
        ensures
            *inner == self.inner,
    {
        &self.inner
    }
}

impl<E> AsMut<CapturedVars<E>> for EnvError<E> {
    fn as_mut(&mut self) -> (inner: &mut CapturedVars<E>)
        ensures
            *inner == old(self).inner,
            final(self).inner == *final(inner),
    {
        &mut self.inner
    }
}

impl<E> core::ops::Deref for EnvError<E> {
    type Target = CapturedVars<E>;

    fn deref(&self) -> (inner: &CapturedVars<E>)
        ensures
            *inner == self.inner,
    {
        &self.inner
    }
}

impl<E> core::ops::DerefMut for EnvError<E> {
    fn deref_mut(&mut self) -> (inner: &mut CapturedVars<E>)
        ensures
            *inner == old(self).inner,
            final(self).inner == *final(inner),
    {
        &mut self.inner
    }
}

impl<E> EnvError<E> {
    /// The message of the error: a heading and the report.
    pub open spec fn text(&self, required_env: Seq<char>) -> Seq<char> {
        "Invalid environment initialization:\n"@ + self.inner.text(required_env)
    }

    /// The message of the error as a string.
    pub fn to_string(&self) -> (s: String) where E: FmtReqEnv
        ensures
            exists|required_env: Seq<char>| #[trigger]
                E::describes(required_env) && s@ == self.text(required_env),
    {
        let mut s = String::from_str("Invalid environment initialization:\n");
        let report = self.inner.to_string();
        let ghost required_env = choose|required_env: Seq<char>| #[trigger]
            E::describes(required_env) && report@ == self.inner.text(required_env);
        s.append(report.as_str());
        assert(E::describes(required_env) && s@ == self.text(required_env));
        s
    }
}

} // verus!
