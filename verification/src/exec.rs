//! Contains everything related to the execution of a full read of a configuration.

use vstd::prelude::*;
use vstd::string::StringExecFns;
use crate::descriptor::{quoted_name, ConfigValueDescriptor, VarDescriptor};
use crate::environment::Environment;
use crate::error::{boxed_error_text, BoxedError, ConfigInitError, IntoBoxedError};
use crate::layer::Layer;
use crate::layers::Cached;
use crate::text::{heading, joined, push_heading, Render};

verus! {

/// The result of a read of a configuration value.
#[derive(Debug)]
pub struct ExecResult<'a> {
    /// The descriptor of the value that was read.
    pub config: &'a VarDescriptor,
    /// Why the read failed, if it did.
    pub error: Option<BoxedError>,
}

/// Whether `error` is what a report holds for the result `res` of a read:
/// nothing for a value, and the error in its boxed form.
pub open spec fn exec_error<T, E: IntoBoxedError>(
    res: Result<T, E>,
    error: Option<BoxedError>,
) -> bool {
    match res {
        Ok(_) => error is None,
        Err(e) => error matches Some(boxed) && e.boxes_to(boxed),
    }
}

/// Whether `error` is what a report holds for the cached result `stored`:
/// nothing for a value, and the message of a cached error.
pub open spec fn cached_exec_error<T, E: Render>(
    stored: Result<T, E>,
    error: Option<BoxedError>,
) -> bool {
    match stored {
        Ok(_) => error is None,
        Err(e) => error matches Some(BoxedError::Message(m)) && m@ == e.rendered(),
    }
}

impl<'a> ExecResult<'a> {
    /// The result of a read that gave `res`, for the value that `config` describes.
    pub fn from_result<T, E: IntoBoxedError>(config: &'a VarDescriptor, res: Result<T, E>) -> (result:
        Self)
        ensures
            result.config == config,
            exec_error(res, result.error),
    {
        match res {
            Ok(_) => ExecResult { config, error: None },
            Err(e) => ExecResult { config, error: Some(e.into_boxed()) },
        }
    }

    /// Reads the configuration value once and returns the result of the read.
    pub fn from_config<T>(config: &'a T, env: &Environment) -> (result: Self) where
        T: Layer + ConfigValueDescriptor,
        <T as Layer>::Error: IntoBoxedError,

        ensures
            *result.config == config.descriptor(),
            exists|res: Result<<T as Layer>::Output, <T as Layer>::Error>| #[trigger]
                config.outcome(env, res) && exec_error(res, result.error),
    {
        let res = config.try_get(env);
        let result = Self::from_result(config.get_descriptor(), res);
        assert(config.outcome(env, res) && exec_error(res, result.error));
        result
    }

    /// Reads the cached configuration value once and returns the result of
    /// the read. The read fills the cache if it is empty.
    pub fn from_cached<V>(config: &'a mut Cached<V>, env: &Environment) -> (result: Self) where
        V: Layer + ConfigValueDescriptor,
        <V as Layer>::Error: Render,

        ensures
            final(config).var == old(config).var,
            final(config).cached is Some,
            old(config).may_store(env, final(config).cached->0),
            *result.config == old(config).descriptor(),
            cached_exec_error(final(config).cached->0, result.error),
    {
        let error = match config.try_get(env) {
            Ok(_) => None,
            Err(e) => Some(BoxedError::Message(e.0.render())),
        };
        ExecResult { config: config.get_descriptor(), error }
    }
}

/// A read of a configuration value that failed.
#[derive(Debug)]
pub struct ExecFailedResult<'a> {
    /// The descriptor of the value that was read.
    pub config: &'a VarDescriptor,
    /// Why the read failed.
    pub error: BoxedError,
}

/// Formats the results of a whole configuration read.
#[derive(Debug)]
pub struct FmtExecResults<'a> {
    /// The values that were read, in the order of the reads.
    pub correct_vars: Vec<&'a VarDescriptor>,
    /// The values that could not be read, in the order of the reads.
    pub incorrect_vars: Vec<ExecFailedResult<'a>>,
}

/// The descriptors of the reads that succeeded, in order.
pub open spec fn correct_of<'a>(results: Seq<ExecResult<'a>>) -> Seq<&'a VarDescriptor>
    decreases results.len(),
{
    if results.len() == 0 {
        Seq::empty()
    } else if results.last().error is None {
        correct_of(results.drop_last()).push(results.last().config)
    } else {
        correct_of(results.drop_last())
    }
}

/// The reads that failed, each with its error, in order.
pub open spec fn incorrect_of<'a>(results: Seq<ExecResult<'a>>) -> Seq<ExecFailedResult<'a>>
    decreases results.len(),
{
    if results.len() == 0 {
        Seq::empty()
    } else if results.last().error is Some {
        incorrect_of(results.drop_last()).push(
            ExecFailedResult { config: results.last().config, error: results.last().error->0 },
        )
    } else {
        incorrect_of(results.drop_last())
    }
}

/// The report line of a read that failed: the quoted name and the message.
pub open spec fn incorrect_line<'a>(var: ExecFailedResult<'a>) -> Seq<char> {
    "- "@ + quoted_name(var.config.var_name@) + ": "@ + boxed_error_text(var.error) + "\n"@
}

/// The report line of a read that succeeded: the quoted name.
pub open spec fn correct_line<'a>(var: &'a VarDescriptor) -> Seq<char> {
    "- "@ + quoted_name(var.var_name@) + "\n"@
}

/// The catalogue line of a value: its descriptor line.
pub open spec fn catalogue_line<'a>(var: &'a VarDescriptor) -> Seq<char> {
    "- "@ + var.line() + "\n"@
}

/// The descriptors of the given failed reads, in order.
pub open spec fn configs_of<'a>(vars: Seq<ExecFailedResult<'a>>) -> Seq<&'a VarDescriptor> {
    Seq::new(vars.len(), |i: int| vars[i].config)
}

/// The report: the failed reads, the successful ones, then the catalogue
/// of all the values, those that failed first.
pub open spec fn report<'a>(
    incorrect: Seq<ExecFailedResult<'a>>,
    correct: Seq<&'a VarDescriptor>,
) -> Seq<char> {
    heading(incorrect.len(), "incorrect"@) + joined(
        incorrect,
        |var: ExecFailedResult<'a>| incorrect_line(var),
    ) + heading(correct.len(), "valid"@) + joined(
        correct,
        |var: &'a VarDescriptor| correct_line(var),
    ) + "Full required environment description:\n"@ + joined(
        configs_of(incorrect),
        |var: &'a VarDescriptor| catalogue_line(var),
    ) + joined(correct, |var: &'a VarDescriptor| catalogue_line(var))
}

impl<'a> FmtExecResults<'a> {
    /// The text of the report.
    pub open spec fn text(&self) -> Seq<char> {
        report(self.incorrect_vars@, self.correct_vars@)
    }

    /// Whether no read failed.
    pub fn is_ok(&self) -> (ok: bool)
        ensures
            ok == (self.incorrect_vars@.len() == 0),
    {
        self.incorrect_vars.len() == 0
    }

    /// The report as a string.
    pub fn to_string(&self) -> (s: String)
        ensures
            s@ == self.text(),
    {
        let mut out = String::new();
        push_heading(&mut out, self.incorrect_vars.len(), "incorrect");
        let ghost head1 = out@;
        let ghost incorrect_fn = |var: ExecFailedResult<'a>| incorrect_line(var);
        let ghost correct_fn = |var: &'a VarDescriptor| correct_line(var);
        let ghost catalogue_fn = |var: &'a VarDescriptor| catalogue_line(var);

        let mut i: usize = 0;
        while i < self.incorrect_vars.len()
            invariant
                i <= self.incorrect_vars.len(),
                incorrect_fn == |var: ExecFailedResult<'a>| incorrect_line(var),
                out@ == head1 + joined(self.incorrect_vars@.take(i as int), incorrect_fn),
            decreases self.incorrect_vars.len() - i,
        {
            let var = &self.incorrect_vars[i];
            let ghost before = out@;
            out.append("- `");
            out.append(var.config.var_name);
            out.append("`: ");
            let message = var.error.to_string();
            out.append(message.as_str());
            out.append("\n");
            proof {
                reveal_strlit("- `");
                reveal_strlit("`: ");
                reveal_strlit("- ");
                reveal_strlit("`");
                reveal_strlit(": ");
                let next = self.incorrect_vars@.take(i + 1);
                assert(next.drop_last() =~= self.incorrect_vars@.take(i as int));
                assert(next.last() == *var);
                assert(out@ =~= before + incorrect_line(*var));
                assert(out@ =~= head1 + joined(next, incorrect_fn));
            }
            i += 1;
        }
        assert(self.incorrect_vars@.take(i as int) =~= self.incorrect_vars@);

        let ghost part1 = out@;
        push_heading(&mut out, self.correct_vars.len(), "valid");
        let ghost head2 = out@;
        let mut j: usize = 0;
        while j < self.correct_vars.len()
            invariant
                j <= self.correct_vars.len(),
                correct_fn == |var: &'a VarDescriptor| correct_line(var),
                out@ == head2 + joined(self.correct_vars@.take(j as int), correct_fn),
            decreases self.correct_vars.len() - j,
        {
            let var = self.correct_vars[j];
            let ghost before = out@;
            out.append("- `");
            out.append(var.var_name);
            out.append("`\n");
            proof {
                reveal_strlit("- `");
                reveal_strlit("`\n");
                reveal_strlit("- ");
                reveal_strlit("`");
                reveal_strlit("\n");
                let next = self.correct_vars@.take(j + 1);
                assert(next.drop_last() =~= self.correct_vars@.take(j as int));
                assert(next.last() == var);
                assert(out@ =~= before + correct_line(var));
                assert(out@ =~= head2 + joined(next, correct_fn));
            }
            j += 1;
        }
        assert(self.correct_vars@.take(j as int) =~= self.correct_vars@);

        out.append("Full required environment description:\n");
        let ghost head3 = out@;
        let ghost failed = configs_of(self.incorrect_vars@);
        let mut k: usize = 0;
        while k < self.incorrect_vars.len()
            invariant
                k <= self.incorrect_vars.len(),
                failed == configs_of(self.incorrect_vars@),
                catalogue_fn == |var: &'a VarDescriptor| catalogue_line(var),
                out@ == head3 + joined(failed.take(k as int), catalogue_fn),
            decreases self.incorrect_vars.len() - k,
        {
            let var = self.incorrect_vars[k].config;
            let ghost before = out@;
            out.append("- ");
            let line = var.to_string();
            out.append(line.as_str());
            out.append("\n");
            proof {
                let next = failed.take(k + 1);
                assert(next.drop_last() =~= failed.take(k as int));
                assert(next.last() == var);
                assert(out@ =~= before + catalogue_line(var));
                assert(out@ =~= head3 + joined(next, catalogue_fn));
            }
            k += 1;
        }
        assert(failed.take(k as int) =~= failed);

        let ghost head4 = out@;
        let mut m: usize = 0;
        while m < self.correct_vars.len()
            invariant
                m <= self.correct_vars.len(),
                catalogue_fn == |var: &'a VarDescriptor| catalogue_line(var),
                out@ == head4 + joined(self.correct_vars@.take(m as int), catalogue_fn),
            decreases self.correct_vars.len() - m,
        {
            let var = self.correct_vars[m];
            let ghost before = out@;
            out.append("- ");
            let line = var.to_string();
            out.append(line.as_str());
            out.append("\n");
            proof {
                let next = self.correct_vars@.take(m + 1);
                assert(next.drop_last() =~= self.correct_vars@.take(m as int));
                assert(next.last() == var);
                assert(out@ =~= before + catalogue_line(var));
                assert(out@ =~= head4 + joined(next, catalogue_fn));
            }
            m += 1;
        }
        assert(self.correct_vars@.take(m as int) =~= self.correct_vars@);
        assert(out@ =~= self.text());
        out
    }
}

impl<'a> Render for FmtExecResults<'a> {
    open spec fn rendered(&self) -> Seq<char> {
        self.text()
    }

    fn render(&self) -> (s: String) {
        self.to_string()
    }
}

/// Returns a formatted version of the given configuration value results:
/// the reads that succeeded and those that failed, each group in the order
/// of the reads.
pub fn fmt_exec_results<'a>(results: Vec<ExecResult<'a>>) -> (res: FmtExecResults<'a>)
    ensures
        res.correct_vars@ == correct_of(results@),
        res.incorrect_vars@ == incorrect_of(results@),
{
    let mut incorrect_vars: Vec<ExecFailedResult<'a>> = Vec::new();
    let mut correct_vars: Vec<&'a VarDescriptor> = Vec::new();
    let ghost all = results@;

    for result in it: results
        invariant
            it.seq() == all,
            correct_vars@ == correct_of(all.take(it.index())),
            incorrect_vars@ == incorrect_of(all.take(it.index())),
    {
        proof {
            let next = all.take(it.index() + 1);
            assert(next.drop_last() =~= all.take(it.index()));
            assert(next.last() == result);
        }
        if let Some(err) = result.error {
            incorrect_vars.push(ExecFailedResult { config: result.config, error: err });
        } else {
            correct_vars.push(result.config);
        }
    }
    assert(all.take(all.len() as int) =~= all);

    FmtExecResults { correct_vars, incorrect_vars }
}

/// Whether the given results are those of the values of `catalogue`, one
/// for each value and in the same order.
pub open spec fn described_by<'a>(results: Seq<ExecResult<'a>>, catalogue: Seq<VarDescriptor>) -> bool {
    &&& results.len() == catalogue.len()
    &&& forall|i: int| 0 <= i < results.len() ==> *(#[trigger] results[i]).config == catalogue[i]
}

/// The errors of the given results, in order.
pub open spec fn errors_of<'a>(results: Seq<ExecResult<'a>>) -> Seq<Option<BoxedError>> {
    Seq::new(results.len(), |i: int| results[i].error)
}

/// Whether none of the given entries is an error.
pub open spec fn no_error(errors: Seq<Option<BoxedError>>) -> bool {
    forall|i: int| 0 <= i < errors.len() ==> (#[trigger] errors[i]) is None
}

/// Whether `r` is what an initialization returns for the given results:
/// success if no read failed, else the error that holds the results.
pub open spec fn init_outcome<'a>(
    results: Seq<ExecResult<'a>>,
    r: Result<(), ConfigInitError<'a>>,
) -> bool {
    match r {
        Ok(_) => incorrect_of(results).len() == 0,
        Err(e) => {
            &&& incorrect_of(results).len() > 0
            &&& e.error.correct_vars@ == correct_of(results)
            &&& e.error.incorrect_vars@ == incorrect_of(results)
        },
    }
}

/// Every read is in exactly one of the two groups, and no read is in the
/// group of the failed ones exactly if no read has an error.
pub proof fn lemma_partition<'a>(results: Seq<ExecResult<'a>>)
    ensures
        correct_of(results).len() + incorrect_of(results).len() == results.len(),
        incorrect_of(results).len() == 0 <==> forall|i: int|
            0 <= i < results.len() ==> (#[trigger] results[i]).error is None,
    decreases results.len(),
{
    if results.len() > 0 {
        let rest = results.drop_last();
        lemma_partition(rest);
        if incorrect_of(results).len() == 0 {
            assert forall|i: int| 0 <= i < results.len() implies (#[trigger] results[i]).error is None by {
                if i < rest.len() {
                    assert(rest[i] == results[i]);
                }
            }
        } else if results.last().error is None {
            let i = choose|i: int| 0 <= i < rest.len() && !((#[trigger] rest[i]).error is None);
            assert(results[i] == rest[i]);
        }
    }
}

/// Turns the results of the reads of a configuration into the result of its
/// initialization.
pub fn init_result<'a>(results: Vec<ExecResult<'a>>) -> (r: Result<(), ConfigInitError<'a>>)
    ensures
        init_outcome(results@, r),
{
    let res = fmt_exec_results(results);
    if res.incorrect_vars.len() == 0 {
        Ok(())
    } else {
        Err(ConfigInitError { error: res })
    }
}

/// Represents types able to read a set of configuration values.
pub trait ConfigInitializer: Sized {
    /// The descriptors of the configuration values, in the order in which
    /// they are declared. The values of a nested configuration stand where
    /// the nested configuration is declared, in its own order.
    spec fn catalogue(&self) -> Seq<VarDescriptor>;

    /// Whether a read of every value from `env` may give the given errors,
    /// one entry for each value, and leave the configuration as `after`.
    spec fn executes(&self, env: &Environment, after: &Self, errors: Seq<Option<BoxedError>>) -> bool;

    /// Reads the whole configuration values set, and returns the results:
    /// every value is read once, whatever the reads before it gave, and the
    /// results stand in the order of the catalogue.
    ///
    /// A cached value that was not read yet is read now, and keeps what this
    /// read gave.
    fn init_raw<'a>(&'a mut self, env: &Environment) -> (results: Vec<ExecResult<'a>>)
        ensures
            final(self).catalogue() == old(self).catalogue(),
            described_by(results@, old(self).catalogue()),
            old(self).executes(env, final(self), errors_of(results@)),
    ;

    /// Reads the configuration, and returns a formatted result in case of any error.
    ///
    /// This method returns `Err(_)` if any configuration value failed to read, and `Ok(_)`
    /// otherwise.
    fn try_init<'a>(&'a mut self, env: &Environment) -> (r: Result<(), ConfigInitError<'a>>)
        ensures
            final(self).catalogue() == old(self).catalogue(),
            exists|results: Seq<ExecResult<'a>>|
                {
                    &&& described_by(results, old(self).catalogue())
                    &&& #[trigger] old(self).executes(env, final(self), errors_of(results))
                    &&& init_outcome(results, r)
                },
    {
        let results = self.init_raw(env);
        let ghost all = results@;
        let r = init_result(results);
        assert(init_outcome(all, r));
        r
    }

    /// Reads the configuration from an environment from which no read can fail.
    fn init(&mut self, env: &Environment)
        requires
            forall|after: &Self, errors: Seq<Option<BoxedError>>| #[trigger]
                old(self).executes(env, after, errors) ==> no_error(errors),
        ensures
            final(self).catalogue() == old(self).catalogue(),
            exists|errors: Seq<Option<BoxedError>>| #[trigger]
                old(self).executes(env, final(self), errors),
    {
        let results = self.init_raw(env);
        proof {
            lemma_partition(results@);
            assert forall|i: int| 0 <= i < results@.len() implies (#[trigger] results@[i]).error is None by {
                assert(errors_of(results@)[i] is None);
            }
        }
        match init_result(results) {
            Ok(_) => {},
            Err(_) => vstd::pervasive::unreached(),
        }
    }
}

/// A configuration value alone is a configuration of one value.
impl<T> ConfigInitializer for T where
    T: Layer + ConfigValueDescriptor,
    <T as Layer>::Error: IntoBoxedError,
 {
    open spec fn catalogue(&self) -> Seq<VarDescriptor> {
        seq![self.descriptor()]
    }

    open spec fn executes(&self, env: &Environment, after: &Self, errors: Seq<Option<BoxedError>>) -> bool {
        &&& *after == *self
        &&& errors.len() == 1
        &&& exists|res: Result<<T as Layer>::Output, <T as Layer>::Error>| #[trigger]
            self.outcome(env, res) && exec_error(res, errors[0])
    }

    fn init_raw<'a>(&'a mut self, env: &Environment) -> (results: Vec<ExecResult<'a>>) {
        let result = ExecResult::from_config(&*self, env);
        let mut results: Vec<ExecResult<'a>> = Vec::new();
        results.push(result);
        results
    }
}

/// A cached configuration value alone is a configuration of one value.
impl<V> ConfigInitializer for Cached<V> where
    V: Layer + ConfigValueDescriptor,
    <V as Layer>::Error: Render,
 {
    open spec fn catalogue(&self) -> Seq<VarDescriptor> {
        seq![self.descriptor()]
    }

    open spec fn executes(&self, env: &Environment, after: &Self, errors: Seq<Option<BoxedError>>) -> bool {
        &&& after.var == self.var
        &&& after.cached is Some
        &&& self.may_store(env, after.cached->0)
        &&& errors.len() == 1
        &&& cached_exec_error(after.cached->0, errors[0])
    }

    fn init_raw<'a>(&'a mut self, env: &Environment) -> (results: Vec<ExecResult<'a>>) {
        let result = ExecResult::from_cached(self, env);
        let mut results: Vec<ExecResult<'a>> = Vec::new();
        results.push(result);
        results
    }
}

/// The configuration without values.
impl ConfigInitializer for () {
    open spec fn catalogue(&self) -> Seq<VarDescriptor> {
        Seq::empty()
    }

    open spec fn executes(&self, env: &Environment, after: &Self, errors: Seq<Option<BoxedError>>) -> bool {
        errors.len() == 0
    }

    fn init_raw<'a>(&'a mut self, env: &Environment) -> (results: Vec<ExecResult<'a>>) {
        Vec::new()
    }
}

/// Two configurations one after the other: the values of the first, then
/// those of the second.
impl<A: ConfigInitializer, B: ConfigInitializer> ConfigInitializer for (A, B) {
    open spec fn catalogue(&self) -> Seq<VarDescriptor> {
        self.0.catalogue() + self.1.catalogue()
    }

    open spec fn executes(&self, env: &Environment, after: &Self, errors: Seq<Option<BoxedError>>) -> bool {
        let n = self.0.catalogue().len() as int;
        &&& n <= errors.len()
        &&& self.0.executes(env, &after.0, errors.take(n))
        &&& self.1.executes(env, &after.1, errors.skip(n))
    }

    fn init_raw<'a>(&'a mut self, env: &Environment) -> (results: Vec<ExecResult<'a>>) {
        let mut results = self.0.init_raw(env);
        let mut rest = self.1.init_raw(env);
        let ghost first = results@;
        let ghost second = rest@;
        results.append(&mut rest);
        proof {
            let n = first.len() as int;
            assert(errors_of(results@).take(n) =~= errors_of(first));
            assert(errors_of(results@).skip(n) =~= errors_of(second));
        }
        results
    }
}

/// A configuration that embeds a nested configuration before its own
/// values lists the values of the nested one first, in the order of the
/// nested one, and then its own.
pub proof fn lemma_flattening<A: ConfigInitializer, B: ConfigInitializer>(nested: A, own: B)
    ensures
        (nested, own).catalogue() == nested.catalogue() + own.catalogue(),
        (nested, own).catalogue().len() == nested.catalogue().len() + own.catalogue().len(),
        forall|i: int|
            0 <= i < nested.catalogue().len() ==> (#[trigger] (nested, own).catalogue()[i])
                == nested.catalogue()[i],
        forall|i: int|
            0 <= i < own.catalogue().len() ==> (#[trigger] (nested, own).catalogue()[
                nested.catalogue().len() + i]) == own.catalogue()[i],
{
}

/// A nested configuration of the values `a` and `b`, followed by the values
/// `c` and `d`, lists them as `a`, `b`, `c`, `d`: the values stand in the
/// order in which they are declared, at every level.
pub proof fn lemma_declaration_order<A, B, C, D>(a: A, b: B, c: C, d: D) where
    A: Layer + ConfigValueDescriptor,
    B: Layer + ConfigValueDescriptor,
    C: Layer + ConfigValueDescriptor,
    D: Layer + ConfigValueDescriptor,
    <A as Layer>::Error: IntoBoxedError,
    <B as Layer>::Error: IntoBoxedError,
    <C as Layer>::Error: IntoBoxedError,
    <D as Layer>::Error: IntoBoxedError,

    ensures
        ((a, b), (c, (d, ()))).catalogue() == seq![
            a.descriptor(),
            b.descriptor(),
            c.descriptor(),
            d.descriptor(),
        ],
{
    assert(((a, b), (c, (d, ()))).catalogue() =~= seq![
        a.descriptor(),
        b.descriptor(),
        c.descriptor(),
        d.descriptor(),
    ]);
}

/// A configuration value alone, by its definition as a configuration; for
/// verified code whose value holds a closure.
pub proof fn lemma_value_alone<T>(
    value: T,
    env: &Environment,
    after: &T,
    errors: Seq<Option<BoxedError>>,
) where T: Layer + ConfigValueDescriptor, <T as Layer>::Error: IntoBoxedError
    ensures
        value.catalogue() == seq![value.descriptor()],
        value.executes(env, after, errors) == {
            &&& *after == value
            &&& errors.len() == 1
            &&& exists|res: Result<<T as Layer>::Output, <T as Layer>::Error>| #[trigger]
                value.outcome(env, res) && exec_error(res, errors[0])
        },
{
}

/// A cached configuration value alone, by its definition as a
/// configuration; for verified code whose value holds a closure.
pub proof fn lemma_cached_alone<V>(
    value: Cached<V>,
    env: &Environment,
    after: &Cached<V>,
    errors: Seq<Option<BoxedError>>,
) where V: Layer + ConfigValueDescriptor, <V as Layer>::Error: Render
    ensures
        value.catalogue() == seq![value.descriptor()],
        value.executes(env, after, errors) == {
            &&& after.var == value.var
            &&& after.cached is Some
            &&& value.may_store(env, after.cached->0)
            &&& errors.len() == 1
            &&& cached_exec_error(after.cached->0, errors[0])
        },
{
}

/// Two configurations one after the other, by their definition as a
/// configuration: the first takes the errors of its own values, the second
/// the rest. For verified code whose values hold a closure.
pub proof fn lemma_pair_executes<A: ConfigInitializer, B: ConfigInitializer>(
    pair: (A, B),
    env: &Environment,
    after: &(A, B),
    errors: Seq<Option<BoxedError>>,
)
    ensures
        pair.executes(env, after, errors) == {
            let n = pair.0.catalogue().len() as int;
            &&& n <= errors.len()
            &&& pair.0.executes(env, &after.0, errors.take(n))
            &&& pair.1.executes(env, &after.1, errors.skip(n))
        },
{
}

} // verus!
