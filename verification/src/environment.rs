//! The environment that configuration values are read from: named
//! variables, and files that variables may point to.
//!
//! An environment is a value. Reading from it changes nothing, and what a
//! reader returns depends on the reader and on the environment alone.

use vstd::prelude::*;
use vstd::string::StringExecFns;
use crate::error::{IoError, IoErrorKind, VarError};

verus! {

/// What a variable holds.
#[derive(Debug)]
pub enum VarValue {
    /// A text.
    Text(String),
    /// Something that is not valid unicode, in a printable form.
    NotUnicode(String),
    /// Nothing: the variable was removed.
    Unset,
}

/// A variable: its name and what it holds.
#[derive(Debug)]
pub struct Variable {
    pub name: String,
    pub value: VarValue,
}

/// A file: its path and what reading it gives.
#[derive(Debug)]
pub struct File {
    pub path: String,
    pub content: Result<String, IoError>,
}

/// The variables and files that configuration values are read from.
#[derive(Debug)]
pub struct Environment {
    vars: Vec<Variable>,
    files: Vec<File>,
}

/// The index of the first variable called `name`, or the number of
/// variables if there is none.
pub open spec fn var_position(vars: Seq<Variable>, name: Seq<char>) -> int
    decreases vars.len(),
{
    if vars.len() == 0 {
        0
    } else if vars[0].name@ == name {
        0
    } else {
        1 + var_position(vars.drop_first(), name)
    }
}

/// The index of the first file at `path`, or the number of files if there
/// is none.
pub open spec fn file_position(files: Seq<File>, path: Seq<char>) -> int
    decreases files.len(),
{
    if files.len() == 0 {
        0
    } else if files[0].path@ == path {
        0
    } else {
        1 + file_position(files.drop_first(), path)
    }
}

/// What reading a variable of the given value gives.
pub open spec fn read_value(value: VarValue) -> Result<String, VarError> {
    match value {
        VarValue::Text(text) => Ok(text),
        VarValue::NotUnicode(raw) => Err(VarError::NotUnicode(raw)),
        VarValue::Unset => Err(VarError::NotPresent),
    }
}

/// The first variable called `name` is at `var_position`, and nowhere before.
pub proof fn lemma_var_position(vars: Seq<Variable>, name: Seq<char>)
    ensures
        0 <= var_position(vars, name) <= vars.len(),
        var_position(vars, name) < vars.len() ==> vars[var_position(vars, name)].name@ == name,
        forall|i: int| 0 <= i < var_position(vars, name) ==> (#[trigger] vars[i]).name@ != name,
    decreases vars.len(),
{
    if vars.len() > 0 && vars[0].name@ != name {
        let rest = vars.drop_first();
        lemma_var_position(rest, name);
        assert forall|i: int| 0 <= i < var_position(vars, name) implies (#[trigger] vars[i]).name@
            != name by {
            if i > 0 {
                assert(vars[i] == rest[i - 1]);
            }
        }
    }
}

/// An index is `var_position` if the variable there is called `name` (or
/// the index is the number of variables) and none before it is.
pub proof fn lemma_var_position_is(vars: Seq<Variable>, name: Seq<char>, p: int)
    requires
        0 <= p <= vars.len(),
        p < vars.len() ==> vars[p].name@ == name,
        forall|i: int| 0 <= i < p ==> (#[trigger] vars[i]).name@ != name,
    ensures
        var_position(vars, name) == p,
    decreases vars.len(),
{
    if vars.len() > 0 && p > 0 {
        let rest = vars.drop_first();
        assert(vars[0].name@ != name);
        assert forall|i: int| 0 <= i < p - 1 implies (#[trigger] rest[i]).name@ != name by {
            assert(rest[i] == vars[i + 1]);
        }
        lemma_var_position_is(rest, name, p - 1);
    }
}

/// The first file at `path` is at `file_position`, and nowhere before.
pub proof fn lemma_file_position(files: Seq<File>, path: Seq<char>)
    ensures
        0 <= file_position(files, path) <= files.len(),
        file_position(files, path) < files.len() ==> files[file_position(files, path)].path@
            == path,
        forall|i: int| 0 <= i < file_position(files, path) ==> (#[trigger] files[i]).path@ != path,
    decreases files.len(),
{
    if files.len() > 0 && files[0].path@ != path {
        let rest = files.drop_first();
        lemma_file_position(rest, path);
        assert forall|i: int| 0 <= i < file_position(files, path) implies (
        #[trigger] files[i]).path@ != path by {
            if i > 0 {
                assert(files[i] == rest[i - 1]);
            }
        }
    }
}

/// An index is `file_position` if the file there is at `path` (or the
/// index is the number of files) and none before it is.
pub proof fn lemma_file_position_is(files: Seq<File>, path: Seq<char>, p: int)
    requires
        0 <= p <= files.len(),
        p < files.len() ==> files[p].path@ == path,
        forall|i: int| 0 <= i < p ==> (#[trigger] files[i]).path@ != path,
    ensures
        file_position(files, path) == p,
    decreases files.len(),
{
    if files.len() > 0 && p > 0 {
        let rest = files.drop_first();
        assert(files[0].path@ != path);
        assert forall|i: int| 0 <= i < p - 1 implies (#[trigger] rest[i]).path@ != path by {
            assert(rest[i] == files[i + 1]);
        }
        lemma_file_position_is(rest, path, p - 1);
    }
}

impl Environment {
    /// The variables, in the order in which they were first set.
    pub closed spec fn vars(&self) -> Seq<Variable> {
        self.vars@
    }

    /// The files, in the order in which they were first set.
    pub closed spec fn files(&self) -> Seq<File> {
        self.files@
    }

    /// What reading the variable `name` gives: the text it holds, or why
    /// there is none.
    pub open spec fn var_spec(&self, name: Seq<char>) -> Result<String, VarError> {
        let p = var_position(self.vars(), name);
        if p < self.vars().len() {
            read_value(self.vars()[p].value)
        } else {
            Err(VarError::NotPresent)
        }
    }

    /// What was set for the file at `path`: its content, or why it cannot
    /// be read; nothing for a path that was never set.
    pub open spec fn file_spec(&self, path: Seq<char>) -> Option<Result<String, IoError>> {
        let p = file_position(self.files(), path);
        if p < self.files().len() {
            Some(self.files()[p].content)
        } else {
            None
        }
    }

    /// Whether reading the file at `path` gives `r`: what was set for the
    /// path, or for a path that was never set an error of the kind that the
    /// file is not found.
    pub open spec fn reads_file(&self, path: Seq<char>, r: Result<String, IoError>) -> bool {
        match self.file_spec(path) {
            Some(content) => r == content,
            None => r matches Err(e) && e.kind == IoErrorKind::NotFound,
        }
    }

    /// An environment without variables and without files.
    pub fn new() -> (env: Environment)
        ensures
            env.vars().len() == 0,
            env.files().len() == 0,
            forall|name: Seq<char>| #[trigger] env.var_spec(name) == Err::<String, VarError>(VarError::NotPresent),
            forall|path: Seq<char>| (#[trigger] env.file_spec(path)) is None,
    {
        Environment { vars: Vec::new(), files: Vec::new() }
    }

    /// The index of the first variable called `name`.
    fn find_var(&self, name: &String) -> (p: usize)
        ensures
            p == var_position(self.vars(), name@),
    {
        let mut i: usize = 0;
        while i < self.vars.len() && !(self.vars[i].name == *name)
            invariant
                i <= self.vars.len(),
                forall|j: int| 0 <= j < i ==> (#[trigger] self.vars@[j]).name@ != name@,
            decreases self.vars.len() - i,
        {
            i += 1;
        }
        proof {
            lemma_var_position_is(self.vars@, name@, i as int);
        }
        i
    }

    /// The index of the first file at `path`.
    fn find_file(&self, path: &String) -> (p: usize)
        ensures
            p == file_position(self.files(), path@),
    {
        let mut i: usize = 0;
        while i < self.files.len() && !(self.files[i].path == *path)
            invariant
                i <= self.files.len(),
                forall|j: int| 0 <= j < i ==> (#[trigger] self.files@[j]).path@ != path@,
            decreases self.files.len() - i,
        {
            i += 1;
        }
        proof {
            lemma_file_position_is(self.files@, path@, i as int);
        }
        i
    }

    /// Gives the variable `name` the given value, in place of the one it had.
    fn put_var(&mut self, name: &str, value: VarValue)
        ensures
            final(self).var_spec(name@) == read_value(value),
            forall|other: Seq<char>| other != name@ ==> #[trigger] final(self).var_spec(other) == old(self).var_spec(other),
            final(self).files() == old(self).files(),
    {
        let key = String::from_str(name);
        let p = self.find_var(&key);
        let ghost before = self.vars@;
        if p < self.vars.len() {
            self.vars[p].value = value;
        } else {
            self.vars.push(Variable { name: key, value });
        }
        proof {
            let after = self.vars@;
            lemma_var_position(before, name@);
            lemma_var_position_is(after, name@, p as int);
            assert forall|other: Seq<char>| other != name@ implies #[trigger] self.var_spec(other)
                == old(self).var_spec(other) by {
                lemma_var_position(before, other);
                let q = var_position(before, other);
                assert forall|i: int| 0 <= i < q implies (#[trigger] after[i]).name@ != other by {
                    assert(before[i].name@ != other);
                }
                if q < before.len() {
                    lemma_var_position_is(after, other, q);
                } else {
                    lemma_var_position_is(after, other, after.len() as int);
                }
            }
        }
    }

    /// Sets the variable `name` to the text `value`.
    pub fn set_var(&mut self, name: &str, value: &str)
        ensures
            final(self).var_spec(name@) matches Ok(text) && text@ == value@,
            forall|other: Seq<char>| other != name@ ==> #[trigger] final(self).var_spec(other) == old(self).var_spec(other),
            forall|path: Seq<char>| #[trigger] final(self).file_spec(path) == old(self).file_spec(path),
    {
        self.put_var(name, VarValue::Text(String::from_str(value)));
    }

    /// Sets the variable `name` to something that is not valid unicode;
    /// `raw` is a printable form of it.
    pub fn set_var_not_unicode(&mut self, name: &str, raw: &str)
        ensures
            final(self).var_spec(name@) matches Err(VarError::NotUnicode(held)) && held@ == raw@,
            forall|other: Seq<char>| other != name@ ==> #[trigger] final(self).var_spec(other) == old(self).var_spec(other),
            forall|path: Seq<char>| #[trigger] final(self).file_spec(path) == old(self).file_spec(path),
    {
        self.put_var(name, VarValue::NotUnicode(String::from_str(raw)));
    }

    /// Removes the variable `name`.
    pub fn remove_var(&mut self, name: &str)
        ensures
            final(self).var_spec(name@) == Err::<String, VarError>(VarError::NotPresent),
            forall|other: Seq<char>| other != name@ ==> #[trigger] final(self).var_spec(other) == old(self).var_spec(other),
            forall|path: Seq<char>| #[trigger] final(self).file_spec(path) == old(self).file_spec(path),
    {
        self.put_var(name, VarValue::Unset);
    }

    /// Sets what reading the file at `path` gives.
    fn put_file(&mut self, path: &str, content: Result<String, IoError>)
        ensures
            final(self).file_spec(path@) == Some(content),
            forall|other: Seq<char>| other != path@ ==> #[trigger] final(self).file_spec(other) == old(self).file_spec(other),
            final(self).vars() == old(self).vars(),
    {
        let key = String::from_str(path);
        let p = self.find_file(&key);
        let ghost before = self.files@;
        if p < self.files.len() {
            self.files[p].content = content;
        } else {
            self.files.push(File { path: key, content });
        }
        proof {
            let after = self.files@;
            lemma_file_position(before, path@);
            lemma_file_position_is(after, path@, p as int);
            assert forall|other: Seq<char>| other != path@ implies #[trigger] self.file_spec(other)
                == old(self).file_spec(other) by {
                lemma_file_position(before, other);
                let q = file_position(before, other);
                assert forall|i: int| 0 <= i < q implies (#[trigger] after[i]).path@ != other by {
                    assert(before[i].path@ != other);
                }
                if q < before.len() {
                    lemma_file_position_is(after, other, q);
                } else {
                    lemma_file_position_is(after, other, after.len() as int);
                }
            }
        }
    }

    /// Puts a file with the text `content` at `path`.
    pub fn set_file(&mut self, path: &str, content: &str)
        ensures
            final(self).file_spec(path@) matches Some(Ok(text)) && text@ == content@,
            forall|other: Seq<char>| other != path@ ==> #[trigger] final(self).file_spec(other) == old(self).file_spec(other),
            forall|name: Seq<char>| #[trigger] final(self).var_spec(name) == old(self).var_spec(name),
    {
        self.put_file(path, Ok(String::from_str(content)));
    }

    /// Makes reading the file at `path` fail with an error of the given
    /// kind and message.
    pub fn set_file_error(&mut self, path: &str, kind: IoErrorKind, message: &str)
        ensures
            final(self).file_spec(path@) matches Some(Err(e)) && e.kind == kind && e.message@
                == message@,
            forall|other: Seq<char>| other != path@ ==> #[trigger] final(self).file_spec(other) == old(self).file_spec(other),
            forall|name: Seq<char>| #[trigger] final(self).var_spec(name) == old(self).var_spec(name),
    {
        self.put_file(path, Err(IoError { kind, message: String::from_str(message) }));
    }

    /// Reads the variable `name`.
    pub fn var(&self, name: &str) -> (r: Result<String, VarError>)
        ensures
            r == self.var_spec(name@),
    {
        let key = String::from_str(name);
        let p = self.find_var(&key);
        if p < self.vars.len() {
            match &self.vars[p].value {
                VarValue::Text(text) => Ok(text.clone()),
                VarValue::NotUnicode(raw) => Err(VarError::NotUnicode(raw.clone())),
                VarValue::Unset => Err(VarError::NotPresent),
            }
        } else {
            Err(VarError::NotPresent)
        }
    }

    /// Reads the file at `path`.
    pub fn read_to_string(&self, path: &str) -> (r: Result<String, IoError>)
        ensures
            self.reads_file(path@, r),
    {
        let key = String::from_str(path);
        let p = self.find_file(&key);
        if p < self.files.len() {
            match &self.files[p].content {
                Ok(text) => Ok(text.clone()),
                Err(e) => Err(e.duplicate()),
            }
        } else {
            Err(
                IoError {
                    kind: IoErrorKind::NotFound,
                    message: String::from_str("entity not found"),
                },
            )
        }
    }
}

} // verus!
