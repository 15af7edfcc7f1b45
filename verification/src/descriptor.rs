//! Descriptors of configuration values.

use vstd::prelude::*;
use vstd::string::StringExecFns;
use crate::text::Render;

verus! {

/// Describes a configuration value.
#[derive(Debug)]
pub struct VarDescriptor {
    /// The name of the environment variable this configuration value is read from.
    pub var_name: &'static str,
    /// What the value is for, in words.
    pub description: Option<&'static str>,
    /// The default value, as it is shown to the user.
    pub default_val_fmt: Option<&'static str>,
}

/// The description clause of a descriptor line: empty when there is none.
pub open spec fn description_clause(description: Option<&'static str>) -> Seq<char> {
    match description {
        Some(text) => ": "@ + text@,
        None => Seq::empty(),
    }
}

/// The default clause of a descriptor line: empty when there is none.
pub open spec fn default_clause(default_val_fmt: Option<&'static str>) -> Seq<char> {
    match default_val_fmt {
        Some(text) => " (default: "@ + text@ + ")"@,
        None => Seq::empty(),
    }
}

/// A variable name between backquotes.
pub open spec fn quoted_name(var_name: Seq<char>) -> Seq<char> {
    "`"@ + var_name + "`"@
}

impl VarDescriptor {
    /// The descriptor line: the quoted name, then the description and the
    /// default value, each left out when absent.
    pub open spec fn line(&self) -> Seq<char> {
        quoted_name(self.var_name@) + description_clause(self.description) + default_clause(
            self.default_val_fmt,
        )
    }

    /// The descriptor line as a string.
    pub fn to_string(&self) -> (s: String)
        ensures
            s@ == self.line(),
    {
        let mut s = String::from_str("`");
        s.append(self.var_name);
        s.append("`");
        match self.description {
            Some(text) => {
                s.append(": ");
                s.append(text);
                assert(s@ =~= quoted_name(self.var_name@) + description_clause(self.description));
            },
            None => {
                assert(s@ =~= quoted_name(self.var_name@) + description_clause(self.description));
            },
        }
        match self.default_val_fmt {
            Some(text) => {
                s.append(" (default: ");
                s.append(text);
                s.append(")");
                assert(s@ =~= self.line());
            },
            None => {
                assert(s@ =~= self.line());
            },
        }
        s
    }
}

impl Render for VarDescriptor {
    open spec fn rendered(&self) -> Seq<char> {
        self.line()
    }

    fn render(&self) -> (s: String) {
        self.to_string()
    }
}

/// Represents types able to describe a configuration value.
pub trait ConfigValueDescriptor {
    /// The descriptor of the configuration value.
    spec fn descriptor(&self) -> VarDescriptor;

    /// Returns the descriptor of the configuration value.
    fn get_descriptor(&self) -> (d: &VarDescriptor)
        ensures
            *d == self.descriptor(),
    ;
}

/// Represents types able to describe a set of configuration values.
pub trait ConfigDescriptor: Sized {
    /// Creates the configuration descriptor.
    fn define() -> Self;
}

} // verus!
