//! Contains all error types.

use vstd::prelude::*;
use vstd::std_specs::cmp::PartialEqSpec;
use vstd::string::StringExecFns;
use crate::exec::FmtExecResults;
use crate::text::Render;

verus! {

/// Why a variable could not be read from the environment.
#[derive(Debug)]
pub enum VarError {
    /// The variable is not set.
    NotPresent,
    /// The variable is set to something that is not valid unicode. The
    /// payload is a printable form of what it holds.
    NotUnicode(String),
}

impl VarError {
    /// The message of the error.
    pub open spec fn text(&self) -> Seq<char> {
        match self {
            VarError::NotPresent => "environment variable not found"@,
            VarError::NotUnicode(raw) => "environment variable was not valid unicode: "@ + raw@,
        }
    }

    /// The message of the error as a string.
    pub fn to_string(&self) -> (s: String)
        ensures
            s@ == self.text(),
    {
        match self {
            VarError::NotPresent => String::from_str("environment variable not found"),
            VarError::NotUnicode(raw) => {
                let mut s = String::from_str("environment variable was not valid unicode: ");
                s.append(raw.as_str());
                s
            },
        }
    }

    /// Whether two errors are the same error.
    pub open spec fn same(&self, other: &Self) -> bool {
        match (self, other) {
            (VarError::NotPresent, VarError::NotPresent) => true,
            (VarError::NotUnicode(a), VarError::NotUnicode(b)) => a@ == b@,
            _ => false,
        }
    }

    /// Whether two errors are of the same kind: both of a variable that is
    /// not present, or both of a value that could not be looked up,
    /// whatever it holds.
    pub open spec fn same_kind(&self, other: &Self) -> bool {
        match (self, other) {
            (VarError::NotPresent, VarError::NotPresent) => true,
            (VarError::NotUnicode(_), VarError::NotUnicode(_)) => true,
            _ => false,
        }
    }

    /// Tells whether two errors are of the same kind.
    pub fn is_same_kind(&self, other: &Self) -> (same: bool)
        ensures
            same == self.same_kind(other),
    {
        match (self, other) {
            (VarError::NotPresent, VarError::NotPresent) => true,
            (VarError::NotUnicode(_), VarError::NotUnicode(_)) => true,
            _ => false,
        }
    }

    /// A copy of the error.
    pub fn duplicate(&self) -> (e: VarError)
        ensures
            e == *self,
    {
        match self {
            VarError::NotPresent => VarError::NotPresent,
            VarError::NotUnicode(raw) => VarError::NotUnicode(raw.clone()),
        }
    }
}

impl PartialEq for VarError {
    fn eq(&self, other: &Self) -> (r: bool) {
        match (self, other) {
            (VarError::NotPresent, VarError::NotPresent) => true,
            (VarError::NotUnicode(a), VarError::NotUnicode(b)) => *a == *b,
            _ => false,
        }
    }
}

impl vstd::std_specs::cmp::PartialEqSpecImpl for VarError {
    open spec fn obeys_eq_spec() -> bool {
        true
    }

    open spec fn eq_spec(&self, other: &Self) -> bool {
        self.same(other)
    }
}

impl Render for VarError {
    open spec fn rendered(&self) -> Seq<char> {
        self.text()
    }

    fn render(&self) -> (s: String) {
        self.to_string()
    }
}

/// The broad reason of an input/output failure.
#[derive(Clone, Copy, Debug, PartialEq, Eq, Structural)]
pub enum IoErrorKind {
    /// The file does not exist.
    NotFound,
    /// The file may not be read.
    PermissionDenied,
    /// The file does not hold valid text.
    InvalidData,
    /// Any other failure.
    Other,
}

/// An input/output failure: its kind and its message.
#[derive(Debug)]
pub struct IoError {
    pub kind: IoErrorKind,
    pub message: String,
}

impl IoError {
    /// A copy of the error.
    pub fn duplicate(&self) -> (e: IoError)
        ensures
            e == *self,
    {
        IoError { kind: self.kind, message: self.message.clone() }
    }
}

impl Render for IoError {
    open spec fn rendered(&self) -> Seq<char> {
        self.message@
    }

    fn render(&self) -> (s: String) {
        self.message.clone()
    }
}

/// A file named by a configuration value could not be read.
#[derive(Debug)]
pub struct FileReadError {
    /// The variable that gave the path.
    pub var_name: &'static str,
    /// What went wrong when reading the file.
    pub cause: IoError,
}

impl Render for FileReadError {
    open spec fn rendered(&self) -> Seq<char> {
        self.cause.message@
    }

    fn render(&self) -> (s: String) {
        self.cause.message.clone()
    }
}

/// Why a text is not the decimal notation of an integer of some type.
#[derive(Clone, Copy, Debug, PartialEq, Eq, Structural)]
pub enum IntErrorKind {
    /// The text is empty.
    Empty,
    /// The text holds a character that is not a digit where one is expected.
    InvalidDigit,
    /// The number is too large for the type.
    PosOverflow,
    /// The number is too small for the type.
    NegOverflow,
}

impl IntErrorKind {
    /// The message of the error.
    pub open spec fn text(&self) -> Seq<char> {
        match self {
            IntErrorKind::Empty => "cannot parse integer from empty string"@,
            IntErrorKind::InvalidDigit => "invalid digit found in string"@,
            IntErrorKind::PosOverflow => "number too large to fit in target type"@,
            IntErrorKind::NegOverflow => "number too small to fit in target type"@,
        }
    }

    /// The message of the error as a string.
    pub fn to_string(&self) -> (s: String)
        ensures
            s@ == self.text(),
    {
        match self {
            IntErrorKind::Empty => String::from_str("cannot parse integer from empty string"),
            IntErrorKind::InvalidDigit => String::from_str("invalid digit found in string"),
            IntErrorKind::PosOverflow => String::from_str("number too large to fit in target type"),
            IntErrorKind::NegOverflow => String::from_str("number too small to fit in target type"),
        }
    }
}

impl Render for IntErrorKind {
    open spec fn rendered(&self) -> Seq<char> {
        self.text()
    }

    fn render(&self) -> (s: String) {
        self.to_string()
    }
}

/// Why a text is not a single character.
#[derive(Clone, Copy, Debug, PartialEq, Eq, Structural)]
pub enum CharErrorKind {
    /// The text is empty.
    EmptyString,
    /// The text holds more than one character.
    TooManyChars,
}

impl CharErrorKind {
    /// The message of the error.
    pub open spec fn text(&self) -> Seq<char> {
        match self {
            CharErrorKind::EmptyString => "cannot parse char from empty string"@,
            CharErrorKind::TooManyChars => "too many characters in string"@,
        }
    }

    /// The message of the error as a string.
    pub fn to_string(&self) -> (s: String)
        ensures
            s@ == self.text(),
    {
        match self {
            CharErrorKind::EmptyString => String::from_str("cannot parse char from empty string"),
            CharErrorKind::TooManyChars => String::from_str("too many characters in string"),
        }
    }
}

impl Render for CharErrorKind {
    open spec fn rendered(&self) -> Seq<char> {
        self.text()
    }

    fn render(&self) -> (s: String) {
        self.to_string()
    }
}

/// An error of any kind, as a conversion function returns it and as a
/// report holds it.
#[derive(Debug)]
pub enum BoxedError {
    /// A variable could not be read.
    Var(VarError),
    /// A file could not be read.
    FileRead(FileReadError),
    /// A value could not be parsed.
    Parse(Box<ParseError>),
    /// A text is not an integer.
    ParseInt(IntErrorKind),
    /// A text is neither `true` nor `false`.
    ParseBool,
    /// A text is not a single character.
    ParseChar(CharErrorKind),
    /// An error known by its message alone.
    Message(String),
}

/// An error during the parsing of a configuration value.
#[derive(Debug)]
pub struct ParseError {
    /// What the conversion function reported.
    pub source: BoxedError,
}

/// The message of an error of any kind. That of a parse error is the
/// message of its cause behind the words `parse error: `.
pub open spec fn boxed_error_text(e: BoxedError) -> Seq<char>
    decreases e,
{
    match e {
        BoxedError::Var(v) => v.text(),
        BoxedError::FileRead(f) => f.cause.message@,
        BoxedError::Parse(p) => "parse error: "@ + boxed_error_text(p.source),
        BoxedError::ParseInt(k) => k.text(),
        BoxedError::ParseBool => "provided string was not `true` or `false`"@,
        BoxedError::ParseChar(k) => k.text(),
        BoxedError::Message(m) => m@,
    }
}

impl BoxedError {
    /// An error known by its message alone.
    pub fn msg(message: &str) -> (e: BoxedError)
        ensures
            e matches BoxedError::Message(m) && m@ == message@,
    {
        BoxedError::Message(String::from_str(message))
    }

    /// The message of the error as a string.
    pub fn to_string(&self) -> (s: String)
        ensures
            s@ == boxed_error_text(*self),
        decreases *self,
    {
        match self {
            BoxedError::Var(v) => v.to_string(),
            BoxedError::FileRead(f) => f.cause.message.clone(),
            BoxedError::Parse(p) => {
                let mut s = String::from_str("parse error: ");
                let cause = p.source.to_string();
                s.append(cause.as_str());
                s
            },
            BoxedError::ParseInt(k) => k.to_string(),
            BoxedError::ParseBool => String::from_str("provided string was not `true` or `false`"),
            BoxedError::ParseChar(k) => k.to_string(),
            BoxedError::Message(m) => m.clone(),
        }
    }

    /// The error that this one wraps, if it wraps one.
    pub fn source(&self) -> (cause: Option<&BoxedError>)
        ensures
            cause == match *self {
                BoxedError::Parse(p) => Some(&p.source),
                _ => None,
            },
    {
        match self {
            BoxedError::Parse(p) => Some(&p.source),
            _ => None,
        }
    }
}

impl Render for BoxedError {
    open spec fn rendered(&self) -> Seq<char> {
        boxed_error_text(*self)
    }

    fn render(&self) -> (s: String) {
        self.to_string()
    }
}

impl ParseError {
    /// The message of the error: that of its cause behind `parse error: `.
    pub open spec fn text(&self) -> Seq<char> {
        "parse error: "@ + boxed_error_text(self.source)
    }

    /// The message of the error as a string.
    pub fn to_string(&self) -> (s: String)
        ensures
            s@ == self.text(),
    {
        let mut s = String::from_str("parse error: ");
        let cause = self.source.to_string();
        s.append(cause.as_str());
        s
    }

    /// What the conversion function reported.
    pub fn source(&self) -> (cause: &BoxedError)
        ensures
            *cause == self.source,
    {
        &self.source
    }
}

impl Render for ParseError {
    open spec fn rendered(&self) -> Seq<char> {
        self.text()
    }

    fn render(&self) -> (s: String) {
        self.to_string()
    }
}

/// Generic error when reading an environment variable.
#[derive(Debug)]
pub enum ReadVarError {
    /// The variable itself could not be read.
    Var(VarError),
    /// A layer above the variable failed.
    Other(BoxedError),
}

impl ReadVarError {
    /// The message of the error: that of what it holds.
    pub open spec fn text(&self) -> Seq<char> {
        match self {
            ReadVarError::Var(e) => e.text(),
            ReadVarError::Other(e) => boxed_error_text(*e),
        }
    }

    /// The message of the error as a string.
    pub fn to_string(&self) -> (s: String)
        ensures
            s@ == self.text(),
    {
        match self {
            ReadVarError::Var(e) => e.to_string(),
            ReadVarError::Other(e) => e.to_string(),
        }
    }

    /// Whether two errors are of the same kind, whatever they hold.
    pub open spec fn same_kind(&self, other: &Self) -> bool {
        match (self, other) {
            (ReadVarError::Var(e1), ReadVarError::Var(e2)) => e1.same_kind(e2),
            (ReadVarError::Other(_), ReadVarError::Other(_)) => true,
            _ => false,
        }
    }

    /// The error in the form in which a report holds it. The message is kept.
    pub open spec fn boxed(self) -> BoxedError {
        match self {
            ReadVarError::Var(e) => BoxedError::Var(e),
            ReadVarError::Other(e) => e,
        }
    }
}

impl PartialEq for ReadVarError {
    fn eq(&self, other: &Self) -> (r: bool) {
        match (self, other) {
            (ReadVarError::Var(e1), ReadVarError::Var(e2)) => e1.is_same_kind(e2),
            (ReadVarError::Other(_), ReadVarError::Other(_)) => true,
            _ => false,
        }
    }
}

impl vstd::std_specs::cmp::PartialEqSpecImpl for ReadVarError {
    open spec fn obeys_eq_spec() -> bool {
        true
    }

    /// Two errors are equal when they are of the same kind, whatever they
    /// hold: two errors of a variable that is not present, two errors of a
    /// value that could not be looked up, two errors of a layer.
    open spec fn eq_spec(&self, other: &Self) -> bool {
        self.same_kind(other)
    }
}

/// Equality of read errors goes by the kind alone. Errors of the same kind
/// are equal whatever they hold, errors of two kinds are not, and it does
/// not matter which of the two stands first.
pub proof fn lemma_read_errors_equal_by_kind(a: ReadVarError, b: ReadVarError)
    ensures
        a.eq_spec(&b) == b.eq_spec(&a),
        a.eq_spec(&a),
        a is Other && b is Other ==> a.eq_spec(&b),
        a is Var && b is Other ==> !a.eq_spec(&b),
        a is Other && b is Var ==> !a.eq_spec(&b),
        a is Var && b is Var && a->Var_0 is NotPresent && b->Var_0 is NotPresent ==> a.eq_spec(&b),
        a is Var && b is Var && a->Var_0 is NotUnicode && b->Var_0 is NotUnicode ==> a.eq_spec(&b),
        a is Var && b is Var && a->Var_0 is NotPresent && b->Var_0 is NotUnicode ==> !a.eq_spec(&b),
{
}

impl Render for ReadVarError {
    open spec fn rendered(&self) -> Seq<char> {
        self.text()
    }

    fn render(&self) -> (s: String) {
        self.to_string()
    }
}

/// A cached error when reading the environment with a cached layer.
#[derive(Debug)]
pub struct CachedError<'a, E>(pub &'a E);

impl<'a, E: PartialEq> PartialEq for CachedError<'a, E> {
    fn eq(&self, other: &Self) -> (r: bool) {
        *self.0 == *other.0
    }
}

impl<'a, E: PartialEq> vstd::std_specs::cmp::PartialEqSpecImpl for CachedError<'a, E> {
    open spec fn obeys_eq_spec() -> bool {
        E::obeys_eq_spec()
    }

    open spec fn eq_spec(&self, other: &Self) -> bool {
        self.0.eq_spec(other.0)
    }
}

impl<'a, E: Render> Render for CachedError<'a, E> {
    open spec fn rendered(&self) -> Seq<char> {
        self.0.rendered()
    }

    fn render(&self) -> (s: String) {
        self.0.render()
    }
}

/// Errors that a report can hold.
pub trait IntoBoxedError {
    /// Whether `boxed` is this error in the form in which a report holds it.
    spec fn boxes_to(&self, boxed: BoxedError) -> bool;

    /// Turns the error into the form in which a report holds it.
    fn into_boxed(self) -> (boxed: BoxedError)
        ensures
            self.boxes_to(boxed),
    ;
}

impl IntoBoxedError for ReadVarError {
    open spec fn boxes_to(&self, boxed: BoxedError) -> bool {
        boxed == self.boxed()
    }

    fn into_boxed(self) -> (boxed: BoxedError) {
        match self {
            ReadVarError::Var(e) => BoxedError::Var(e),
            ReadVarError::Other(e) => e,
        }
    }
}

impl<'a, E: Render> IntoBoxedError for CachedError<'a, E> {
    /// A cached error is held by its message.
    open spec fn boxes_to(&self, boxed: BoxedError) -> bool {
        boxed matches BoxedError::Message(m) && m@ == self.0.rendered()
    }

    fn into_boxed(self) -> (boxed: BoxedError) {
        BoxedError::Message(self.0.render())
    }
}

/// An error that cannot occur has no text.
impl Render for core::convert::Infallible {
    open spec fn rendered(&self) -> Seq<char> {
        Seq::empty()
    }

    fn render(&self) -> (s: String) {
        String::new()
    }
}

/// An error that cannot occur is held, like a cached error, by its
/// message, which is empty.
impl IntoBoxedError for core::convert::Infallible {
    open spec fn boxes_to(&self, boxed: BoxedError) -> bool {
        boxed matches BoxedError::Message(m) && m@ == self.rendered()
    }

    fn into_boxed(self) -> (boxed: BoxedError) {
        BoxedError::Message(String::new())
    }
}

/// The error of a configuration of which some value could not be read.
#[derive(Debug)]
pub struct ConfigInitError<'a> {
    /// The results of the read.
    pub error: FmtExecResults<'a>,
}

impl<'a> ConfigInitError<'a> {
    /// The message of the error: a heading and the report.
    pub open spec fn text(&self) -> Seq<char> {
        "Error during configuration initialization:\n"@ + self.error.text()
    }

    /// The message of the error as a string.
    pub fn to_string(&self) -> (s: String)
        ensures
            s@ == self.text(),
    {
        let mut s = String::from_str("Error during configuration initialization:\n");
        let report = self.error.to_string();
        s.append(report.as_str());
        s
    }
}

impl<'a> Render for ConfigInitError<'a> {
    open spec fn rendered(&self) -> Seq<char> {
        self.text()
    }

    fn render(&self) -> (s: String) {
        self.to_string()
    }
}

} // verus!
