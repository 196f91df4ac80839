//! The errors of the runtime.
use crate::compilation::error::{CompilationError, CompilationFault};
use crate::execution::error::{ExecutionError, ExecutionFault};
use crate::scripting_value::{ScriptingValue, Value};
use vstd::prelude::*;
use crate::scripting_value::{display, text_of};
use crate::text::{decimal, decimal_text};
use vstd::string::StringExecFns;
use vstd::std_specs::convert::FromSpecImpl;

verus! {

/// What a call of the runtime may fail with.
#[derive(Debug)]
#[allow(inconsistent_fields)]
pub enum Error {
    /// The script does not compile.
    Compilation { source: CompilationError },
    /// The chunk does not run to its end.
    Execution { source: ExecutionError },
    /// The name of an enum value is registered with another number.
    DuplicateVariant { name: String, old: i8, new: i8 },
    /// The value cannot be had as the type that was asked for.
    TryConversion { value: ScriptingValue, into: String },
}

/// What an [`Error`] holds, as plain values.
#[allow(inconsistent_fields)]
pub enum Failure {
    Compilation { source: CompilationFault },
    Execution { source: ExecutionFault },
    DuplicateVariant { name: Seq<char>, old: i8, new: i8 },
    TryConversion { value: Value, into: Seq<char> },
}

impl View for Error {
    type V = Failure;

    open spec fn view(&self) -> Failure {
        match self {
            Error::Compilation { source } => Failure::Compilation { source: source@ },
            Error::Execution { source } => Failure::Execution { source: source@ },
            Error::DuplicateVariant { name, old, new } => Failure::DuplicateVariant {
                name: name@,
                old: *old,
                new: *new,
            },
            Error::TryConversion { value, into } => Failure::TryConversion {
                value: value@,
                into: into@,
            },
        }
    }
}

impl FromSpecImpl<CompilationError> for Error {
    open spec fn obeys_from_spec() -> bool {
        true
    }

    open spec fn from_spec(source: CompilationError) -> Error {
        Error::Compilation { source }
    }
}

impl From<CompilationError> for Error {
    fn from(source: CompilationError) -> (error: Error) {
        Error::Compilation { source }
    }
}

impl FromSpecImpl<ExecutionError> for Error {
    open spec fn obeys_from_spec() -> bool {
        true
    }

    open spec fn from_spec(source: ExecutionError) -> Error {
        Error::Execution { source }
    }
}

impl From<ExecutionError> for Error {
    fn from(source: ExecutionError) -> (error: Error) {
        Error::Execution { source }
    }
}

/// The result of a call of the runtime.
pub type Result<T> = core::result::Result<T, Error>;

impl Failure {
    /// The message that tells of the error.
    pub open spec fn message(self) -> Seq<char> {
        match self {
            Failure::Compilation { source } => "compilation error: "@ + source.message(),
            Failure::Execution { source } => "execution error:"@ + source.message(),
            Failure::DuplicateVariant { name, old, new } => "enum variant "@ + name + " already exists with value "@ + decimal(old as int) + " new value: "@ + decimal(new as int),
            Failure::TryConversion { value, into } => "conversion of value "@ + display(value) + " into "@ + into + " is not possible"@,
        }
    }
}

impl Error {
    /// The message that tells of the error. Where the error names a
    /// floating-point number, the message has no text for it: the host
    /// shows such numbers.
    pub fn to_string(&self) -> (text: String)
        ensures
            text@ == self@.message(),
    {
        match self {
            Error::Compilation { source } => {
                let text = String::from_str("compilation error: ");
                let part = source.to_string();
                let text = text.concat(part.as_str());
                text
            },
            Error::Execution { source } => {
                let text = String::from_str("execution error:");
                let part = source.to_string();
                let text = text.concat(part.as_str());
                text
            },
            Error::DuplicateVariant { name, old, new } => {
                let text = String::from_str("enum variant ");
                let text = text.concat(name.as_str());
                let text = text.concat(" already exists with value ");
                let part = decimal_text(*old as i64);
                let text = text.concat(part.as_str());
                let text = text.concat(" new value: ");
                let part = decimal_text(*new as i64);
                let text = text.concat(part.as_str());
                text
            },
            Error::TryConversion { value, into } => {
                let text = String::from_str("conversion of value ");
                let part = text_of(value);
                let text = text.concat(part.as_str());
                let text = text.concat(" into ");
                let text = text.concat(into.as_str());
                let text = text.concat(" is not possible");
                text
            },
        }
    }
}

} // verus!
