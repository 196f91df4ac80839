//! What may go wrong while a chunk is run.
use crate::environment;
use crate::scripting_value::{ScriptingValue, Value};
use vstd::prelude::*;
use crate::scripting_value::{display, text_of};
use vstd::string::StringExecFns;

verus! {

/// What may go wrong while a chunk is run.
#[derive(Debug)]
pub enum ExecutionError {
    /// Arithmetic on a truth value.
    BoolNoArithmetic,
    /// An integer is divided by zero.
    DivisionByZero,
    /// The variable store of the host refused.
    Environment { source: environment::Error },
    /// Arithmetic on `nil`.
    NilValue,
    /// A truth value was needed, and this was found.
    NoBoolean { value: ScriptingValue },
    /// A comparison of values that are not both numbers.
    NoComparison,
    /// An integer was needed, and this was found.
    NoInteger { value: ScriptingValue },
    /// A number was needed, and this was found.
    NoNumber { value: ScriptingValue },
    /// More values than the stack holds.
    StackOverflow,
    /// A text takes part in an operation other than an addition.
    OnlyAdd,
    /// A state that the machine cannot go on from: an instruction that is
    /// none or lacks its operand, a jump that leads back or out of the
    /// code, too few values on the stack, or a reply that was not asked
    /// for.
    Unreachable,
}

/// What an [`ExecutionError`] holds, as plain values.
pub enum ExecutionFault {
    BoolNoArithmetic,
    DivisionByZero,
    Environment { source: environment::Fault },
    NilValue,
    NoBoolean { value: Value },
    NoComparison,
    NoInteger { value: Value },
    NoNumber { value: Value },
    StackOverflow,
    OnlyAdd,
    Unreachable,
}

impl View for ExecutionError {
    type V = ExecutionFault;

    open spec fn view(&self) -> ExecutionFault {
        match self {
            ExecutionError::BoolNoArithmetic => ExecutionFault::BoolNoArithmetic,
            ExecutionError::DivisionByZero => ExecutionFault::DivisionByZero,
            ExecutionError::Environment { source } => ExecutionFault::Environment { source: source@ },
            ExecutionError::NilValue => ExecutionFault::NilValue,
            ExecutionError::NoBoolean { value } => ExecutionFault::NoBoolean { value: value@ },
            ExecutionError::NoComparison => ExecutionFault::NoComparison,
            ExecutionError::NoInteger { value } => ExecutionFault::NoInteger { value: value@ },
            ExecutionError::NoNumber { value } => ExecutionFault::NoNumber { value: value@ },
            ExecutionError::StackOverflow => ExecutionFault::StackOverflow,
            ExecutionError::OnlyAdd => ExecutionFault::OnlyAdd,
            ExecutionError::Unreachable => ExecutionFault::Unreachable,
        }
    }
}

impl vstd::std_specs::convert::FromSpecImpl<environment::Error> for ExecutionError {
    open spec fn obeys_from_spec() -> bool {
        true
    }

    open spec fn from_spec(source: environment::Error) -> ExecutionError {
        ExecutionError::Environment { source }
    }
}

impl From<environment::Error> for ExecutionError {
    fn from(source: environment::Error) -> (error: ExecutionError) {
        ExecutionError::Environment { source }
    }
}

/// The result of a step of the machine.
pub type ExecutionResult<T> = Result<T, ExecutionError>;

impl ExecutionFault {
    /// The message that tells of the error.
    pub open spec fn message(self) -> Seq<char> {
        match self {
            ExecutionFault::BoolNoArithmetic => "boolean values do not allow arithmetic operations"@,
            ExecutionFault::DivisionByZero => "an integer cannot be divided by zero"@,
            ExecutionFault::Environment { source } => "environment error: "@ + source.message(),
            ExecutionFault::NilValue => "value is 'Nil' which does not allow any operation"@,
            ExecutionFault::NoBoolean { value } => "expected boolean ('true'/'false'), got "@ + display(value),
            ExecutionFault::NoComparison => "comparing values needs two numeric types"@,
            ExecutionFault::NoInteger { value } => "expected integer value, got "@ + display(value),
            ExecutionFault::NoNumber { value } => "expected numerical value, got "@ + display(value),
            ExecutionFault::StackOverflow => "stack overflow, to many variables/values"@,
            ExecutionFault::OnlyAdd => "to Strings you can only 'ADD' something"@,
            ExecutionFault::Unreachable => "the machine cannot go on from this state"@,
        }
    }
}

impl ExecutionError {
    /// The message that tells of the error. Where the error names a
    /// floating-point number, the message has no text for it: the host
    /// shows such numbers.
    pub fn to_string(&self) -> (text: String)
        ensures
            text@ == self@.message(),
    {
        match self {
            ExecutionError::BoolNoArithmetic => {
                let text = String::from_str("boolean values do not allow arithmetic operations");
                text
            },
            ExecutionError::DivisionByZero => {
                let text = String::from_str("an integer cannot be divided by zero");
                text
            },
            ExecutionError::Environment { source } => {
                let text = String::from_str("environment error: ");
                let part = source.to_string();
                let text = text.concat(part.as_str());
                text
            },
            ExecutionError::NilValue => {
                let text = String::from_str("value is 'Nil' which does not allow any operation");
                text
            },
            ExecutionError::NoBoolean { value } => {
                let text = String::from_str("expected boolean ('true'/'false'), got ");
                let part = text_of(value);
                let text = text.concat(part.as_str());
                text
            },
            ExecutionError::NoComparison => {
                let text = String::from_str("comparing values needs two numeric types");
                text
            },
            ExecutionError::NoInteger { value } => {
                let text = String::from_str("expected integer value, got ");
                let part = text_of(value);
                let text = text.concat(part.as_str());
                text
            },
            ExecutionError::NoNumber { value } => {
                let text = String::from_str("expected numerical value, got ");
                let part = text_of(value);
                let text = text.concat(part.as_str());
                text
            },
            ExecutionError::StackOverflow => {
                let text = String::from_str("stack overflow, to many variables/values");
                text
            },
            ExecutionError::OnlyAdd => {
                let text = String::from_str("to Strings you can only 'ADD' something");
                text
            },
            ExecutionError::Unreachable => {
                let text = String::from_str("the machine cannot go on from this state");
                text
            },
        }
    }
}

} // verus!
