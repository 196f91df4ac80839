//! The values that scripts compute with.
use crate::text::{decimal, decimal_text};
use vstd::prelude::*;
use vstd::string::StringExecFns;

verus! {

/// A value of the scripting language.
///
/// A floating-point number is held as the 64 bits of its IEEE-754 form:
/// this library moves such numbers about and leaves the computing with them
/// to the host.
#[derive(Debug)]
pub enum ScriptingValue {
    /// The absence of a value.
    Nil(),
    /// A truth value.
    Boolean(bool),
    /// A 64-bit floating-point number, as its bits.
    Float64(u64),
    /// A signed 64-bit integer.
    Int64(i64),
    /// A text.
    String(String),
}

/// What a [`ScriptingValue`] holds, as plain values.
pub enum Value {
    Nil,
    Boolean(bool),
    Float64(u64),
    Int64(i64),
    String(Seq<char>),
}

impl View for ScriptingValue {
    type V = Value;

    open spec fn view(&self) -> Value {
        match self {
            ScriptingValue::Nil() => Value::Nil,
            ScriptingValue::Boolean(b) => Value::Boolean(*b),
            ScriptingValue::Float64(f) => Value::Float64(*f),
            ScriptingValue::Int64(i) => Value::Int64(*i),
            ScriptingValue::String(s) => Value::String(s@),
        }
    }
}

impl Clone for ScriptingValue {
    fn clone(&self) -> (value: ScriptingValue)
        ensures
            value == *self,
    {
        match self {
            ScriptingValue::Nil() => ScriptingValue::Nil(),
            ScriptingValue::Boolean(b) => ScriptingValue::Boolean(*b),
            ScriptingValue::Float64(f) => ScriptingValue::Float64(*f),
            ScriptingValue::Int64(i) => ScriptingValue::Int64(*i),
            ScriptingValue::String(s) => ScriptingValue::String(s.clone()),
        }
    }
}

impl ScriptingValue {
    /// The value `nil`.
    pub fn nil() -> (value: ScriptingValue)
        ensures
            value@ == Value::Nil,
    {
        ScriptingValue::Nil()
    }

    /// Whether the value is a truth value.
    pub fn is_bool(&self) -> (b: bool)
        ensures
            b == (self@ is Boolean),
    {
        match self {
            ScriptingValue::Boolean(_) => true,
            _ => false,
        }
    }
}

/// The text that shows a value: for a floating-point number there is none
/// here, since the host makes it.
pub open spec fn display(value: Value) -> Seq<char> {
    match value {
        Value::Nil => "nil"@,
        Value::Boolean(truth) => if truth {
            "true"@
        } else {
            "false"@
        },
        Value::Float64(_) => Seq::empty(),
        Value::Int64(i) => decimal(i as int),
        Value::String(text) => text,
    }
}

/// The text that shows a value; none for a floating-point number.
pub fn text_of(value: &ScriptingValue) -> (text: String)
    ensures
        text@ == display(value@),
{
    match value {
        ScriptingValue::Nil() => String::from_str("nil"),
        ScriptingValue::Boolean(truth) => if *truth {
            String::from_str("true")
        } else {
            String::from_str("false")
        },
        ScriptingValue::Float64(_) => String::new(),
        ScriptingValue::Int64(i) => decimal_text(*i),
        ScriptingValue::String(text) => text.clone(),
    }
}

} // verus!
