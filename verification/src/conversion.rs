//! Values of the scripting language as values of the host, and back.
//!
//! A value of the host becomes a value of the language with `from`; a
//! value of the language is had as a value of the host with `try_from`,
//! which fails where the value is of another kind or does not fit.
use crate::error::{Error, Failure};
use crate::execution::error::{ExecutionError, ExecutionFault};
use crate::scripting_value::{ScriptingValue, Value};
use crate::text::{chars_of, digits, number_value, parse_digits, unsigned_text, is_digit};
use vstd::prelude::*;
use vstd::std_specs::convert::{FromSpecImpl, TryFromSpecImpl};
use vstd::string::StringExecFns;

verus! {

/// The error for a value that cannot be had as what was asked for.
pub open spec fn mismatch(value: Value, into: Seq<char>) -> Failure {
    Failure::TryConversion { value, into }
}

impl FromSpecImpl<bool> for ScriptingValue {
    open spec fn obeys_from_spec() -> bool {
        true
    }

    open spec fn from_spec(value: bool) -> ScriptingValue {
        ScriptingValue::Boolean(value)
    }
}

impl From<bool> for ScriptingValue {
    /// The truth value as a value of the language.
    fn from(value: bool) -> (result: ScriptingValue) {
        ScriptingValue::Boolean(value)
    }
}

impl FromSpecImpl<i64> for ScriptingValue {
    open spec fn obeys_from_spec() -> bool {
        true
    }

    open spec fn from_spec(value: i64) -> ScriptingValue {
        ScriptingValue::Int64(value)
    }
}

impl From<i64> for ScriptingValue {
    /// The integer as a value of the language.
    fn from(value: i64) -> (result: ScriptingValue) {
        ScriptingValue::Int64(value)
    }
}

impl FromSpecImpl<i32> for ScriptingValue {
    open spec fn obeys_from_spec() -> bool {
        true
    }

    open spec fn from_spec(value: i32) -> ScriptingValue {
        ScriptingValue::Int64(value as i64)
    }
}

impl From<i32> for ScriptingValue {
    /// The integer as a value of the language.
    fn from(value: i32) -> (result: ScriptingValue) {
        ScriptingValue::Int64(value as i64)
    }
}

impl FromSpecImpl<u32> for ScriptingValue {
    open spec fn obeys_from_spec() -> bool {
        true
    }

    open spec fn from_spec(value: u32) -> ScriptingValue {
        ScriptingValue::Int64(value as i64)
    }
}

impl From<u32> for ScriptingValue {
    /// The integer as a value of the language.
    fn from(value: u32) -> (result: ScriptingValue) {
        ScriptingValue::Int64(value as i64)
    }
}

impl FromSpecImpl<i16> for ScriptingValue {
    open spec fn obeys_from_spec() -> bool {
        true
    }

    open spec fn from_spec(value: i16) -> ScriptingValue {
        ScriptingValue::Int64(value as i64)
    }
}

impl From<i16> for ScriptingValue {
    /// The integer as a value of the language.
    fn from(value: i16) -> (result: ScriptingValue) {
        ScriptingValue::Int64(value as i64)
    }
}

impl FromSpecImpl<u16> for ScriptingValue {
    open spec fn obeys_from_spec() -> bool {
        true
    }

    open spec fn from_spec(value: u16) -> ScriptingValue {
        ScriptingValue::Int64(value as i64)
    }
}

impl From<u16> for ScriptingValue {
    /// The integer as a value of the language.
    fn from(value: u16) -> (result: ScriptingValue) {
        ScriptingValue::Int64(value as i64)
    }
}

impl FromSpecImpl<i8> for ScriptingValue {
    open spec fn obeys_from_spec() -> bool {
        true
    }

    open spec fn from_spec(value: i8) -> ScriptingValue {
        ScriptingValue::Int64(value as i64)
    }
}

impl From<i8> for ScriptingValue {
    /// The integer as a value of the language.
    fn from(value: i8) -> (result: ScriptingValue) {
        ScriptingValue::Int64(value as i64)
    }
}

impl FromSpecImpl<u8> for ScriptingValue {
    open spec fn obeys_from_spec() -> bool {
        true
    }

    open spec fn from_spec(value: u8) -> ScriptingValue {
        ScriptingValue::Int64(value as i64)
    }
}

impl From<u8> for ScriptingValue {
    /// The integer as a value of the language.
    fn from(value: u8) -> (result: ScriptingValue) {
        ScriptingValue::Int64(value as i64)
    }
}

impl TryFromSpecImpl<ScriptingValue> for i64 {
    open spec fn obeys_try_from_spec() -> bool {
        false
    }

    open spec fn try_from_spec(value: ScriptingValue) -> Result<i64, Error> {
        arbitrary()
    }
}

impl TryFrom<ScriptingValue> for i64 {
    type Error = Error;

    /// The integer that the value is, if it is one that a `i64` holds.
    fn try_from(value: ScriptingValue) -> (result: Result<i64, Error>)
        ensures
            match value@ {
                Value::Int64(i) if i64::MIN <= i <= i64::MAX => result == Ok::<i64, Error>(i as i64),
                other => result matches Err(error) && error@ == mismatch(other, "i64"@),
            },
    {
        match value {
            ScriptingValue::Int64(i) if i64::MIN <= i && i <= i64::MAX => Ok(i as i64),
            value => Err(Error::TryConversion { value, into: String::from_str("i64") }),
        }
    }
}

impl TryFromSpecImpl<ScriptingValue> for u64 {
    open spec fn obeys_try_from_spec() -> bool {
        false
    }

    open spec fn try_from_spec(value: ScriptingValue) -> Result<u64, Error> {
        arbitrary()
    }
}

impl TryFrom<ScriptingValue> for u64 {
    type Error = Error;

    /// The integer that the value is, if it is one that a `u64` holds.
    fn try_from(value: ScriptingValue) -> (result: Result<u64, Error>)
        ensures
            match value@ {
                Value::Int64(i) if 0 <= i <= i64::MAX => result == Ok::<u64, Error>(i as u64),
                other => result matches Err(error) && error@ == mismatch(other, "u64"@),
            },
    {
        match value {
            ScriptingValue::Int64(i) if 0 <= i && i <= i64::MAX => Ok(i as u64),
            value => Err(Error::TryConversion { value, into: String::from_str("u64") }),
        }
    }
}

impl TryFromSpecImpl<ScriptingValue> for i32 {
    open spec fn obeys_try_from_spec() -> bool {
        false
    }

    open spec fn try_from_spec(value: ScriptingValue) -> Result<i32, Error> {
        arbitrary()
    }
}

impl TryFrom<ScriptingValue> for i32 {
    type Error = Error;

    /// The integer that the value is, if it is one that a `i32` holds.
    fn try_from(value: ScriptingValue) -> (result: Result<i32, Error>)
        ensures
            match value@ {
                Value::Int64(i) if -0x8000_0000 <= i <= 0x7fff_ffff => result == Ok::<i32, Error>(i as i32),
                other => result matches Err(error) && error@ == mismatch(other, "i32"@),
            },
    {
        match value {
            ScriptingValue::Int64(i) if -0x8000_0000 <= i && i <= 0x7fff_ffff => Ok(i as i32),
            value => Err(Error::TryConversion { value, into: String::from_str("i32") }),
        }
    }
}

impl TryFromSpecImpl<ScriptingValue> for u32 {
    open spec fn obeys_try_from_spec() -> bool {
        false
    }

    open spec fn try_from_spec(value: ScriptingValue) -> Result<u32, Error> {
        arbitrary()
    }
}

impl TryFrom<ScriptingValue> for u32 {
    type Error = Error;

    /// The integer that the value is, if it is one that a `u32` holds.
    fn try_from(value: ScriptingValue) -> (result: Result<u32, Error>)
        ensures
            match value@ {
                Value::Int64(i) if 0 <= i <= 0xffff_ffff => result == Ok::<u32, Error>(i as u32),
                other => result matches Err(error) && error@ == mismatch(other, "u32"@),
            },
    {
        match value {
            ScriptingValue::Int64(i) if 0 <= i && i <= 0xffff_ffff => Ok(i as u32),
            value => Err(Error::TryConversion { value, into: String::from_str("u32") }),
        }
    }
}

impl TryFromSpecImpl<ScriptingValue> for i16 {
    open spec fn obeys_try_from_spec() -> bool {
        false
    }

    open spec fn try_from_spec(value: ScriptingValue) -> Result<i16, Error> {
        arbitrary()
    }
}

impl TryFrom<ScriptingValue> for i16 {
    type Error = Error;

    /// The integer that the value is, if it is one that a `i16` holds.
    fn try_from(value: ScriptingValue) -> (result: Result<i16, Error>)
        ensures
            match value@ {
                Value::Int64(i) if -0x8000 <= i <= 0x7fff => result == Ok::<i16, Error>(i as i16),
                other => result matches Err(error) && error@ == mismatch(other, "i16"@),
            },
    {
        match value {
            ScriptingValue::Int64(i) if -0x8000 <= i && i <= 0x7fff => Ok(i as i16),
            value => Err(Error::TryConversion { value, into: String::from_str("i16") }),
        }
    }
}

impl TryFromSpecImpl<ScriptingValue> for u16 {
    open spec fn obeys_try_from_spec() -> bool {
        false
    }

    open spec fn try_from_spec(value: ScriptingValue) -> Result<u16, Error> {
        arbitrary()
    }
}

impl TryFrom<ScriptingValue> for u16 {
    type Error = Error;

    /// The integer that the value is, if it is one that a `u16` holds.
    fn try_from(value: ScriptingValue) -> (result: Result<u16, Error>)
        ensures
            match value@ {
                Value::Int64(i) if 0 <= i <= 0xffff => result == Ok::<u16, Error>(i as u16),
                other => result matches Err(error) && error@ == mismatch(other, "u16"@),
            },
    {
        match value {
            ScriptingValue::Int64(i) if 0 <= i && i <= 0xffff => Ok(i as u16),
            value => Err(Error::TryConversion { value, into: String::from_str("u16") }),
        }
    }
}

impl TryFromSpecImpl<ScriptingValue> for i8 {
    open spec fn obeys_try_from_spec() -> bool {
        false
    }

    open spec fn try_from_spec(value: ScriptingValue) -> Result<i8, Error> {
        arbitrary()
    }
}

impl TryFrom<ScriptingValue> for i8 {
    type Error = Error;

    /// The integer that the value is, if it is one that a `i8` holds.
    fn try_from(value: ScriptingValue) -> (result: Result<i8, Error>)
        ensures
            match value@ {
                Value::Int64(i) if -0x80 <= i <= 0x7f => result == Ok::<i8, Error>(i as i8),
                other => result matches Err(error) && error@ == mismatch(other, "i8"@),
            },
    {
        match value {
            ScriptingValue::Int64(i) if -0x80 <= i && i <= 0x7f => Ok(i as i8),
            value => Err(Error::TryConversion { value, into: String::from_str("i8") }),
        }
    }
}

impl TryFromSpecImpl<ScriptingValue> for u8 {
    open spec fn obeys_try_from_spec() -> bool {
        false
    }

    open spec fn try_from_spec(value: ScriptingValue) -> Result<u8, Error> {
        arbitrary()
    }
}

impl TryFrom<ScriptingValue> for u8 {
    type Error = Error;

    /// The integer that the value is, if it is one that a `u8` holds.
    fn try_from(value: ScriptingValue) -> (result: Result<u8, Error>)
        ensures
            match value@ {
                Value::Int64(i) if 0 <= i <= 0xff => result == Ok::<u8, Error>(i as u8),
                other => result matches Err(error) && error@ == mismatch(other, "u8"@),
            },
    {
        match value {
            ScriptingValue::Int64(i) if 0 <= i && i <= 0xff => Ok(i as u8),
            value => Err(Error::TryConversion { value, into: String::from_str("u8") }),
        }
    }
}

impl TryFromSpecImpl<ScriptingValue> for bool {
    open spec fn obeys_try_from_spec() -> bool {
        false
    }

    open spec fn try_from_spec(value: ScriptingValue) -> Result<bool, Error> {
        arbitrary()
    }
}

impl TryFrom<ScriptingValue> for bool {
    type Error = Error;

    /// The truth value that the value is.
    fn try_from(value: ScriptingValue) -> (result: Result<bool, Error>)
        ensures
            match value@ {
                Value::Boolean(truth) => result == Ok::<bool, Error>(truth),
                other => result matches Err(error) && error@ == mismatch(other, "bool"@),
            },
    {
        match value {
            ScriptingValue::Boolean(truth) => Ok(truth),
            value => Err(Error::TryConversion { value, into: String::from_str("bool") }),
        }
    }
}

impl TryFromSpecImpl<ScriptingValue> for String {
    open spec fn obeys_try_from_spec() -> bool {
        false
    }

    open spec fn try_from_spec(value: ScriptingValue) -> Result<String, Error> {
        arbitrary()
    }
}

impl TryFrom<ScriptingValue> for String {
    type Error = Error;

    /// The text that the value is.
    fn try_from(value: ScriptingValue) -> (result: Result<String, Error>)
        ensures
            match value@ {
                Value::String(text) => result matches Ok(s) && s@ == text,
                other => result matches Err(error) && error@ == mismatch(other, "String"@),
            },
    {
        match value {
            ScriptingValue::String(text) => Ok(text),
            value => Err(Error::TryConversion { value, into: String::from_str("String") }),
        }
    }
}

impl TryFromSpecImpl<u64> for ScriptingValue {
    open spec fn obeys_try_from_spec() -> bool {
        false
    }

    open spec fn try_from_spec(value: u64) -> Result<ScriptingValue, Error> {
        arbitrary()
    }
}

impl TryFrom<u64> for ScriptingValue {
    type Error = Error;

    /// The integer as a value of the language, if it is one that a signed
    /// 64-bit integer holds. The error holds the integer as a text.
    fn try_from(value: u64) -> (result: Result<ScriptingValue, Error>)
        ensures
            if value <= i64::MAX {
                result matches Ok(v) && v@ == Value::Int64(value as i64)
            } else {
                result matches Err(error) && error@ == mismatch(
                    Value::String(digits(value as nat)),
                    "ScriptingValue"@,
                )
            },
    {
        if value <= 0x7fff_ffff_ffff_ffff {
            Ok(ScriptingValue::Int64(value as i64))
        } else {
            Err(
                Error::TryConversion {
                    value: ScriptingValue::String(unsigned_text(value)),
                    into: String::from_str("ScriptingValue"),
                },
            )
        }
    }
}

/// Whether a text is an integer that a signed 64-bit integer holds: a sign
/// or none, and digits behind it, at least one.
pub open spec fn is_integer_text(text: Seq<char>) -> bool {
    if text.len() > 0 && text[0] == '-' {
        &&& text.len() > 1
        &&& forall|i: int| 1 <= i < text.len() ==> is_digit(#[trigger] text[i])
        &&& number_value(text.skip(1), 10) <= -(i64::MIN as int)
    } else if text.len() > 0 && text[0] == '+' {
        &&& text.len() > 1
        &&& forall|i: int| 1 <= i < text.len() ==> is_digit(#[trigger] text[i])
        &&& number_value(text.skip(1), 10) <= i64::MAX
    } else {
        &&& text.len() > 0
        &&& forall|i: int| 0 <= i < text.len() ==> is_digit(#[trigger] text[i])
        &&& number_value(text, 10) <= i64::MAX
    }
}

/// The integer that a text stands for.
pub open spec fn integer_of_text(text: Seq<char>) -> int {
    if text.len() > 0 && text[0] == '-' {
        -(number_value(text.skip(1), 10) as int)
    } else if text.len() > 0 && text[0] == '+' {
        number_value(text.skip(1), 10) as int
    } else {
        number_value(text, 10) as int
    }
}

/// The value that a text stands for, where `float` is the floating-point
/// number that the text stands for, if it stands for one: an integer, else
/// that floating-point number, else a truth value, else the text itself.
pub open spec fn value_of_text(text: Seq<char>, float: Option<u64>) -> Value {
    if is_integer_text(text) {
        Value::Int64(integer_of_text(text) as i64)
    } else if float is Some {
        Value::Float64(float->0)
    } else if text == "true"@ {
        Value::Boolean(true)
    } else if text == "false"@ {
        Value::Boolean(false)
    } else {
        Value::String(text)
    }
}

/// Reads a text as an integer.
pub fn parse_integer(text: &str) -> (result: Option<i64>)
    ensures
        result is Some <==> is_integer_text(text@),
        result matches Some(i) ==> i == integer_of_text(text@),
{
    let chars = chars_of(text);
    if chars.len() > 0 && chars[0] == '-' {
        match parse_digits(&chars, 1, false, 0x8000_0000_0000_0000) {
            Some(magnitude) => if magnitude == 0 {
                Some(0)
            } else {
                Some((-((magnitude - 1) as i64)) - 1)
            },
            None => None,
        }
    } else if chars.len() > 0 && chars[0] == '+' {
        match parse_digits(&chars, 1, false, 0x7fff_ffff_ffff_ffff) {
            Some(magnitude) => Some(magnitude as i64),
            None => None,
        }
    } else {
        match parse_digits(&chars, 0, false, 0x7fff_ffff_ffff_ffff) {
            Some(magnitude) => {
                assert(chars@.skip(0) == chars@);
                Some(magnitude as i64)
            },
            None => {
                assert(chars@.skip(0) == chars@);
                None
            },
        }
    }
}

impl ScriptingValue {
    /// The truth value that the value is.
    pub fn as_bool(&self) -> (result: Result<bool, ExecutionError>)
        ensures
            match self@ {
                Value::Boolean(truth) => result == Ok::<bool, ExecutionError>(truth),
                other => result matches Err(error) && error@ == (ExecutionFault::NoBoolean {
                    value: other,
                }),
            },
    {
        match self {
            ScriptingValue::Boolean(truth) => Ok(*truth),
            _ => Err(ExecutionError::NoBoolean { value: self.clone() }),
        }
    }

    /// The text that the value is.
    pub fn as_str(&self) -> (result: Result<&str, Error>)
        ensures
            match self@ {
                Value::String(text) => result matches Ok(s) && s@ == text,
                other => result matches Err(error) && error@ == mismatch(other, "&str"@),
            },
    {
        match self {
            ScriptingValue::String(text) => Ok(text.as_str()),
            _ => Err(Error::TryConversion { value: self.clone(), into: String::from_str("&str") }),
        }
    }

    /// The bits of the floating-point number that the value is.
    pub fn float_bits(self) -> (result: Result<u64, Error>)
        ensures
            match self@ {
                Value::Float64(bits) => result == Ok::<u64, Error>(bits),
                other => result matches Err(error) && error@ == mismatch(other, "f64"@),
            },
    {
        match self {
            ScriptingValue::Float64(bits) => Ok(bits),
            value => Err(Error::TryConversion { value, into: String::from_str("f64") }),
        }
    }

    /// The value that a text stands for: an integer, else a floating-point
    /// number, else a truth value, else the text itself. `float` is what
    /// the host reads the text as, if it reads it as a floating-point
    /// number.
    pub fn from_str(text: &str, float: Option<u64>) -> (value: ScriptingValue)
        ensures
            value@ == value_of_text(text@, float),
    {
        match parse_integer(text) {
            Some(i) => ScriptingValue::Int64(i),
            None => match float {
                Some(bits) => ScriptingValue::Float64(bits),
                None => {
                    let owned = String::from_str(text);
                    if owned == String::from_str("true") {
                        ScriptingValue::Boolean(true)
                    } else if owned == String::from_str("false") {
                        ScriptingValue::Boolean(false)
                    } else {
                        ScriptingValue::String(owned)
                    }
                },
            },
        }
    }
}

} // verus!
