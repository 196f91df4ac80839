//! What may go wrong while a script is compiled.
use vstd::prelude::*;
use crate::text::{char_text, digits, unsigned_text};
use vstd::string::StringExecFns;

verus! {

/// What may go wrong while a script is compiled. `pos` is the line of the
/// script at which it went wrong.
#[derive(Debug)]
pub enum CompilationError {
    /// The name of an enum value that nobody registered.
    EnumValNotFound { value: String, pos: usize },
    /// An expression has to start here, and this token starts none.
    ExpressionExpected { token: String, pos: usize },
    /// Not a hexadecimal number that fits.
    ParseHex { token: String, pos: usize },
    /// Not a decimal integer that fits.
    ParseInt { token: String, pos: usize },
    /// Not a floating-point number.
    ParseNumber { token: String, pos: usize },
    /// More constants than a chunk holds.
    ConstantStorageOverflow,
    /// Another token was expected here.
    TokenExpected { expected: String, found: String, pos: usize },
    /// A character that starts no token.
    UnexpectedChar { c: char, pos: usize },
    /// A string without its closing quote.
    UnterminatedString { str: String, pos: usize },
    /// A state that the compiler does not get into: `file` names the part
    /// of the compiler that found itself in it.
    Unreachable { file: String, line: u32 },
}

/// What a [`CompilationError`] holds, as plain values.
pub enum CompilationFault {
    EnumValNotFound { value: Seq<char>, pos: nat },
    ExpressionExpected { token: Seq<char>, pos: nat },
    ParseHex { token: Seq<char>, pos: nat },
    ParseInt { token: Seq<char>, pos: nat },
    ParseNumber { token: Seq<char>, pos: nat },
    ConstantStorageOverflow,
    TokenExpected { expected: Seq<char>, found: Seq<char>, pos: nat },
    UnexpectedChar { c: char, pos: nat },
    UnterminatedString { str: Seq<char>, pos: nat },
    Unreachable { file: Seq<char>, line: nat },
}

impl View for CompilationError {
    type V = CompilationFault;

    open spec fn view(&self) -> CompilationFault {
        match self {
            CompilationError::EnumValNotFound { value, pos } => CompilationFault::EnumValNotFound {
                value: value@,
                pos: *pos as nat,
            },
            CompilationError::ExpressionExpected { token, pos } => CompilationFault::ExpressionExpected {
                token: token@,
                pos: *pos as nat,
            },
            CompilationError::ParseHex { token, pos } => CompilationFault::ParseHex {
                token: token@,
                pos: *pos as nat,
            },
            CompilationError::ParseInt { token, pos } => CompilationFault::ParseInt {
                token: token@,
                pos: *pos as nat,
            },
            CompilationError::ParseNumber { token, pos } => CompilationFault::ParseNumber {
                token: token@,
                pos: *pos as nat,
            },
            CompilationError::ConstantStorageOverflow => CompilationFault::ConstantStorageOverflow,
            CompilationError::TokenExpected { expected, found, pos } => CompilationFault::TokenExpected {
                expected: expected@,
                found: found@,
                pos: *pos as nat,
            },
            CompilationError::UnexpectedChar { c, pos } => CompilationFault::UnexpectedChar {
                c: *c,
                pos: *pos as nat,
            },
            CompilationError::UnterminatedString { str, pos } => CompilationFault::UnterminatedString {
                str: str@,
                pos: *pos as nat,
            },
            CompilationError::Unreachable { file, line } => CompilationFault::Unreachable {
                file: file@,
                line: *line as nat,
            },
        }
    }
}

/// The result of a step of the compilation.
pub type CompilationResult<T> = Result<T, CompilationError>;

impl CompilationFault {
    /// The message that tells of the error.
    pub open spec fn message(self) -> Seq<char> {
        match self {
            CompilationFault::ConstantStorageOverflow => "to many constant values defined: storage overflow"@,
            CompilationFault::EnumValNotFound { value, pos } => "the ScriptEnum value "@ + value + " at line "@ + digits(pos) + " is not defined"@,
            CompilationFault::ExpressionExpected { token, pos } => "expression expected at line "@ + digits(pos) + ", got "@ + token,
            CompilationFault::ParseHex { token, pos } => "could not parse "@ + token + " at line "@ + digits(pos) + " as Hex value"@,
            CompilationFault::ParseInt { token, pos } => "could not parse "@ + token + " at line "@ + digits(pos) + " as Integer value"@,
            CompilationFault::ParseNumber { token, pos } => "could not parse "@ + token + " at line "@ + digits(pos) + " as Double value"@,
            CompilationFault::TokenExpected { expected, found, pos } => "expected token "@ + expected + ", found Token "@ + found + " at line "@ + digits(pos),
            CompilationFault::UnexpectedChar { c, pos } => "unexpected character "@ + seq![c] + " at line "@ + digits(pos),
            CompilationFault::UnterminatedString { str, pos } => "unterminated string "@ + str + " at line "@ + digits(pos),
            CompilationFault::Unreachable { file, line } => ""@ + file + " at line "@ + digits(line) + " should be unreachable"@,
        }
    }
}

impl CompilationError {
    /// The message that tells of the error.
    pub fn to_string(&self) -> (text: String)
        ensures
            text@ == self@.message(),
    {
        match self {
            CompilationError::ConstantStorageOverflow => {
                let text = String::from_str("to many constant values defined: storage overflow");
                text
            },
            CompilationError::EnumValNotFound { value, pos } => {
                let text = String::from_str("the ScriptEnum value ");
                let text = text.concat(value.as_str());
                let text = text.concat(" at line ");
                let part = unsigned_text(*pos as u64);
                let text = text.concat(part.as_str());
                let text = text.concat(" is not defined");
                text
            },
            CompilationError::ExpressionExpected { token, pos } => {
                let text = String::from_str("expression expected at line ");
                let part = unsigned_text(*pos as u64);
                let text = text.concat(part.as_str());
                let text = text.concat(", got ");
                let text = text.concat(token.as_str());
                text
            },
            CompilationError::ParseHex { token, pos } => {
                let text = String::from_str("could not parse ");
                let text = text.concat(token.as_str());
                let text = text.concat(" at line ");
                let part = unsigned_text(*pos as u64);
                let text = text.concat(part.as_str());
                let text = text.concat(" as Hex value");
                text
            },
            CompilationError::ParseInt { token, pos } => {
                let text = String::from_str("could not parse ");
                let text = text.concat(token.as_str());
                let text = text.concat(" at line ");
                let part = unsigned_text(*pos as u64);
                let text = text.concat(part.as_str());
                let text = text.concat(" as Integer value");
                text
            },
            CompilationError::ParseNumber { token, pos } => {
                let text = String::from_str("could not parse ");
                let text = text.concat(token.as_str());
                let text = text.concat(" at line ");
                let part = unsigned_text(*pos as u64);
                let text = text.concat(part.as_str());
                let text = text.concat(" as Double value");
                text
            },
            CompilationError::TokenExpected { expected, found, pos } => {
                let text = String::from_str("expected token ");
                let text = text.concat(expected.as_str());
                let text = text.concat(", found Token ");
                let text = text.concat(found.as_str());
                let text = text.concat(" at line ");
                let part = unsigned_text(*pos as u64);
                let text = text.concat(part.as_str());
                text
            },
            CompilationError::UnexpectedChar { c, pos } => {
                let text = String::from_str("unexpected character ");
                let part = char_text(*c);
                let text = text.concat(part.as_str());
                let text = text.concat(" at line ");
                let part = unsigned_text(*pos as u64);
                let text = text.concat(part.as_str());
                text
            },
            CompilationError::UnterminatedString { str, pos } => {
                let text = String::from_str("unterminated string ");
                let text = text.concat(str.as_str());
                let text = text.concat(" at line ");
                let part = unsigned_text(*pos as u64);
                let text = text.concat(part.as_str());
                text
            },
            CompilationError::Unreachable { file, line } => {
                let text = String::from_str("");
                let text = text.concat(file.as_str());
                let text = text.concat(" at line ");
                let part = unsigned_text(*line as u64);
                let text = text.concat(part.as_str());
                let text = text.concat(" should be unreachable");
                text
            },
        }
    }
}

} // verus!
