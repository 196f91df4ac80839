//! Numbers, strings and the names of enum values.
use crate::compilation::error::CompilationError;
use crate::compilation::lexer::Lexer;
use crate::compilation::parser::{agrees, follows, state, Parser};
use crate::compilation::token::{Token, TokenKind};
use crate::execution::chunk::{Chunk, Constant};
use crate::execution::op_code::OpCode;
use vstd::prelude::*;
use vstd::string::StringExecFns;
use crate::compilation::grammar::hex_digits;
use crate::scripting_value::ScriptingValue;
use crate::text::{chars_of, parse_decimal, parse_hex, string_of};

verus! {

/// The handler for a number, a string or the name of an enum value.
#[derive(Debug, Clone, Copy, PartialEq, Eq, Structural)]
pub struct ValueParselet;

/// A hexadecimal number without its leading `0x`.
fn digits_of_hex(origin: &String) -> (digits: String)
    ensures
        digits@ == hex_digits(origin@),
{
    let chars = chars_of(origin.as_str());
    if chars.len() >= 2 && chars[0] == '0' && chars[1] == 'x' {
        assert(chars@.subrange(2, chars.len() as int) == chars@.skip(2));
        string_of(&chars, 2, chars.len())
    } else {
        origin.clone()
    }
}

impl ValueParselet {
    /// Adds the constant that the token stands for and writes the
    /// instruction that pushes it.
    pub fn parse(
        &self,
        lexer: &mut Lexer,
        parser: &mut Parser,
        chunk: &mut Chunk,
        _token: Token,
    ) -> (result: Result<(), CompilationError>)
        ensures
            agrees(
                result,
                state(final(lexer)@, final(parser)@, final(chunk)@),
                state(old(lexer)@, old(parser)@, old(chunk)@).value(),
            ),
            result is Ok ==> follows(
                state(old(lexer)@, old(parser)@, old(chunk)@),
                state(final(lexer)@, final(parser)@, final(chunk)@),
            ),
        decreases state(old(lexer)@, old(parser)@, old(chunk)@).measure(), 2nat,
    {
        let token = parser.current();
        let constant = match token.kind {
            TokenKind::Enum => {
                match lexer.enums().get(token.origin.as_str()) {
                    Some(value) => Constant::Value(ScriptingValue::Int64(value as i64)),
                    None => {
                        return Err(
                            CompilationError::EnumValNotFound {
                                value: token.origin,
                                pos: token.line,
                            },
                        );
                    },
                }
            },
            TokenKind::FloatNumber => Constant::Float(token.origin),
            TokenKind::HexNumber => {
                let literal = digits_of_hex(&token.origin);
                match parse_hex(literal.as_str()) {
                    Some(value) => Constant::Value(ScriptingValue::Int64(value)),
                    None => {
                        return Err(CompilationError::ParseHex { token: literal, pos: token.line });
                    },
                }
            },
            TokenKind::IntNumber => {
                match parse_decimal(token.origin.as_str()) {
                    Some(value) => Constant::Value(ScriptingValue::Int64(value)),
                    None => {
                        return Err(
                            CompilationError::ParseInt { token: token.origin, pos: token.line },
                        );
                    },
                }
            },
            TokenKind::String => Constant::Value(ScriptingValue::String(token.origin)),
            _ => {
                return Err(CompilationError::Unreachable { file: String::from_str("ValueParselet"), line: 0 });
            },
        };
        match parser.emit_constant(OpCode::Constant, constant, chunk) {
            Ok(_) => Ok(()),
            Err(error) => Err(error),
        }
    }
}

} // verus!
