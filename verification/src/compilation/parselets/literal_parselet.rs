//! `true`, `false` and `nil`.
use crate::compilation::error::CompilationError;
use crate::compilation::lexer::Lexer;
use crate::compilation::parser::{agrees, follows, state, Parser};
use crate::compilation::token::{Token, TokenKind};
use crate::execution::chunk::Chunk;
use crate::execution::op_code::OpCode;
use vstd::prelude::*;
use vstd::string::StringExecFns;

verus! {

/// The handler for `true`, `false` and `nil`.
#[derive(Debug, Clone, Copy, PartialEq, Eq, Structural)]
pub struct LiteralParselet;

impl LiteralParselet {
    /// Writes the instruction that pushes the value.
    pub fn parse(
        &self,
        lexer: &mut Lexer,
        parser: &mut Parser,
        chunk: &mut Chunk,
        _token: Token,
    ) -> (result: Result<(), CompilationError>)
        ensures
            agrees(
                result,
                state(final(lexer)@, final(parser)@, final(chunk)@),
                state(old(lexer)@, old(parser)@, old(chunk)@).literal(),
            ),
            result is Ok ==> follows(
                state(old(lexer)@, old(parser)@, old(chunk)@),
                state(final(lexer)@, final(parser)@, final(chunk)@),
            ),
        decreases state(old(lexer)@, old(parser)@, old(chunk)@).measure(), 2nat,
    {
        let kind = parser.current().kind;
        match kind {
            TokenKind::False => {
                parser.emit_byte(OpCode::False.byte(), chunk);
                Ok(())
            },
            TokenKind::Nil => {
                parser.emit_byte(OpCode::Nil.byte(), chunk);
                Ok(())
            },
            TokenKind::True => {
                parser.emit_byte(OpCode::True.byte(), chunk);
                Ok(())
            },
            _ => Err(CompilationError::Unreachable { file: String::from_str("LiteralParselet"), line: 0 }),
        }
    }
}

} // verus!
