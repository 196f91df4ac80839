//! Operators before their operand.
use crate::compilation::error::CompilationError;
use crate::compilation::lexer::Lexer;
use crate::compilation::parser::{agrees, follows, state, Parser};
use crate::compilation::precedence::Precedence;
use crate::compilation::token::{Token, TokenKind};
use crate::execution::chunk::Chunk;
use crate::execution::op_code::OpCode;
use vstd::prelude::*;
use vstd::string::StringExecFns;

verus! {

/// The handler for `!`, `-`, `+` and `~` before an operand.
#[derive(Debug, Clone, Copy, PartialEq, Eq, Structural)]
pub struct UnaryParselet;

impl UnaryParselet {
    /// Compiles the operand and writes the operation.
    pub fn parse(
        &self,
        lexer: &mut Lexer,
        parser: &mut Parser,
        chunk: &mut Chunk,
        _token: Token,
    ) -> (result: Result<(), CompilationError>)
        ensures
            forall|fuel: nat|
                fuel > state(old(lexer)@, old(parser)@, old(chunk)@).measure() ==> agrees(
                    result,
                    state(final(lexer)@, final(parser)@, final(chunk)@),
                    #[trigger] state(old(lexer)@, old(parser)@, old(chunk)@).unary(fuel),
                ),
            result is Ok ==> follows(
                state(old(lexer)@, old(parser)@, old(chunk)@),
                state(final(lexer)@, final(parser)@, final(chunk)@),
            ),
        decreases state(old(lexer)@, old(parser)@, old(chunk)@).measure(), 2nat,
    {
        let ghost before = state(lexer@, parser@, chunk@);
        let token = parser.current();
        let next = parser.next();
        if next.kind == TokenKind::EndOfInput {
            let error = CompilationError::ExpressionExpected { token: next.origin, pos: next.line };
            assert forall|fuel: nat| fuel > before.measure() implies agrees(
                Err(error),
                state(lexer@, parser@, chunk@),
                #[trigger] before.unary(fuel),
            ) by {}
            return Err(error);
        }
        match parser.with_precedence(lexer, Precedence::Unary, chunk) {
            Err(error) => {
                assert forall|fuel: nat| fuel > before.measure() implies agrees(
                    Err(error),
                    state(lexer@, parser@, chunk@),
                    #[trigger] before.unary(fuel),
                ) by {
                    assert(agrees(
                        Err(error),
                        state(lexer@, parser@, chunk@),
                        before.with_precedence(Precedence::Unary, fuel),
                    ));
                }
                return Err(error);
            },
            Ok(()) => {},
        }
        let ghost operand = state(lexer@, parser@, chunk@);
        let result = match token.kind {
            TokenKind::Bang => {
                parser.emit_byte(OpCode::Not.byte(), chunk);
                assert(state(lexer@, parser@, chunk@) == operand.emit(OpCode::Not));
                Ok(())
            },
            TokenKind::Minus => {
                parser.emit_byte(OpCode::Negate.byte(), chunk);
                assert(state(lexer@, parser@, chunk@) == operand.emit(OpCode::Negate));
                Ok(())
            },
            TokenKind::Plus => Ok(()),
            TokenKind::Tilde => {
                parser.emit_byte(OpCode::BitwiseNot.byte(), chunk);
                assert(state(lexer@, parser@, chunk@) == operand.emit(OpCode::BitwiseNot));
                Ok(())
            },
            _ => Err(
                CompilationError::Unreachable { file: String::from_str("UnaryParselet"), line: 0 },
            ),
        };
        proof {
            assert forall|fuel: nat| fuel > before.measure() implies agrees(
                result,
                state(lexer@, parser@, chunk@),
                #[trigger] before.unary(fuel),
            ) by {
                assert(agrees(Ok(()), operand, before.with_precedence(Precedence::Unary, fuel)));
            }
        }
        result
    }
}

} // verus!
