//! The arithmetic operators and the comparisons.
use crate::compilation::error::CompilationError;
use crate::compilation::lexer::Lexer;
use crate::compilation::parser::{agrees, follows, state, Parser};
use crate::compilation::precedence::Precedence;
use crate::compilation::token::{Token, TokenKind};
use crate::execution::chunk::Chunk;
use crate::execution::op_code::OpCode;
use vstd::prelude::*;
use vstd::string::StringExecFns;
use crate::compilation::grammar::higher;

verus! {

/// The handler for an arithmetic operator or a comparison.
#[derive(Debug, Clone, Copy, PartialEq, Eq, Structural)]
pub struct BinaryParselet {
    /// How tightly the operator binds.
    pub precedence: Precedence,
}

impl BinaryParselet {
    /// The handler for an operator of the given level.
    pub fn new(precedence: Precedence) -> (parselet: Self)
        ensures
            parselet == (BinaryParselet { precedence }),
    {
        BinaryParselet { precedence }
    }

    /// How tightly the operator binds.
    pub fn get_precedence(&self) -> (precedence: Precedence)
        ensures
            precedence == self.precedence,
    {
        self.precedence
    }

    /// Compiles the right-hand side and writes the operation.
    pub fn parse(
        &self,
        lexer: &mut Lexer,
        parser: &mut Parser,
        chunk: &mut Chunk,
        _token: Token,
    ) -> (result: Result<(), CompilationError>)
        ensures
            forall|fuel: nat|
                fuel > state(old(lexer)@, old(parser)@, old(chunk)@).measure() ==> agrees(
                    result,
                    state(final(lexer)@, final(parser)@, final(chunk)@),
                    #[trigger] state(old(lexer)@, old(parser)@, old(chunk)@).binary(self.precedence, fuel),
                ),
            result is Ok ==> follows(
                state(old(lexer)@, old(parser)@, old(chunk)@),
                state(final(lexer)@, final(parser)@, final(chunk)@),
            ),
        decreases state(old(lexer)@, old(parser)@, old(chunk)@).measure(), 2nat,
    {
        let ghost before = state(lexer@, parser@, chunk@);
        let token = parser.current();
        let kind = token.kind;
        let tighter = match self.precedence.next_higher() {
            Some(precedence) => precedence,
            None => Precedence::Primary,
        };
        proof {
            Precedence::law_level_injective(tighter, higher(self.precedence));
        }
        match parser.with_precedence(lexer, tighter, chunk) {
            Err(error) => {
                assert forall|fuel: nat| fuel > before.measure() implies agrees(
                    Err(error),
                    state(lexer@, parser@, chunk@),
                    #[trigger] before.binary(self.precedence, fuel),
                ) by {
                    assert(agrees(
                        Err(error),
                        state(lexer@, parser@, chunk@),
                        before.with_precedence(tighter, fuel),
                    ));
                }
                return Err(error);
            },
            Ok(()) => {},
        }
        let ghost right = state(lexer@, parser@, chunk@);
        let result = match kind {
            TokenKind::BangEqual => {
                parser.emit_bytes(OpCode::Equal.byte(), OpCode::Not.byte(), chunk);
                assert(state(lexer@, parser@, chunk@) == right.emit(OpCode::Equal).emit(
                    OpCode::Not,
                ));
                Ok(())
            },
            TokenKind::EqualEqual => {
                parser.emit_byte(OpCode::Equal.byte(), chunk);
                assert(state(lexer@, parser@, chunk@) == right.emit(OpCode::Equal));
                Ok(())
            },
            TokenKind::Greater => {
                parser.emit_byte(OpCode::Greater.byte(), chunk);
                assert(state(lexer@, parser@, chunk@) == right.emit(OpCode::Greater));
                Ok(())
            },
            TokenKind::GreaterEqual => {
                parser.emit_bytes(OpCode::Less.byte(), OpCode::Not.byte(), chunk);
                assert(state(lexer@, parser@, chunk@) == right.emit(OpCode::Less).emit(
                    OpCode::Not,
                ));
                Ok(())
            },
            TokenKind::Less => {
                parser.emit_byte(OpCode::Less.byte(), chunk);
                assert(state(lexer@, parser@, chunk@) == right.emit(OpCode::Less));
                Ok(())
            },
            TokenKind::LessEqual => {
                parser.emit_bytes(OpCode::Greater.byte(), OpCode::Not.byte(), chunk);
                assert(state(lexer@, parser@, chunk@) == right.emit(OpCode::Greater).emit(
                    OpCode::Not,
                ));
                Ok(())
            },
            TokenKind::Plus => {
                parser.emit_byte(OpCode::Add.byte(), chunk);
                assert(state(lexer@, parser@, chunk@) == right.emit(OpCode::Add));
                Ok(())
            },
            TokenKind::Minus => {
                parser.emit_byte(OpCode::Subtract.byte(), chunk);
                assert(state(lexer@, parser@, chunk@) == right.emit(OpCode::Subtract));
                Ok(())
            },
            TokenKind::Star => {
                parser.emit_byte(OpCode::Multiply.byte(), chunk);
                assert(state(lexer@, parser@, chunk@) == right.emit(OpCode::Multiply));
                Ok(())
            },
            TokenKind::Slash => {
                parser.emit_byte(OpCode::Divide.byte(), chunk);
                assert(state(lexer@, parser@, chunk@) == right.emit(OpCode::Divide));
                Ok(())
            },
            _ => Err(
                CompilationError::Unreachable { file: String::from_str("BinaryParselet"), line: 0 },
            ),
        };
        proof {
            assert forall|fuel: nat| fuel > before.measure() implies agrees(
                result,
                state(lexer@, parser@, chunk@),
                #[trigger] before.binary(self.precedence, fuel),
            ) by {
                assert(agrees(Ok(()), right, before.with_precedence(tighter, fuel)));
            }
        }
        result
    }
}

} // verus!
