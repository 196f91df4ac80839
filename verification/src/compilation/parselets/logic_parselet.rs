//! The bitwise and the logical operators, and the choice.
use crate::compilation::error::CompilationError;
use crate::compilation::lexer::Lexer;
use crate::compilation::parser::{agrees, follows, state, Parser};
use crate::compilation::precedence::Precedence;
use crate::compilation::token::{Token, TokenKind};
use crate::execution::chunk::Chunk;
use crate::execution::op_code::OpCode;
use vstd::prelude::*;
use vstd::string::StringExecFns;
use crate::compilation::grammar::higher;

verus! {

/// The handler for a bitwise or a logical operator, or for the choice.
#[derive(Debug, Clone, Copy, PartialEq, Eq, Structural)]
pub struct LogicParselet {
    /// How tightly the operator binds.
    pub precedence: Precedence,
}

impl LogicParselet {
    /// The handler for an operator of the given level.
    pub fn new(precedence: Precedence) -> (parselet: Self)
        ensures
            parselet == (LogicParselet { precedence }),
    {
        LogicParselet { precedence }
    }

    /// How tightly the operator binds.
    pub fn get_precedence(&self) -> (precedence: Precedence)
        ensures
            precedence == self.precedence,
    {
        self.precedence
    }

    /// The next tighter level.
    fn tighter(&self) -> (precedence: Precedence)
        ensures
            precedence == higher(self.precedence),
    {
        let tighter = match self.precedence.next_higher() {
            Some(precedence) => precedence,
            None => Precedence::Primary,
        };
        proof {
            Precedence::law_level_injective(tighter, higher(self.precedence));
        }
        tighter
    }

    /// Compiles what follows the operator.
    pub fn parse(
        &self,
        lexer: &mut Lexer,
        parser: &mut Parser,
        chunk: &mut Chunk,
        _token: Token,
    ) -> (result: Result<(), CompilationError>)
        ensures
            forall|fuel: nat|
                fuel > state(old(lexer)@, old(parser)@, old(chunk)@).measure() ==> agrees(
                    result,
                    state(final(lexer)@, final(parser)@, final(chunk)@),
                    #[trigger] state(old(lexer)@, old(parser)@, old(chunk)@).logic(self.precedence, fuel),
                ),
            result is Ok ==> follows(
                state(old(lexer)@, old(parser)@, old(chunk)@),
                state(final(lexer)@, final(parser)@, final(chunk)@),
            ),
        decreases state(old(lexer)@, old(parser)@, old(chunk)@).measure(), 3nat,
    {
        let ghost before = state(lexer@, parser@, chunk@);
        let token = parser.current();
        let result = match token.kind {
            TokenKind::Ampersand => self.bitwise(lexer, parser, chunk, OpCode::BitwiseAnd),
            TokenKind::Caret => self.bitwise(lexer, parser, chunk, OpCode::BitwiseXor),
            TokenKind::Pipe => self.bitwise(lexer, parser, chunk, OpCode::BitwiseOr),
            TokenKind::And => self.short_circuit(lexer, parser, chunk, OpCode::JmpIfFalse),
            TokenKind::Or => self.short_circuit(lexer, parser, chunk, OpCode::JmpIfTrue),
            TokenKind::QMark => self.ternary(lexer, parser, chunk),
            _ => Err(
                CompilationError::Unreachable { file: String::from_str("LogicParselet"), line: 0 },
            ),
        };
        proof {
            assert forall|fuel: nat| fuel > before.measure() implies agrees(
                result,
                state(lexer@, parser@, chunk@),
                #[trigger] before.logic(self.precedence, fuel),
            ) by {
                let after = state(lexer@, parser@, chunk@);
                assert(agrees(result, after, before.bitwise(OpCode::BitwiseAnd, self.precedence, fuel))
                    || token.kind != TokenKind::Ampersand);
                assert(agrees(result, after, before.bitwise(OpCode::BitwiseXor, self.precedence, fuel))
                    || token.kind != TokenKind::Caret);
                assert(agrees(result, after, before.bitwise(OpCode::BitwiseOr, self.precedence, fuel))
                    || token.kind != TokenKind::Pipe);
                assert(agrees(
                    result,
                    after,
                    before.short_circuit(OpCode::JmpIfFalse, self.precedence, fuel),
                ) || token.kind != TokenKind::And);
                assert(agrees(
                    result,
                    after,
                    before.short_circuit(OpCode::JmpIfTrue, self.precedence, fuel),
                ) || token.kind != TokenKind::Or);
                assert(agrees(result, after, before.ternary(fuel)) || token.kind
                    != TokenKind::QMark);
            }
        }
        result
    }

    /// `a & b`, `a ^ b` and `a | b`: the right-hand side, then the
    /// operation.
    fn bitwise(
        &self,
        lexer: &mut Lexer,
        parser: &mut Parser,
        chunk: &mut Chunk,
        op: OpCode,
    ) -> (result: Result<(), CompilationError>)
        ensures
            forall|fuel: nat|
                fuel > state(old(lexer)@, old(parser)@, old(chunk)@).measure() ==> agrees(
                    result,
                    state(final(lexer)@, final(parser)@, final(chunk)@),
                    #[trigger] state(old(lexer)@, old(parser)@, old(chunk)@).bitwise(op, self.precedence, fuel),
                ),
            result is Ok ==> follows(
                state(old(lexer)@, old(parser)@, old(chunk)@),
                state(final(lexer)@, final(parser)@, final(chunk)@),
            ),
        decreases state(old(lexer)@, old(parser)@, old(chunk)@).measure(), 2nat,
    {
        let ghost before = state(lexer@, parser@, chunk@);
        match parser.with_precedence(lexer, self.tighter(), chunk) {
            Err(error) => {
                assert forall|fuel: nat| fuel > before.measure() implies agrees(
                    Err(error),
                    state(lexer@, parser@, chunk@),
                    #[trigger] before.bitwise(op, self.precedence, fuel),
                ) by {
                    assert(agrees(
                        Err(error),
                        state(lexer@, parser@, chunk@),
                        before.with_precedence(higher(self.precedence), fuel),
                    ));
                }
                return Err(error);
            },
            Ok(()) => {},
        }
        let ghost right = state(lexer@, parser@, chunk@);
        parser.emit_byte(op.byte(), chunk);
        proof {
            assert(state(lexer@, parser@, chunk@) == right.emit(op));
            assert forall|fuel: nat| fuel > before.measure() implies agrees(
                Ok(()),
                state(lexer@, parser@, chunk@),
                #[trigger] before.bitwise(op, self.precedence, fuel),
            ) by {
                assert(agrees(Ok(()), right, before.with_precedence(higher(self.precedence), fuel)));
            }
        }
        Ok(())
    }

    /// `a && b` and `a || b`: a jump over the right-hand side, which is
    /// taken where the left-hand side decides.
    fn short_circuit(
        &self,
        lexer: &mut Lexer,
        parser: &mut Parser,
        chunk: &mut Chunk,
        jump: OpCode,
    ) -> (result: Result<(), CompilationError>)
        ensures
            forall|fuel: nat|
                fuel > state(old(lexer)@, old(parser)@, old(chunk)@).measure() ==> agrees(
                    result,
                    state(final(lexer)@, final(parser)@, final(chunk)@),
                    #[trigger] state(old(lexer)@, old(parser)@, old(chunk)@).short_circuit(jump, self.precedence, fuel),
                ),
            result is Ok ==> follows(
                state(old(lexer)@, old(parser)@, old(chunk)@),
                state(final(lexer)@, final(parser)@, final(chunk)@),
            ),
        decreases state(old(lexer)@, old(parser)@, old(chunk)@).measure(), 2nat,
    {
        let ghost before = state(lexer@, parser@, chunk@);
        let target_pos = parser.emit_jump(jump, chunk);
        assert(state(lexer@, parser@, chunk@) == before.emit_jump(jump));
        parser.emit_byte(OpCode::Pop.byte(), chunk);
        let ghost left = state(lexer@, parser@, chunk@);
        assert(left == before.emit_jump(jump).emit(OpCode::Pop));
        match parser.with_precedence(lexer, self.tighter(), chunk) {
            Err(error) => {
                assert forall|fuel: nat| fuel > before.measure() implies agrees(
                    Err(error),
                    state(lexer@, parser@, chunk@),
                    #[trigger] before.short_circuit(jump, self.precedence, fuel),
                ) by {
                    assert(agrees(
                        Err(error),
                        state(lexer@, parser@, chunk@),
                        left.with_precedence(higher(self.precedence), fuel),
                    ));
                }
                return Err(error);
            },
            Ok(()) => {},
        }
        let ghost right = state(lexer@, parser@, chunk@);
        Parser::patch_jump(target_pos, chunk);
        proof {
            assert(state(lexer@, parser@, chunk@) == right.patch_jump(before.jump_operand()));
            assert forall|fuel: nat| fuel > before.measure() implies agrees(
                Ok(()),
                state(lexer@, parser@, chunk@),
                #[trigger] before.short_circuit(jump, self.precedence, fuel),
            ) by {
                assert(agrees(Ok(()), right, left.with_precedence(higher(self.precedence), fuel)));
            }
        }
        Ok(())
    }

    /// `c ? a : b`: a jump to `b`, which is taken where `c` is false, and
    /// behind `a` a jump over `b`.
    fn ternary(&self, lexer: &mut Lexer, parser: &mut Parser, chunk: &mut Chunk) -> (result: Result<
        (),
        CompilationError,
    >)
        ensures
            forall|fuel: nat|
                fuel > state(old(lexer)@, old(parser)@, old(chunk)@).measure() ==> agrees(
                    result,
                    state(final(lexer)@, final(parser)@, final(chunk)@),
                    #[trigger] state(old(lexer)@, old(parser)@, old(chunk)@).ternary(fuel),
                ),
            result is Ok ==> follows(
                state(old(lexer)@, old(parser)@, old(chunk)@),
                state(final(lexer)@, final(parser)@, final(chunk)@),
            ),
        decreases state(old(lexer)@, old(parser)@, old(chunk)@).measure(), 2nat,
    {
        let ghost before = state(lexer@, parser@, chunk@);
        let else_pos = parser.emit_jump(OpCode::JmpIfFalse, chunk);
        assert(state(lexer@, parser@, chunk@) == before.emit_jump(OpCode::JmpIfFalse));
        parser.emit_byte(OpCode::Pop.byte(), chunk);
        let ghost condition = state(lexer@, parser@, chunk@);
        assert(condition == before.emit_jump(OpCode::JmpIfFalse).emit(OpCode::Pop));
        match parser.with_precedence(lexer, Precedence::Assignment, chunk) {
            Err(error) => {
                assert forall|fuel: nat| fuel > before.measure() implies agrees(
                    Err(error),
                    state(lexer@, parser@, chunk@),
                    #[trigger] before.ternary(fuel),
                ) by {
                    assert(agrees(
                        Err(error),
                        state(lexer@, parser@, chunk@),
                        condition.with_precedence(Precedence::Assignment, fuel),
                    ));
                }
                return Err(error);
            },
            Ok(()) => {},
        }
        let ghost chosen = state(lexer@, parser@, chunk@);
        let end_pos = parser.emit_jump(OpCode::Jmp, chunk);
        assert(state(lexer@, parser@, chunk@) == chosen.emit_jump(OpCode::Jmp));
        Parser::patch_jump(else_pos, chunk);
        let ghost patched = state(lexer@, parser@, chunk@);
        assert(patched == chosen.emit_jump(OpCode::Jmp).patch_jump(before.jump_operand()));
        match parser.consume(lexer, TokenKind::Colon) {
            Err(error) => {
                assert(agrees(
                    Err(error),
                    state(lexer@, parser@, chunk@),
                    patched.consume(TokenKind::Colon),
                ));
                assert forall|fuel: nat| fuel > before.measure() implies agrees(
                    Err(error),
                    state(lexer@, parser@, chunk@),
                    #[trigger] before.ternary(fuel),
                ) by {
                    assert(agrees(
                        Ok(()),
                        chosen,
                        condition.with_precedence(Precedence::Assignment, fuel),
                    ));
                }
                return Err(error);
            },
            Ok(()) => {},
        }
        let ghost colon = state(lexer@, parser@, chunk@);
        assert(agrees(Ok(()), colon, patched.consume(TokenKind::Colon)));
        parser.emit_byte(OpCode::Pop.byte(), chunk);
        let ghost other_start = state(lexer@, parser@, chunk@);
        assert(other_start == colon.emit(OpCode::Pop));
        assert(other_start.measure() <= before.measure());
        match parser.with_precedence(lexer, Precedence::Assignment, chunk) {
            Err(error) => {
                assert forall|fuel: nat| fuel > before.measure() implies agrees(
                    Err(error),
                    state(lexer@, parser@, chunk@),
                    #[trigger] before.ternary(fuel),
                ) by {
                    assert(agrees(
                        Ok(()),
                        chosen,
                        condition.with_precedence(Precedence::Assignment, fuel),
                    ));
                    assert(agrees(
                        Err(error),
                        state(lexer@, parser@, chunk@),
                        other_start.with_precedence(Precedence::Assignment, fuel),
                    ));
                }
                return Err(error);
            },
            Ok(()) => {},
        }
        let ghost other = state(lexer@, parser@, chunk@);
        Parser::patch_jump(end_pos, chunk);
        proof {
            assert(state(lexer@, parser@, chunk@) == other.patch_jump(chosen.jump_operand()));
            assert forall|fuel: nat| fuel > before.measure() implies agrees(
                Ok(()),
                state(lexer@, parser@, chunk@),
                #[trigger] before.ternary(fuel),
            ) by {
                assert(agrees(
                    Ok(()),
                    chosen,
                    condition.with_precedence(Precedence::Assignment, fuel),
                ));
                assert(agrees(
                    Ok(()),
                    other,
                    other_start.with_precedence(Precedence::Assignment, fuel),
                ));
            }
        }
        Ok(())
    }
}

} // verus!
