//! Identifiers and assignments.
use crate::compilation::error::CompilationError;
use crate::compilation::lexer::Lexer;
use crate::compilation::parser::{agrees, follows, state, Parser};
use crate::compilation::precedence::Precedence;
use crate::compilation::token::{Token, TokenKind};
use crate::execution::chunk::{Chunk, Constant};
use crate::execution::op_code::OpCode;
use vstd::prelude::*;
use crate::compilation::error::CompilationFault;
use crate::compilation::grammar::Compilation;
use crate::scripting_value::ScriptingValue;

verus! {

/// The handler for an identifier.
#[derive(Debug, Clone, Copy, PartialEq, Eq, Structural)]
pub struct AssignmentParselet;

impl AssignmentParselet {
    /// Compiles the reading of a variable or, where an assignment operator
    /// follows the identifier, the assignment.
    pub fn parse(
        &self,
        lexer: &mut Lexer,
        parser: &mut Parser,
        chunk: &mut Chunk,
        _token: Token,
    ) -> (result: Result<(), CompilationError>)
        ensures
            forall|fuel: nat|
                fuel > state(old(lexer)@, old(parser)@, old(chunk)@).measure() ==> agrees(
                    result,
                    state(final(lexer)@, final(parser)@, final(chunk)@),
                    #[trigger] state(old(lexer)@, old(parser)@, old(chunk)@).assignment(fuel),
                ),
            result is Ok ==> follows(
                state(old(lexer)@, old(parser)@, old(chunk)@),
                state(final(lexer)@, final(parser)@, final(chunk)@),
            ),
        decreases state(old(lexer)@, old(parser)@, old(chunk)@).measure(), 3nat,
    {
        let ghost before = state(lexer@, parser@, chunk@);
        let token = parser.current();
        let name = Constant::Value(ScriptingValue::String(token.origin));
        let ghost constant = name@;
        let next = parser.next();
        let result = match next.kind {
            TokenKind::ColonEqual => self.store(lexer, parser, chunk, OpCode::DefineExternal, name),
            TokenKind::Equal => self.store(lexer, parser, chunk, OpCode::SetExternal, name),
            TokenKind::PlusEqual => self.update(lexer, parser, chunk, OpCode::Add, name),
            TokenKind::MinusEqual => self.update(lexer, parser, chunk, OpCode::Subtract, name),
            TokenKind::StarEqual => self.update(lexer, parser, chunk, OpCode::Multiply, name),
            TokenKind::SlashEqual => self.update(lexer, parser, chunk, OpCode::Divide, name),
            _ => {
                let place = parser.emit_constant(OpCode::GetExternal, name, chunk);
                assert(before.emit_constant(OpCode::GetExternal, constant) is Ok ==> state(
                    lexer@,
                    parser@,
                    chunk@,
                ) == before.emit_constant(OpCode::GetExternal, constant)->Ok_0);
                match place {
                    Ok(_) => Ok(()),
                    Err(error) => Err(error),
                }
            },
        };
        proof {
            assert forall|fuel: nat| fuel > before.measure() implies agrees(
                result,
                state(lexer@, parser@, chunk@),
                #[trigger] before.assignment(fuel),
            ) by {
                let after = state(lexer@, parser@, chunk@);
                assert(agrees(result, after, before.store(OpCode::DefineExternal, constant, fuel))
                    || next.kind != TokenKind::ColonEqual);
                assert(agrees(result, after, before.store(OpCode::SetExternal, constant, fuel))
                    || next.kind != TokenKind::Equal);
                assert(agrees(result, after, before.update(OpCode::Add, constant, fuel))
                    || next.kind != TokenKind::PlusEqual);
                assert(agrees(result, after, before.update(OpCode::Subtract, constant, fuel))
                    || next.kind != TokenKind::MinusEqual);
                assert(agrees(result, after, before.update(OpCode::Multiply, constant, fuel))
                    || next.kind != TokenKind::StarEqual);
                assert(agrees(result, after, before.update(OpCode::Divide, constant, fuel))
                    || next.kind != TokenKind::SlashEqual);
            }
        }
        result
    }

    /// `name := e` and `name = e`: the value of `e`, then the instruction
    /// that stores it.
    fn store(
        &self,
        lexer: &mut Lexer,
        parser: &mut Parser,
        chunk: &mut Chunk,
        op: OpCode,
        name: Constant,
    ) -> (result: Result<(), CompilationError>)
        ensures
            forall|fuel: nat|
                fuel > state(old(lexer)@, old(parser)@, old(chunk)@).measure() ==> agrees(
                    result,
                    state(final(lexer)@, final(parser)@, final(chunk)@),
                    #[trigger] state(old(lexer)@, old(parser)@, old(chunk)@).store(op, name@, fuel),
                ),
            result is Ok ==> follows(
                state(old(lexer)@, old(parser)@, old(chunk)@),
                state(final(lexer)@, final(parser)@, final(chunk)@),
            ),
        decreases state(old(lexer)@, old(parser)@, old(chunk)@).measure(), 2nat,
    {
        let ghost before = state(lexer@, parser@, chunk@);
        match parser.advance(lexer) {
            Err(error) => {
                assert(agrees(Err(error), state(lexer@, parser@, chunk@), before.advance()));
                assert forall|fuel: nat| fuel > before.measure() implies agrees(
                    Err(error),
                    state(lexer@, parser@, chunk@),
                    #[trigger] before.store(op, name@, fuel),
                ) by {}
                return Err(error);
            },
            Ok(()) => {},
        }
        let ghost operator = state(lexer@, parser@, chunk@);
        assert(agrees(Ok(()), operator, before.advance()));
        assert(operator.measure() <= before.measure());
        match parser.expression(lexer, chunk) {
            Err(error) => {
                assert forall|fuel: nat| fuel > before.measure() implies agrees(
                    Err(error),
                    state(lexer@, parser@, chunk@),
                    #[trigger] before.store(op, name@, fuel),
                ) by {
                    assert(agrees(
                        Err(error),
                        state(lexer@, parser@, chunk@),
                        operator.with_precedence(Precedence::Assignment, fuel),
                    ));
                }
                return Err(error);
            },
            Ok(()) => {},
        }
        let ghost value = state(lexer@, parser@, chunk@);
        let ghost constant = name@;
        let place = parser.emit_constant(op, name, chunk);
        let result = match place {
            Ok(_) => Ok(()),
            Err(error) => Err(error),
        };
        proof {
            assert(agrees(result, state(lexer@, parser@, chunk@), value.emit_constant(op, constant)));
            assert forall|fuel: nat| fuel > before.measure() implies agrees(
                result,
                state(lexer@, parser@, chunk@),
                #[trigger] before.store(op, constant, fuel),
            ) by {
                assert(agrees(
                    Ok(()),
                    value,
                    operator.with_precedence(Precedence::Assignment, fuel),
                ));
            }
        }
        result
    }

    /// `name += e` and its like: the variable is read, `e` is compiled,
    /// the operation follows, and the result is set.
    fn update(
        &self,
        lexer: &mut Lexer,
        parser: &mut Parser,
        chunk: &mut Chunk,
        op: OpCode,
        name: Constant,
    ) -> (result: Result<(), CompilationError>)
        ensures
            forall|fuel: nat|
                fuel > state(old(lexer)@, old(parser)@, old(chunk)@).measure() ==> agrees(
                    result,
                    state(final(lexer)@, final(parser)@, final(chunk)@),
                    #[trigger] state(old(lexer)@, old(parser)@, old(chunk)@).update(op, name@, fuel),
                ),
            result is Ok ==> follows(
                state(old(lexer)@, old(parser)@, old(chunk)@),
                state(final(lexer)@, final(parser)@, final(chunk)@),
            ),
        decreases state(old(lexer)@, old(parser)@, old(chunk)@).measure(), 2nat,
    {
        let ghost before = state(lexer@, parser@, chunk@);
        let ghost constant = name@;
        let place = match parser.emit_constant(OpCode::GetExternal, name, chunk) {
            Ok(place) => place,
            Err(error) => {
                assert(before.emit_constant(OpCode::GetExternal, constant) is Err);
                assert forall|fuel: nat| fuel > before.measure() implies agrees(
                    Err(error),
                    state(lexer@, parser@, chunk@),
                    #[trigger] before.update(op, constant, fuel),
                ) by {}
                return Err(error);
            },
        };
        let ghost read = state(lexer@, parser@, chunk@);
        assert(before.emit_constant(OpCode::GetExternal, constant) == Ok::<
            Compilation,
            CompilationFault,
        >(read));
        match parser.advance(lexer) {
            Err(error) => {
                assert(agrees(Err(error), state(lexer@, parser@, chunk@), read.advance()));
                assert forall|fuel: nat| fuel > before.measure() implies agrees(
                    Err(error),
                    state(lexer@, parser@, chunk@),
                    #[trigger] before.update(op, constant, fuel),
                ) by {}
                return Err(error);
            },
            Ok(()) => {},
        }
        let ghost operator = state(lexer@, parser@, chunk@);
        assert(agrees(Ok(()), operator, read.advance()));
        assert(operator.measure() <= before.measure());
        match parser.expression(lexer, chunk) {
            Err(error) => {
                assert forall|fuel: nat| fuel > before.measure() implies agrees(
                    Err(error),
                    state(lexer@, parser@, chunk@),
                    #[trigger] before.update(op, constant, fuel),
                ) by {
                    assert(agrees(
                        Err(error),
                        state(lexer@, parser@, chunk@),
                        operator.with_precedence(Precedence::Assignment, fuel),
                    ));
                }
                return Err(error);
            },
            Ok(()) => {},
        }
        let ghost value = state(lexer@, parser@, chunk@);
        parser.emit_byte(op.byte(), chunk);
        assert(state(lexer@, parser@, chunk@) == value.emit(op));
        parser.emit_bytes(OpCode::SetExternal.byte(), place, chunk);
        proof {
            assert(state(lexer@, parser@, chunk@) == value.emit(op).emit_with(
                OpCode::SetExternal,
                place,
            ));
            assert forall|fuel: nat| fuel > before.measure() implies agrees(
                Ok(()),
                state(lexer@, parser@, chunk@),
                #[trigger] before.update(op, constant, fuel),
            ) by {
                assert(agrees(
                    Ok(()),
                    value,
                    operator.with_precedence(Precedence::Assignment, fuel),
                ));
            }
        }
        Ok(())
    }
}

} // verus!
