//! Expressions in parentheses.
use crate::compilation::error::CompilationError;
use crate::compilation::lexer::Lexer;
use crate::compilation::parser::{agrees, follows, state, Parser};
use crate::compilation::precedence::Precedence;
use crate::compilation::token::{Token, TokenKind};
use crate::execution::chunk::Chunk;
use vstd::prelude::*;

verus! {

/// The handler for an opening parenthesis.
#[derive(Debug, Clone, Copy, PartialEq, Eq, Structural)]
pub struct GroupingParselet;

impl GroupingParselet {
    /// Compiles the expression in the parentheses and passes the closing
    /// one.
    pub fn parse(
        &self,
        lexer: &mut Lexer,
        parser: &mut Parser,
        chunk: &mut Chunk,
        _token: Token,
    ) -> (result: Result<(), CompilationError>)
        ensures
            forall|fuel: nat|
                fuel > state(old(lexer)@, old(parser)@, old(chunk)@).measure() ==> agrees(
                    result,
                    state(final(lexer)@, final(parser)@, final(chunk)@),
                    #[trigger] state(old(lexer)@, old(parser)@, old(chunk)@).grouping(fuel),
                ),
            result is Ok ==> follows(
                state(old(lexer)@, old(parser)@, old(chunk)@),
                state(final(lexer)@, final(parser)@, final(chunk)@),
            ),
        decreases state(old(lexer)@, old(parser)@, old(chunk)@).measure(), 2nat,
    {
        let ghost before = state(lexer@, parser@, chunk@);
        match parser.expression(lexer, chunk) {
            Err(error) => {
                assert forall|fuel: nat| fuel > before.measure() implies agrees(
                    Err(error),
                    state(lexer@, parser@, chunk@),
                    #[trigger] before.grouping(fuel),
                ) by {
                    assert(agrees(
                        Err(error),
                        state(lexer@, parser@, chunk@),
                        before.with_precedence(Precedence::Assignment, fuel),
                    ));
                }
                return Err(error);
            },
            Ok(()) => {},
        }
        let ghost inner = state(lexer@, parser@, chunk@);
        let result = parser.consume(lexer, TokenKind::RightParen);
        proof {
            assert(agrees(
                result,
                state(lexer@, parser@, chunk@),
                inner.consume(TokenKind::RightParen),
            ));
            assert forall|fuel: nat| fuel > before.measure() implies agrees(
                result,
                state(lexer@, parser@, chunk@),
                #[trigger] before.grouping(fuel),
            ) by {
                assert(agrees(Ok(()), inner, before.with_precedence(Precedence::Assignment, fuel)));
            }
        }
        result
    }
}

} // verus!
