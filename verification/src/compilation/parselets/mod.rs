//! The handlers of the Pratt parser: one for each family of tokens.
pub mod assignment_parselet;
pub mod binary_parselet;
pub mod grouping_parselet;
pub mod literal_parselet;
pub mod logic_parselet;
pub mod unary_parselet;
pub mod value_parselet;

pub use assignment_parselet::AssignmentParselet;
pub use binary_parselet::BinaryParselet;
pub use grouping_parselet::GroupingParselet;
pub use literal_parselet::LiteralParselet;
pub use logic_parselet::LogicParselet;
pub use unary_parselet::UnaryParselet;
pub use value_parselet::ValueParselet;

use crate::compilation::error::CompilationError;
use crate::compilation::lexer::Lexer;
use crate::compilation::parser::{agrees, follows, state, Parser};
use crate::compilation::token::Token;
use crate::execution::chunk::Chunk;
use vstd::prelude::*;

verus! {

/// The handler for a token at the start of an expression. It is called
/// with that token as the current one and compiles what belongs to it.
#[derive(Debug, Clone, Copy, PartialEq, Eq, Structural)]
pub enum PrefixParselet {
    /// An identifier, with the assignment that may follow it.
    Assignment,
    /// An expression in parentheses.
    Grouping,
    /// `true`, `false` and `nil`.
    Literal,
    /// An operator before its operand.
    Unary,
    /// A number, a string or the name of an enum value.
    Value,
}

/// The handler for an operator behind an expression. It is called with the
/// operator as the current token, after the left-hand side is compiled, and
/// compiles what follows the operator.
#[derive(Debug, Clone, Copy, PartialEq, Eq, Structural)]
pub enum InfixParselet {
    /// The arithmetic operators and the comparisons.
    Binary(BinaryParselet),
    /// The bitwise and the logical operators, and the choice.
    Logic(LogicParselet),
}

impl PrefixParselet {
    /// Compiles what belongs to the current token.
    pub fn parse(
        &self,
        lexer: &mut Lexer,
        parser: &mut Parser,
        chunk: &mut Chunk,
        token: Token,
    ) -> (result: Result<(), CompilationError>)
        ensures
            forall|fuel: nat|
                fuel > state(old(lexer)@, old(parser)@, old(chunk)@).measure() ==> agrees(
                    result,
                    state(final(lexer)@, final(parser)@, final(chunk)@),
                    #[trigger] state(old(lexer)@, old(parser)@, old(chunk)@).prefix(*self, fuel),
                ),
            result is Ok ==> follows(
                state(old(lexer)@, old(parser)@, old(chunk)@),
                state(final(lexer)@, final(parser)@, final(chunk)@),
            ),
        decreases state(old(lexer)@, old(parser)@, old(chunk)@).measure(), 4nat,
    {
        let ghost before = state(lexer@, parser@, chunk@);
        let result = match self {
            PrefixParselet::Assignment => AssignmentParselet.parse(lexer, parser, chunk, token),
            PrefixParselet::Grouping => GroupingParselet.parse(lexer, parser, chunk, token),
            PrefixParselet::Literal => LiteralParselet.parse(lexer, parser, chunk, token),
            PrefixParselet::Unary => UnaryParselet.parse(lexer, parser, chunk, token),
            PrefixParselet::Value => ValueParselet.parse(lexer, parser, chunk, token),
        };
        proof {
            assert forall|fuel: nat| fuel > before.measure() implies agrees(
                result,
                state(lexer@, parser@, chunk@),
                #[trigger] before.prefix(*self, fuel),
            ) by {
                let after = state(lexer@, parser@, chunk@);
                assert(agrees(result, after, before.assignment(fuel)) || *self
                    != PrefixParselet::Assignment);
                assert(agrees(result, after, before.grouping(fuel)) || *self
                    != PrefixParselet::Grouping);
                assert(agrees(result, after, before.unary(fuel)) || *self != PrefixParselet::Unary);
            }
        }
        result
    }
}

impl InfixParselet {
    /// Compiles what follows the current token, an operator.
    pub fn parse(
        &self,
        lexer: &mut Lexer,
        parser: &mut Parser,
        chunk: &mut Chunk,
        token: Token,
    ) -> (result: Result<(), CompilationError>)
        ensures
            forall|fuel: nat|
                fuel > state(old(lexer)@, old(parser)@, old(chunk)@).measure() ==> agrees(
                    result,
                    state(final(lexer)@, final(parser)@, final(chunk)@),
                    #[trigger] state(old(lexer)@, old(parser)@, old(chunk)@).infix(*self, fuel),
                ),
            result is Ok ==> follows(
                state(old(lexer)@, old(parser)@, old(chunk)@),
                state(final(lexer)@, final(parser)@, final(chunk)@),
            ),
        decreases state(old(lexer)@, old(parser)@, old(chunk)@).measure(), 4nat,
    {
        let ghost before = state(lexer@, parser@, chunk@);
        let result = match self {
            InfixParselet::Binary(parselet) => parselet.parse(lexer, parser, chunk, token),
            InfixParselet::Logic(parselet) => parselet.parse(lexer, parser, chunk, token),
        };
        proof {
            assert forall|fuel: nat| fuel > before.measure() implies agrees(
                result,
                state(lexer@, parser@, chunk@),
                #[trigger] before.infix(*self, fuel),
            ) by {
                let after = state(lexer@, parser@, chunk@);
                assert(self matches InfixParselet::Binary(parselet) ==> agrees(
                    result,
                    after,
                    before.binary(parselet.precedence, fuel),
                ));
                assert(self matches InfixParselet::Logic(parselet) ==> agrees(
                    result,
                    after,
                    before.logic(parselet.precedence, fuel),
                ));
            }
        }
        result
    }
}

} // verus!
