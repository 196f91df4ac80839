//! The parser: a Pratt parser that writes bytecode while it reads.
//!
//! What it makes of a script is defined in [`super::grammar`].
use super::error::{CompilationError, CompilationFault};
use super::grammar::{compile, infix_for, infix_precedence, prefix_for, Compilation, Compiled};
use super::lexer::{Lexer, LexerState};
use super::parselets::{BinaryParselet, InfixParselet, LogicParselet, PrefixParselet};
use super::precedence::Precedence;
use super::token::{Lexeme, Token, TokenKind};
use crate::execution::chunk::{Bytecode, Chunk, Constant};
use crate::execution::op_code::OpCode;
use crate::script_enum::EnumTable;
use vstd::prelude::*;

verus! {

/// What a [`Parser`] holds, as plain values.
pub struct Lookahead {
    /// The token that is being compiled.
    pub current: Lexeme,
    /// The token behind it.
    pub next: Lexeme,
}

/// The parser.
#[derive(Debug)]
pub struct Parser {
    /// The token that is being compiled.
    current: Token,
    /// The token behind it.
    next: Token,
}

impl View for Parser {
    type V = Lookahead;

    closed spec fn view(&self) -> Lookahead {
        Lookahead { current: self.current@, next: self.next@ }
    }
}

/// The state of a compilation that a lexer, a parser and a chunk are in.
pub open spec fn state(lexer: LexerState, tokens: Lookahead, chunk: Bytecode) -> Compilation {
    Compilation { lexer, current: tokens.current, next: tokens.next, chunk }
}

/// Whether a step of the parser came out as its definition says: with the
/// state that the definition gives, or with the error that it gives.
pub open spec fn agrees(
    result: Result<(), CompilationError>,
    after: Compilation,
    expected: Compiled,
) -> bool {
    match expected {
        Ok(state) => result is Ok && after == state,
        Err(fault) => result matches Err(error) && error@ == fault,
    }
}

/// Whether the result of a compilation is what the grammar gives for the
/// script: the chunk, or the first error.
pub open spec fn compiles_to(
    result: Result<Chunk, CompilationError>,
    names: Map<Seq<char>, i8>,
    source: Seq<char>,
) -> bool {
    match compile(names, source) {
        Ok(code) => result matches Ok(chunk) && chunk@ == code,
        Err(fault) => result matches Err(error) && error@ == fault,
    }
}

/// The compilation is determined by the script and the enum values: two
/// compilations of one script, with the same enum values, fail both, with
/// the same error, or give chunks with the same code, the same lines and
/// the same constants.
pub proof fn law_deterministic(
    one: Result<Chunk, CompilationError>,
    other: Result<Chunk, CompilationError>,
    names: Map<Seq<char>, i8>,
    source: Seq<char>,
)
    requires
        compiles_to(one, names, source),
        compiles_to(other, names, source),
    ensures
        one is Ok <==> other is Ok,
        one is Ok && other is Ok ==> one->Ok_0@ == other->Ok_0@,
        one is Err && other is Err ==> one->Err_0@ == other->Err_0@,
{
}

/// Whether a step left the code at least as long as it was, and no more
/// to compile than there was.
pub open spec fn follows(before: Compilation, after: Compilation) -> bool {
    &&& after.chunk.code.len() >= before.chunk.code.len()
    &&& after.measure() <= before.measure()
}

impl Default for Parser {
    fn default() -> (parser: Parser)
        ensures
            parser@ == (Lookahead { current: Lexeme::none(), next: Lexeme::none() }),
    {
        Parser::new()
    }
}

impl Parser {
    /// A parser that has read nothing yet.
    pub fn new() -> (parser: Parser)
        ensures
            parser@ == (Lookahead { current: Lexeme::none(), next: Lexeme::none() }),
    {
        Parser { current: Token::none(), next: Token::none() }
    }

    /// The handler for a token at the start of an expression.
    pub fn prefix_parselet(kind: TokenKind) -> (parselet: Option<PrefixParselet>)
        ensures
            parselet == prefix_for(kind),
    {
        match kind {
            TokenKind::Bang | TokenKind::Minus | TokenKind::Plus | TokenKind::Tilde => Some(
                PrefixParselet::Unary,
            ),
            TokenKind::Enum
            | TokenKind::HexNumber
            | TokenKind::IntNumber
            | TokenKind::FloatNumber
            | TokenKind::String => Some(PrefixParselet::Value),
            TokenKind::False | TokenKind::Nil | TokenKind::True => Some(PrefixParselet::Literal),
            TokenKind::Ident => Some(PrefixParselet::Assignment),
            TokenKind::LeftParen => Some(PrefixParselet::Grouping),
            _ => None,
        }
    }

    /// The handler for a token behind an expression.
    pub fn infix_parselet(kind: TokenKind) -> (parselet: Option<InfixParselet>)
        ensures
            parselet == infix_for(kind),
    {
        match kind {
            TokenKind::Ampersand => Some(
                InfixParselet::Logic(LogicParselet::new(Precedence::BitAnd)),
            ),
            TokenKind::And => Some(InfixParselet::Logic(LogicParselet::new(Precedence::And))),
            TokenKind::BangEqual | TokenKind::EqualEqual => Some(
                InfixParselet::Binary(BinaryParselet::new(Precedence::Equality)),
            ),
            TokenKind::Caret => Some(InfixParselet::Logic(LogicParselet::new(Precedence::BitXor))),
            TokenKind::Greater
            | TokenKind::GreaterEqual
            | TokenKind::Less
            | TokenKind::LessEqual => Some(
                InfixParselet::Binary(BinaryParselet::new(Precedence::Comparison)),
            ),
            TokenKind::Minus | TokenKind::Plus => Some(
                InfixParselet::Binary(BinaryParselet::new(Precedence::Term)),
            ),
            TokenKind::Or => Some(InfixParselet::Logic(LogicParselet::new(Precedence::Or))),
            TokenKind::Pipe => Some(InfixParselet::Logic(LogicParselet::new(Precedence::BitOr))),
            TokenKind::QMark => Some(
                InfixParselet::Logic(LogicParselet::new(Precedence::Ternary)),
            ),
            TokenKind::Slash | TokenKind::Star => Some(
                InfixParselet::Binary(BinaryParselet::new(Precedence::Factor)),
            ),
            _ => None,
        }
    }

    /// Compiles a script: the chunk that the grammar gives for it, or the
    /// first error in it.
    pub fn parse(&mut self, enums: &EnumTable, source_code: &str) -> (result: Result<
        Chunk,
        CompilationError,
    >)
        ensures
            compiles_to(result, enums@, source_code@),
    {
        let mut chunk = Chunk::default();
        let mut lexer = Lexer::new(enums, source_code);
        self.current = Token::none();
        self.next = Token::none();
        let ghost start = state(lexer@, self@, chunk@);
        assert(start == Compilation::start(enums@, source_code@));
        match self.advance(&mut lexer) {
            Err(error) => {
                assert(agrees(Err(error), state(lexer@, self@, chunk@), start.advance()));
                return Err(error);
            },
            Ok(()) => {},
        }
        let ghost first = state(lexer@, self@, chunk@);
        assert(agrees(Ok(()), first, start.advance()));
        match self.statements(&mut lexer, &mut chunk) {
            Err(error) => {
                return Err(error);
            },
            Ok(()) => {},
        }
        let ghost end = state(lexer@, self@, chunk@);
        self.emit_byte(OpCode::Return.byte(), &mut chunk);
        assert(state(lexer@, self@, chunk@) == end.emit(OpCode::Return));
        chunk.finalize();
        Ok(chunk)
    }

    /// Compiles the statements of a script up to its end.
    fn statements(&mut self, lexer: &mut Lexer, chunk: &mut Chunk) -> (result: Result<
        (),
        CompilationError,
    >)
        ensures
            agrees(
                result,
                state(final(lexer)@, final(self)@, final(chunk)@),
                state(old(lexer)@, old(self)@, old(chunk)@).statements(
                    state(old(lexer)@, old(self)@, old(chunk)@).measure() + 2,
                ),
            ),
    {
        let ghost first = state(lexer@, self@, chunk@);
        let ghost fuel = first.measure() + 2;
        let ghost mut done: nat = 0;
        while !self.check_next(TokenKind::EndOfInput)
            invariant
                first == state(old(lexer)@, old(self)@, old(chunk)@),
                fuel == first.measure() + 2,
                state(lexer@, self@, chunk@).measure() + done <= first.measure(),
                first.statements(fuel) == state(lexer@, self@, chunk@).statements(
                    (fuel - done) as nat,
                ),
            decreases state(lexer@, self@, chunk@).measure(),
        {
            let ghost here = state(lexer@, self@, chunk@);
            assert((fuel - done) as nat != 0);
            match self.statement(lexer, chunk) {
                Err(error) => {
                    assert(agrees(
                        Err(error),
                        state(lexer@, self@, chunk@),
                        here.statement((fuel - done - 1) as nat),
                    ));
                    assert(here.statements((fuel - done) as nat) is Err);
                    return Err(error);
                },
                Ok(()) => {
                    assert(agrees(
                        Ok(()),
                        state(lexer@, self@, chunk@),
                        here.statement((fuel - done - 1) as nat),
                    ));
                    assert(here.statements((fuel - done) as nat) == state(
                        lexer@,
                        self@,
                        chunk@,
                    ).statements((fuel - done - 1) as nat));
                },
            }
            proof {
                done = done + 1;
            }
        }
        Ok(())
    }

    /// The token that is being compiled.
    pub fn current(&self) -> (token: Token)
        ensures
            token@ == self@.current,
    {
        self.current.clone()
    }

    /// The token behind the current one.
    pub fn next(&self) -> (token: Token)
        ensures
            token@ == self@.next,
    {
        self.next.clone()
    }

    /// Goes on to the next token.
    pub fn advance(&mut self, lexer: &mut Lexer) -> (result: Result<(), CompilationError>)
        ensures
            forall|chunk: Bytecode|
                agrees(
                    result,
                    state(final(lexer)@, final(self)@, chunk),
                    #[trigger] state(old(lexer)@, old(self)@, chunk).advance(),
                ),
            result is Ok ==> {
                &&& final(self)@.current == old(self)@.next
                &&& final(lexer)@.rest() <= old(lexer)@.rest()
                &&& final(self)@.next.kind != TokenKind::EndOfInput ==> final(lexer)@.rest() < old(
                    lexer,
                )@.rest()
                &&& final(lexer)@.names == old(lexer)@.names
            },
    {
        let item = lexer.next();
        match item {
            Some(Ok(token)) => {
                let mut next = token;
                core::mem::swap(&mut self.next, &mut next);
                self.current = next;
                Ok(())
            },
            Some(Err(error)) => Err(error),
            None => {
                let mut next = Token::none();
                core::mem::swap(&mut self.next, &mut next);
                self.current = next;
                Ok(())
            },
        }
    }

    /// Goes on to the next token, which has to be of the given kind.
    pub fn consume(&mut self, lexer: &mut Lexer, expected: TokenKind) -> (result: Result<
        (),
        CompilationError,
    >)
        ensures
            forall|chunk: Bytecode|
                agrees(
                    result,
                    state(final(lexer)@, final(self)@, chunk),
                    #[trigger] state(old(lexer)@, old(self)@, chunk).consume(expected),
                ),
            result is Ok ==> {
                &&& final(self)@.current == old(self)@.next
                &&& final(lexer)@.rest() <= old(lexer)@.rest()
                &&& final(self)@.next.kind != TokenKind::EndOfInput ==> final(lexer)@.rest() < old(
                    lexer,
                )@.rest()
                &&& final(lexer)@.names == old(lexer)@.names
            },
    {
        if self.next.kind == expected {
            self.advance(lexer)
        } else {
            Err(
                CompilationError::TokenExpected {
                    expected: expected.to_string(),
                    found: self.next.kind.to_string(),
                    pos: self.next.line,
                },
            )
        }
    }

    /// Whether the next token is of the given kind.
    pub fn check_next(&self, kind: TokenKind) -> (yes: bool)
        ensures
            yes == (self@.next.kind == kind),
    {
        self.next.kind == kind
    }

    /// Writes a byte, which comes from the line of the current token.
    pub fn emit_byte(&self, byte: u8, chunk: &mut Chunk)
        ensures
            forall|lexer: LexerState|
                state(lexer, self@, final(chunk)@) == #[trigger] state(
                    lexer,
                    self@,
                    old(chunk)@,
                ).emit_byte(byte),
            final(chunk)@ == old(chunk)@.write(byte, self@.current.line as usize),
    {
        chunk.write(byte, self.current.line);
    }

    /// Writes two bytes, which come from the line of the current token.
    pub fn emit_bytes(&self, byte1: u8, byte2: u8, chunk: &mut Chunk)
        ensures
            forall|lexer: LexerState|
                state(lexer, self@, final(chunk)@) == #[trigger] state(
                    lexer,
                    self@,
                    old(chunk)@,
                ).emit_byte(byte1).emit_byte(byte2),
            final(chunk)@ == old(chunk)@.write(byte1, self@.current.line as usize).write(
                byte2,
                self@.current.line as usize,
            ),
    {
        chunk.write(byte1, self.current.line);
        chunk.write(byte2, self.current.line);
    }

    /// Adds a constant and writes the instruction that names it; hands
    /// back the place of the constant.
    pub fn emit_constant(&self, op: OpCode, constant: Constant, chunk: &mut Chunk) -> (result: Result<
        u8,
        CompilationError,
    >)
        ensures
            forall|lexer: LexerState|
                match #[trigger] state(lexer, self@, old(chunk)@).emit_constant(op, constant@) {
                    Ok(after) => result is Ok && state(lexer, self@, final(chunk)@) == after,
                    Err(fault) => result matches Err(error) && error@ == fault,
                },
            result matches Ok(place) ==> place == old(chunk)@.constants.len(),
            final(chunk)@.code.len() >= old(chunk)@.code.len(),
    {
        match chunk.add(constant) {
            Ok(place) => {
                self.emit_bytes(op.byte(), place, chunk);
                Ok(place)
            },
            Err(error) => Err(error),
        }
    }

    /// Writes a jump whose target is not known yet, and hands back the
    /// place of its operand.
    pub fn emit_jump(&self, instruction: OpCode, chunk: &mut Chunk) -> (operand: usize)
        ensures
            forall|lexer: LexerState|
                state(lexer, self@, final(chunk)@) == #[trigger] state(
                    lexer,
                    self@,
                    old(chunk)@,
                ).emit_jump(instruction),
            operand == old(chunk)@.code.len() + 1,
            final(chunk)@.code.len() == old(chunk)@.code.len() + 3,
    {
        chunk.write(instruction.byte(), self.current.line);
        let operand = chunk.len();
        chunk.write(0xFF, self.current.line);
        chunk.write(0xFF, self.current.line);
        operand
    }

    /// Makes the jump whose operand stands at `patch_pos` lead to the end
    /// of the code.
    pub fn patch_jump(patch_pos: usize, chunk: &mut Chunk)
        requires
            patch_pos + 1 < old(chunk)@.code.len(),
        ensures
            forall|lexer: LexerState, tokens: Lookahead|
                state(lexer, tokens, final(chunk)@) == #[trigger] state(
                    lexer,
                    tokens,
                    old(chunk)@,
                ).patch_jump(patch_pos as int),
            final(chunk)@.code.len() == old(chunk)@.code.len(),
    {
        let target = chunk.len();
        let byte1 = ((target / 256) % 256) as u8;
        let byte2 = (target % 256) as u8;
        chunk.patch(byte1, patch_pos);
        chunk.patch(byte2, patch_pos + 1);
    }

    /// Compiles a statement.
    pub fn statement(&mut self, lexer: &mut Lexer, chunk: &mut Chunk) -> (result: Result<
        (),
        CompilationError,
    >)
        ensures
            forall|fuel: nat|
                fuel > state(old(lexer)@, old(self)@, old(chunk)@).measure() ==> agrees(
                    result,
                    state(final(lexer)@, final(self)@, final(chunk)@),
                    #[trigger] state(old(lexer)@, old(self)@, old(chunk)@).statement(fuel),
                ),
            result is Ok ==> state(final(lexer)@, final(self)@, final(chunk)@).measure() < state(
                old(lexer)@,
                old(self)@,
                old(chunk)@,
            ).measure(),
    {
        let ghost before = state(lexer@, self@, chunk@);
        if self.next.kind == TokenKind::Print {
            match self.advance(lexer) {
                Err(error) => {
                    return Err(error);
                },
                Ok(()) => {},
            }
            let ghost keyword = state(lexer@, self@, chunk@);
            match self.rest_of_statement(lexer, chunk) {
                Err(error) => {
                    return Err(error);
                },
                Ok(()) => {},
            }
            self.emit_byte(OpCode::Print.byte(), chunk);
            Ok(())
        } else {
            self.rest_of_statement(lexer, chunk)
        }
    }

    /// Compiles the expression of a statement, and its end.
    fn rest_of_statement(&mut self, lexer: &mut Lexer, chunk: &mut Chunk) -> (result: Result<
        (),
        CompilationError,
    >)
        ensures
            forall|fuel: nat|
                fuel > state(old(lexer)@, old(self)@, old(chunk)@).measure() ==> agrees(
                    result,
                    state(final(lexer)@, final(self)@, final(chunk)@),
                    #[trigger] state(old(lexer)@, old(self)@, old(chunk)@).rest_of_statement(fuel),
                ),
            result is Ok ==> state(final(lexer)@, final(self)@, final(chunk)@).measure() < state(
                old(lexer)@,
                old(self)@,
                old(chunk)@,
            ).measure(),
    {
        match self.expression(lexer, chunk) {
            Err(error) => {
                return Err(error);
            },
            Ok(()) => {},
        }
        if !self.check_next(TokenKind::EndOfInput) {
            self.consume(lexer, TokenKind::Semicolon)
        } else {
            Ok(())
        }
    }

    /// Compiles an expression.
    pub fn expression(&mut self, lexer: &mut Lexer, chunk: &mut Chunk) -> (result: Result<
        (),
        CompilationError,
    >)
        ensures
            forall|fuel: nat|
                fuel > state(old(lexer)@, old(self)@, old(chunk)@).measure() ==> agrees(
                    result,
                    state(final(lexer)@, final(self)@, final(chunk)@),
                    #[trigger] state(old(lexer)@, old(self)@, old(chunk)@).with_precedence(
                        Precedence::Assignment,
                        fuel,
                    ),
                ),
            result is Ok ==> {
                &&& state(final(lexer)@, final(self)@, final(chunk)@).measure() < state(
                    old(lexer)@,
                    old(self)@,
                    old(chunk)@,
                ).measure()
                &&& final(chunk)@.code.len() >= old(chunk)@.code.len()
            },
        decreases state(old(lexer)@, old(self)@, old(chunk)@).measure(), 1nat,
    {
        self.with_precedence(lexer, Precedence::Assignment, chunk)
    }

    /// Compiles an expression whose operators bind at least as tightly as
    /// `precedence`.
    pub fn with_precedence(
        &mut self,
        lexer: &mut Lexer,
        precedence: Precedence,
        chunk: &mut Chunk,
    ) -> (result: Result<(), CompilationError>)
        ensures
            forall|fuel: nat|
                fuel > state(old(lexer)@, old(self)@, old(chunk)@).measure() ==> agrees(
                    result,
                    state(final(lexer)@, final(self)@, final(chunk)@),
                    #[trigger] state(old(lexer)@, old(self)@, old(chunk)@).with_precedence(
                        precedence,
                        fuel,
                    ),
                ),
            result is Ok ==> {
                &&& state(final(lexer)@, final(self)@, final(chunk)@).measure() < state(
                    old(lexer)@,
                    old(self)@,
                    old(chunk)@,
                ).measure()
                &&& final(chunk)@.code.len() >= old(chunk)@.code.len()
            },
        decreases state(old(lexer)@, old(self)@, old(chunk)@).measure(), 0nat,
    {
        let ghost before = state(lexer@, self@, chunk@);
        match self.advance(lexer) {
            Err(error) => {
                assert(agrees(Err(error), state(lexer@, self@, chunk@), before.advance()));
                return Err(error);
            },
            Ok(()) => {},
        }
        let ghost first = state(lexer@, self@, chunk@);
        assert(agrees(Ok(()), first, before.advance()));
        let token = self.current();
        match Parser::prefix_parselet(token.kind) {
            None => {
                return Err(
                    CompilationError::ExpressionExpected { token: token.origin, pos: token.line },
                );
            },
            Some(parselet) => {
                assert(first.measure() < before.measure());
                match parselet.parse(lexer, self, chunk, token) {
                    Err(error) => {
                        assert forall|fuel: nat| fuel > before.measure() implies agrees(
                            Err(error),
                            state(lexer@, self@, chunk@),
                            #[trigger] before.with_precedence(precedence, fuel),
                        ) by {
                            assert(agrees(
                                Err(error),
                                state(lexer@, self@, chunk@),
                                first.prefix(parselet, (fuel - 1) as nat),
                            ));
                        }
                        return Err(error);
                    },
                    Ok(()) => {
                        assert forall|fuel: nat| fuel > before.measure() implies (
                        #[trigger] before.with_precedence(precedence, fuel)) == state(
                            lexer@,
                            self@,
                            chunk@,
                        ).infix_loop(precedence, (fuel - 1) as nat) by {
                            assert(agrees(
                                Ok(()),
                                state(lexer@, self@, chunk@),
                                first.prefix(parselet, (fuel - 1) as nat),
                            ));
                        }
                    },
                }
            },
        }
        let ghost mut done: nat = 0;
        loop
            invariant_except_break
                state(lexer@, self@, chunk@).measure() + done < before.measure(),
                forall|fuel: nat|
                    fuel > before.measure() ==> #[trigger] before.with_precedence(precedence, fuel)
                        == state(lexer@, self@, chunk@).infix_loop(
                        precedence,
                        (fuel - 1 - done) as nat,
                    ),
            invariant
                before == state(old(lexer)@, old(self)@, old(chunk)@),
                chunk@.code.len() >= before.chunk.code.len(),
            ensures
                forall|fuel: nat|
                    fuel > before.measure() ==> agrees(
                        Ok(()),
                        state(lexer@, self@, chunk@),
                        #[trigger] before.with_precedence(precedence, fuel),
                    ),
                state(lexer@, self@, chunk@).measure() < before.measure(),
                chunk@.code.len() >= before.chunk.code.len(),
            decreases state(lexer@, self@, chunk@).measure(),
        {
            let ghost here = state(lexer@, self@, chunk@);
            if !(precedence.rank() <= self.get_precedence().rank()) {
                assert forall|fuel: nat| fuel > before.measure() implies agrees(
                    Ok(()),
                    here,
                    #[trigger] before.with_precedence(precedence, fuel),
                ) by {
                    assert(here.infix_loop(precedence, (fuel - 1 - done) as nat) == Ok::<
                        Compilation,
                        CompilationFault,
                    >(here));
                }
                break ;
            }
            match self.advance(lexer) {
                Err(error) => {
                    assert(agrees(Err(error), state(lexer@, self@, chunk@), here.advance()));
                    assert forall|fuel: nat| fuel > before.measure() implies agrees(
                        Err(error),
                        state(lexer@, self@, chunk@),
                        #[trigger] before.with_precedence(precedence, fuel),
                    ) by {
                        assert((fuel - 1 - done) as nat != 0);
                        assert(here.infix_loop(precedence, (fuel - 1 - done) as nat) is Err);
                    }
                    return Err(error);
                },
                Ok(()) => {},
            }
            let ghost operator = state(lexer@, self@, chunk@);
            assert(agrees(Ok(()), operator, here.advance()));
            let token = self.current();
            match Parser::infix_parselet(token.kind) {
                None => {
                    assert forall|fuel: nat| fuel > before.measure() implies agrees(
                        Ok(()),
                        operator,
                        #[trigger] before.with_precedence(precedence, fuel),
                    ) by {
                        assert((fuel - 1 - done) as nat != 0);
                        assert(here.infix_loop(precedence, (fuel - 1 - done) as nat) == Ok::<
                            Compilation,
                            CompilationFault,
                        >(operator));
                    }
                    assert(operator.measure() <= here.measure());
                    break ;
                },
                Some(parselet) => {
                    assert(operator.measure() < here.measure());
                    match parselet.parse(lexer, self, chunk, token) {
                        Err(error) => {
                            assert forall|fuel: nat| fuel > before.measure() implies agrees(
                                Err(error),
                                state(lexer@, self@, chunk@),
                                #[trigger] before.with_precedence(precedence, fuel),
                            ) by {
                                assert((fuel - 1 - done) as nat != 0);
                                assert(agrees(
                                    Err(error),
                                    state(lexer@, self@, chunk@),
                                    operator.infix(parselet, (fuel - 2 - done) as nat),
                                ));
                                assert(here.infix_loop(precedence, (fuel - 1 - done) as nat)
                                    is Err);
                            }
                            return Err(error);
                        },
                        Ok(()) => {
                            assert forall|fuel: nat| fuel > before.measure() implies (
                            #[trigger] before.with_precedence(precedence, fuel)) == state(
                                lexer@,
                                self@,
                                chunk@,
                            ).infix_loop(precedence, (fuel - 2 - done) as nat) by {
                                assert((fuel - 1 - done) as nat != 0);
                                assert(agrees(
                                    Ok(()),
                                    state(lexer@, self@, chunk@),
                                    operator.infix(parselet, (fuel - 2 - done) as nat),
                                ));
                                assert(here.infix_loop(precedence, (fuel - 1 - done) as nat)
                                    == state(lexer@, self@, chunk@).infix_loop(
                                    precedence,
                                    (fuel - 2 - done) as nat,
                                ));
                            }
                        },
                    }
                },
            }
            proof {
                done = done + 1;
            }
        }
        Ok(())
    }

    /// How tightly the next token binds.
    pub fn get_precedence(&self) -> (precedence: Precedence)
        ensures
            precedence == infix_precedence(self@.next.kind),
    {
        match Parser::infix_parselet(self.next.kind) {
            Some(InfixParselet::Binary(parselet)) => parselet.get_precedence(),
            Some(InfixParselet::Logic(parselet)) => parselet.get_precedence(),
            None => Precedence::Lowest,
        }
    }
}

} // verus!
