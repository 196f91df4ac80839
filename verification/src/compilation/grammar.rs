//! What the compiler makes of a script: the definition that the parser is
//! proved against.
//!
//! ```text
//! script      → statement* EoF
//! statement   → ("print")? expression ";"?
//! expression  → assignment
//! assignment  → IDENT (":=" | "=" | "+=" | "-=" | "*=" | "/=") expression | ternary
//! ternary     → logic_or ("?" expression ":" expression)?
//! logic_or    → logic_and ("||" logic_and)*
//! logic_and   → bit_or  ("&&" bit_or)*
//! bit_or      → bit_xor ("|"  bit_xor)*
//! bit_xor     → bit_and ("^"  bit_and)*
//! bit_and     → equality ("&" equality)*
//! equality    → comparison (("==" | "!=") comparison)*
//! comparison  → term (("<"|"<="|">"|">=") term)*
//! term        → factor (("+"|"-") factor)*
//! factor      → unary  (("*"|"/") unary)*
//! unary       → ("!" | "-" | "+" | "~") unary | primary
//! primary     → "true"|"false"|"nil"|FLOAT|INT|HEX|STRING|IDENT|ENUM|"(" expression ")"
//! ```
//!
//! The compiler reads the tokens one by one and writes the bytecode as it
//! goes. Its state is a [`Compilation`]; each function here says what a
//! part of the parser makes of a state. The first error ends the
//! compilation.
use super::error::CompilationFault;
use super::lexer::LexerState;
use super::parselets::{BinaryParselet, InfixParselet, LogicParselet, PrefixParselet};
use super::precedence::Precedence;
use super::token::{Lexeme, TokenKind};
use crate::execution::chunk::{Bytecode, ConstantView};
use crate::execution::op_code::OpCode;
use crate::scripting_value::Value;
use crate::text::{is_decimal_i64, is_hex_i64, number_value};
use vstd::prelude::*;

verus! {

/// The state of a compilation.
pub struct Compilation {
    /// Where the lexer stands.
    pub lexer: LexerState,
    /// The token that is being compiled.
    pub current: Lexeme,
    /// The token behind it.
    pub next: Lexeme,
    /// What is written so far.
    pub chunk: Bytecode,
}

/// The outcome of a part of the compilation: the state to go on with, or
/// the error that ends it.
pub type Compiled = Result<Compilation, CompilationFault>;

/// The handler for a token at the start of an expression.
pub open spec fn prefix_for(kind: TokenKind) -> Option<PrefixParselet> {
    match kind {
        TokenKind::Bang | TokenKind::Minus | TokenKind::Plus | TokenKind::Tilde => Some(
            PrefixParselet::Unary,
        ),
        TokenKind::Enum
        | TokenKind::HexNumber
        | TokenKind::IntNumber
        | TokenKind::FloatNumber
        | TokenKind::String => Some(PrefixParselet::Value),
        TokenKind::False | TokenKind::Nil | TokenKind::True => Some(PrefixParselet::Literal),
        TokenKind::Ident => Some(PrefixParselet::Assignment),
        TokenKind::LeftParen => Some(PrefixParselet::Grouping),
        _ => None,
    }
}

/// The handler for a token behind an expression.
pub open spec fn infix_for(kind: TokenKind) -> Option<InfixParselet> {
    match kind {
        TokenKind::Ampersand => Some(
            InfixParselet::Logic(LogicParselet { precedence: Precedence::BitAnd }),
        ),
        TokenKind::And => Some(InfixParselet::Logic(LogicParselet { precedence: Precedence::And })),
        TokenKind::BangEqual | TokenKind::EqualEqual => Some(
            InfixParselet::Binary(BinaryParselet { precedence: Precedence::Equality }),
        ),
        TokenKind::Caret => Some(
            InfixParselet::Logic(LogicParselet { precedence: Precedence::BitXor }),
        ),
        TokenKind::Greater | TokenKind::GreaterEqual | TokenKind::Less | TokenKind::LessEqual => Some(
            InfixParselet::Binary(BinaryParselet { precedence: Precedence::Comparison }),
        ),
        TokenKind::Minus | TokenKind::Plus => Some(
            InfixParselet::Binary(BinaryParselet { precedence: Precedence::Term }),
        ),
        TokenKind::Or => Some(InfixParselet::Logic(LogicParselet { precedence: Precedence::Or })),
        TokenKind::Pipe => Some(
            InfixParselet::Logic(LogicParselet { precedence: Precedence::BitOr }),
        ),
        TokenKind::QMark => Some(
            InfixParselet::Logic(LogicParselet { precedence: Precedence::Ternary }),
        ),
        TokenKind::Slash | TokenKind::Star => Some(
            InfixParselet::Binary(BinaryParselet { precedence: Precedence::Factor }),
        ),
        _ => None,
    }
}

/// How tightly a token binds what stands before it to what stands behind
/// it: the lowest level for a token that binds nothing.
pub open spec fn infix_precedence(kind: TokenKind) -> Precedence {
    match infix_for(kind) {
        Some(InfixParselet::Binary(parselet)) => parselet.precedence,
        Some(InfixParselet::Logic(parselet)) => parselet.precedence,
        None => Precedence::Lowest,
    }
}

/// The next tighter level; the tightest level stays.
pub open spec fn higher(precedence: Precedence) -> Precedence {
    match precedence {
        Precedence::Lowest => Precedence::Assignment,
        Precedence::Assignment => Precedence::Ternary,
        Precedence::Ternary => Precedence::Or,
        Precedence::Or => Precedence::And,
        Precedence::And => Precedence::BitOr,
        Precedence::BitOr => Precedence::BitXor,
        Precedence::BitXor => Precedence::BitAnd,
        Precedence::BitAnd => Precedence::Equality,
        Precedence::Equality => Precedence::Comparison,
        Precedence::Comparison => Precedence::Term,
        Precedence::Term => Precedence::Factor,
        Precedence::Factor => Precedence::Unary,
        Precedence::Unary => Precedence::Primary,
        Precedence::Primary => Precedence::Primary,
    }
}

/// The error for a state that no script leads into.
pub open spec fn unreachable(file: Seq<char>) -> CompilationFault {
    CompilationFault::Unreachable { file, line: 0 }
}

/// A hexadecimal number without its leading `0x`.
pub open spec fn hex_digits(origin: Seq<char>) -> Seq<char> {
    if origin.len() >= 2 && origin[0] == '0' && origin[1] == 'x' {
        origin.skip(2)
    } else {
        origin
    }
}

impl Compilation {
    /// The state before the first token of a script is read.
    pub open spec fn start(names: Map<Seq<char>, i8>, source: Seq<char>) -> Compilation {
        Compilation {
            lexer: LexerState { source, names, index: 0, line: 1 },
            current: Lexeme::none(),
            next: Lexeme::none(),
            chunk: Bytecode::empty(),
        }
    }

    /// How much is left to compile: the characters that are not read yet,
    /// and the token that is read and not compiled.
    pub open spec fn measure(self) -> nat {
        self.lexer.rest() + if self.next.kind == TokenKind::EndOfInput {
            0nat
        } else {
            1nat
        }
    }

    /// Goes on to the next token.
    pub open spec fn advance(self) -> Compiled {
        match self.lexer.scan().item {
            None => Ok(
                Compilation {
                    lexer: self.lexer.after(),
                    current: self.next,
                    next: Lexeme::none(),
                    ..self
                },
            ),
            Some(Ok(token)) => Ok(
                Compilation { lexer: self.lexer.after(), current: self.next, next: token, ..self },
            ),
            Some(Err(error)) => Err(error),
        }
    }

    /// Goes on to the next token, which has to be of the given kind.
    pub open spec fn consume(self, expected: TokenKind) -> Compiled {
        if self.next.kind == expected {
            self.advance()
        } else {
            Err(
                CompilationFault::TokenExpected {
                    expected: expected.text(),
                    found: self.next.kind.text(),
                    pos: self.next.line,
                },
            )
        }
    }

    /// Writes a byte, which comes from the line of the current token.
    pub open spec fn emit_byte(self, byte: u8) -> Compilation {
        Compilation { chunk: self.chunk.write(byte, self.current.line as usize), ..self }
    }

    /// Writes an instruction.
    pub open spec fn emit(self, op: OpCode) -> Compilation {
        self.emit_byte(op.code())
    }

    /// Writes an instruction with its operand.
    pub open spec fn emit_with(self, op: OpCode, operand: u8) -> Compilation {
        self.emit_byte(op.code()).emit_byte(operand)
    }

    /// Writes a jump whose target is not known yet: its two operand bytes
    /// stand at [`Compilation::jump_operand`] of the state before.
    pub open spec fn emit_jump(self, op: OpCode) -> Compilation {
        self.emit(op).emit_byte(0xFF).emit_byte(0xFF)
    }

    /// Where the operand of a jump stands that is written next.
    pub open spec fn jump_operand(self) -> int {
        self.chunk.code.len() as int + 1
    }

    /// Makes the jump whose operand stands at `pos` lead to the end of the
    /// code: the operand is the place in two bytes, the first of them
    /// counting 256 times.
    pub open spec fn patch_jump(self, pos: int) -> Compilation {
        let target = self.chunk.code.len();
        Compilation {
            chunk: self.chunk.patch(((target / 256) % 256) as u8, pos).patch(
                (target % 256) as u8,
                pos + 1,
            ),
            ..self
        }
    }

    /// Adds a constant and writes the instruction that names it.
    pub open spec fn emit_constant(self, op: OpCode, constant: ConstantView) -> Compiled {
        if self.chunk.has_room() {
            Ok(
                Compilation { chunk: self.chunk.add(constant), ..self }.emit_with(
                    op,
                    self.chunk.constants.len() as u8,
                ),
            )
        } else {
            Err(CompilationFault::ConstantStorageOverflow)
        }
    }

    /// Compiles an expression whose operators bind at least as tightly as
    /// `precedence`: what the handler of its first token makes of it, and
    /// then, as long as an operator of such a level follows, what the
    /// handler of that operator makes of it.
    ///
    /// `fuel` bounds the depth of the definition. More than
    /// [`Compilation::measure`] is enough: then the result does not depend
    /// on it, as [`super::grammar_laws::law_fuel`] shows.
    pub open spec fn with_precedence(self, precedence: Precedence, fuel: nat) -> Compiled
        decreases fuel, 0nat,
    {
        if fuel == 0 {
            Err(unreachable("Parser"@))
        } else {
            match self.advance() {
                Err(error) => Err(error),
                Ok(first) => match prefix_for(first.current.kind) {
                    None => Err(
                        CompilationFault::ExpressionExpected {
                            token: first.current.origin,
                            pos: first.current.line,
                        },
                    ),
                    Some(parselet) => match first.prefix(parselet, (fuel - 1) as nat) {
                        Err(error) => Err(error),
                        Ok(operand) => operand.infix_loop(precedence, (fuel - 1) as nat),
                    },
                },
            }
        }
    }

    /// Compiles the operators of at least the level `precedence` that
    /// follow an operand, each with its right-hand side.
    pub open spec fn infix_loop(self, precedence: Precedence, fuel: nat) -> Compiled
        decreases fuel, 0nat,
    {
        if precedence.level() <= infix_precedence(self.next.kind).level() {
            if fuel == 0 {
                Err(unreachable("Parser"@))
            } else {
                match self.advance() {
                    Err(error) => Err(error),
                    Ok(operator) => match infix_for(operator.current.kind) {
                        None => Ok(operator),
                        Some(parselet) => match operator.infix(parselet, (fuel - 1) as nat) {
                            Err(error) => Err(error),
                            Ok(operand) => operand.infix_loop(precedence, (fuel - 1) as nat),
                        },
                    },
                }
            }
        } else {
            Ok(self)
        }
    }

    /// Compiles an expression.
    pub open spec fn expression(self, fuel: nat) -> Compiled
        decreases fuel, 1nat,
    {
        self.with_precedence(Precedence::Assignment, fuel)
    }

    /// What the handler of the first token of an expression makes of it.
    pub open spec fn prefix(self, parselet: PrefixParselet, fuel: nat) -> Compiled
        decreases fuel, 3nat,
    {
        match parselet {
            PrefixParselet::Assignment => self.assignment(fuel),
            PrefixParselet::Grouping => self.grouping(fuel),
            PrefixParselet::Literal => self.literal(),
            PrefixParselet::Unary => self.unary(fuel),
            PrefixParselet::Value => self.value(),
        }
    }

    /// What the handler of an operator makes of it and of its right-hand
    /// side.
    pub open spec fn infix(self, parselet: InfixParselet, fuel: nat) -> Compiled
        decreases fuel, 3nat,
    {
        match parselet {
            InfixParselet::Binary(binary) => self.binary(binary.precedence, fuel),
            InfixParselet::Logic(logic) => self.logic(logic.precedence, fuel),
        }
    }

    /// An identifier: a variable that is read, or, where an assignment
    /// operator follows, written.
    ///
    /// `name := e` compiles `e` and defines the variable; `name = e`
    /// compiles `e` and sets it; `name += e` reads the variable, compiles
    /// `e`, adds and sets it, and so for `-=`, `*=` and `/=`.
    pub open spec fn assignment(self, fuel: nat) -> Compiled
        decreases fuel, 2nat,
    {
        let name = ConstantView::Value(Value::String(self.current.origin));
        match self.next.kind {
            TokenKind::ColonEqual => self.store(OpCode::DefineExternal, name, fuel),
            TokenKind::Equal => self.store(OpCode::SetExternal, name, fuel),
            TokenKind::PlusEqual => self.update(OpCode::Add, name, fuel),
            TokenKind::MinusEqual => self.update(OpCode::Subtract, name, fuel),
            TokenKind::StarEqual => self.update(OpCode::Multiply, name, fuel),
            TokenKind::SlashEqual => self.update(OpCode::Divide, name, fuel),
            _ => self.emit_constant(OpCode::GetExternal, name),
        }
    }

    /// `name := e` and `name = e`: the value of `e`, then the instruction
    /// that stores it under the name.
    pub open spec fn store(self, op: OpCode, name: ConstantView, fuel: nat) -> Compiled
        decreases fuel, 1nat,
    {
        match self.advance() {
            Err(error) => Err(error),
            Ok(operator) => match operator.with_precedence(Precedence::Assignment, fuel) {
                Err(error) => Err(error),
                Ok(value) => value.emit_constant(op, name),
            },
        }
    }

    /// `name += e` and its like: the variable is read, `e` is compiled, the
    /// operation follows, and the result is set.
    pub open spec fn update(self, op: OpCode, name: ConstantView, fuel: nat) -> Compiled
        decreases fuel, 1nat,
    {
        match self.emit_constant(OpCode::GetExternal, name) {
            Err(error) => Err(error),
            Ok(read) => match read.advance() {
                Err(error) => Err(error),
                Ok(operator) => match operator.with_precedence(Precedence::Assignment, fuel) {
                    Err(error) => Err(error),
                    Ok(value) => Ok(
                        value.emit(op).emit_with(
                            OpCode::SetExternal,
                            self.chunk.constants.len() as u8,
                        ),
                    ),
                },
            },
        }
    }

    /// `( e )`.
    pub open spec fn grouping(self, fuel: nat) -> Compiled
        decreases fuel, 1nat,
    {
        match self.with_precedence(Precedence::Assignment, fuel) {
            Err(error) => Err(error),
            Ok(inner) => inner.consume(TokenKind::RightParen),
        }
    }

    /// `true`, `false` and `nil`: the instruction that pushes the value.
    pub open spec fn literal(self) -> Compiled {
        match self.current.kind {
            TokenKind::False => Ok(self.emit(OpCode::False)),
            TokenKind::Nil => Ok(self.emit(OpCode::Nil)),
            TokenKind::True => Ok(self.emit(OpCode::True)),
            _ => Err(unreachable("LiteralParselet"@)),
        }
    }

    /// `! e`, `- e`, `+ e` and `~ e`: the operand, which binds as tightly
    /// as a unary operator, and then the operation; none for `+`.
    pub open spec fn unary(self, fuel: nat) -> Compiled
        decreases fuel, 1nat,
    {
        if self.next.kind == TokenKind::EndOfInput {
            Err(
                CompilationFault::ExpressionExpected {
                    token: self.next.origin,
                    pos: self.next.line,
                },
            )
        } else {
            match self.with_precedence(Precedence::Unary, fuel) {
                Err(error) => Err(error),
                Ok(operand) => match self.current.kind {
                    TokenKind::Bang => Ok(operand.emit(OpCode::Not)),
                    TokenKind::Minus => Ok(operand.emit(OpCode::Negate)),
                    TokenKind::Plus => Ok(operand),
                    TokenKind::Tilde => Ok(operand.emit(OpCode::BitwiseNot)),
                    _ => Err(unreachable("UnaryParselet"@)),
                },
            }
        }
    }

    /// A number, a string or the name of an enum value: a constant, and
    /// the instruction that pushes it.
    ///
    /// An enum value stands for the number that the host registered under
    /// its name. A floating-point number is kept as it is written.
    pub open spec fn value(self) -> Compiled {
        let token = self.current;
        match token.kind {
            TokenKind::Enum => if self.lexer.names.contains_key(token.origin) {
                self.emit_constant(
                    OpCode::Constant,
                    ConstantView::Value(Value::Int64(self.lexer.names[token.origin] as i64)),
                )
            } else {
                Err(CompilationFault::EnumValNotFound { value: token.origin, pos: token.line })
            },
            TokenKind::FloatNumber => self.emit_constant(
                OpCode::Constant,
                ConstantView::Float(token.origin),
            ),
            TokenKind::HexNumber => if is_hex_i64(hex_digits(token.origin)) {
                self.emit_constant(
                    OpCode::Constant,
                    ConstantView::Value(
                        Value::Int64(number_value(hex_digits(token.origin), 16) as i64),
                    ),
                )
            } else {
                Err(
                    CompilationFault::ParseHex {
                        token: hex_digits(token.origin),
                        pos: token.line,
                    },
                )
            },
            TokenKind::IntNumber => if is_decimal_i64(token.origin) {
                self.emit_constant(
                    OpCode::Constant,
                    ConstantView::Value(Value::Int64(number_value(token.origin, 10) as i64)),
                )
            } else {
                Err(CompilationFault::ParseInt { token: token.origin, pos: token.line })
            },
            TokenKind::String => self.emit_constant(
                OpCode::Constant,
                ConstantView::Value(Value::String(token.origin)),
            ),
            _ => Err(unreachable("ValueParselet"@)),
        }
    }

    /// An operator between two operands: the right-hand side, which binds
    /// tighter than the operator, and then the operation.
    ///
    /// `!=` is the negation of `==`, `>=` that of `<`, and `<=` that of
    /// `>`.
    pub open spec fn binary(self, precedence: Precedence, fuel: nat) -> Compiled
        decreases fuel, 1nat,
    {
        match self.with_precedence(higher(precedence), fuel) {
            Err(error) => Err(error),
            Ok(right) => match self.current.kind {
                TokenKind::BangEqual => Ok(right.emit(OpCode::Equal).emit(OpCode::Not)),
                TokenKind::EqualEqual => Ok(right.emit(OpCode::Equal)),
                TokenKind::Greater => Ok(right.emit(OpCode::Greater)),
                TokenKind::GreaterEqual => Ok(right.emit(OpCode::Less).emit(OpCode::Not)),
                TokenKind::Less => Ok(right.emit(OpCode::Less)),
                TokenKind::LessEqual => Ok(right.emit(OpCode::Greater).emit(OpCode::Not)),
                TokenKind::Plus => Ok(right.emit(OpCode::Add)),
                TokenKind::Minus => Ok(right.emit(OpCode::Subtract)),
                TokenKind::Star => Ok(right.emit(OpCode::Multiply)),
                TokenKind::Slash => Ok(right.emit(OpCode::Divide)),
                _ => Err(unreachable("BinaryParselet"@)),
            },
        }
    }

    /// The bitwise operators, the logical operators and the choice.
    ///
    /// A bitwise operator is compiled as an arithmetic one. `a && b` jumps
    /// over `b` where `a` is false, and `a || b` where `a` is true; else
    /// the value of `a` is dropped and `b` decides. `c ? a : b` jumps to
    /// `b` where `c` is false; before each of `a` and `b` the value of `c`
    /// is dropped, and behind `a` a jump leads over `b`.
    pub open spec fn logic(self, precedence: Precedence, fuel: nat) -> Compiled
        decreases fuel, 2nat,
    {
        match self.current.kind {
            TokenKind::Ampersand => self.bitwise(OpCode::BitwiseAnd, precedence, fuel),
            TokenKind::Caret => self.bitwise(OpCode::BitwiseXor, precedence, fuel),
            TokenKind::Pipe => self.bitwise(OpCode::BitwiseOr, precedence, fuel),
            TokenKind::And => self.short_circuit(OpCode::JmpIfFalse, precedence, fuel),
            TokenKind::Or => self.short_circuit(OpCode::JmpIfTrue, precedence, fuel),
            TokenKind::QMark => self.ternary(fuel),
            _ => Err(unreachable("LogicParselet"@)),
        }
    }

    /// `a & b`, `a ^ b` and `a | b`.
    pub open spec fn bitwise(self, op: OpCode, precedence: Precedence, fuel: nat) -> Compiled
        decreases fuel, 1nat,
    {
        match self.with_precedence(higher(precedence), fuel) {
            Err(error) => Err(error),
            Ok(right) => Ok(right.emit(op)),
        }
    }

    /// `a && b` and `a || b`.
    pub open spec fn short_circuit(self, jump: OpCode, precedence: Precedence, fuel: nat) -> Compiled
        decreases fuel, 1nat,
    {
        match self.emit_jump(jump).emit(OpCode::Pop).with_precedence(higher(precedence), fuel) {
            Err(error) => Err(error),
            Ok(right) => Ok(right.patch_jump(self.jump_operand())),
        }
    }

    /// `c ? a : b`.
    pub open spec fn ternary(self, fuel: nat) -> Compiled
        decreases fuel, 1nat,
    {
        match self.emit_jump(OpCode::JmpIfFalse).emit(OpCode::Pop).with_precedence(
            Precedence::Assignment,
            fuel,
        ) {
            Err(error) => Err(error),
            Ok(chosen) => match chosen.emit_jump(OpCode::Jmp).patch_jump(
                self.jump_operand(),
            ).consume(TokenKind::Colon) {
                Err(error) => Err(error),
                Ok(colon) => match colon.emit(OpCode::Pop).with_precedence(
                    Precedence::Assignment,
                    fuel,
                ) {
                    Err(error) => Err(error),
                    Ok(other) => Ok(other.patch_jump(chosen.jump_operand())),
                },
            },
        }
    }

    /// Compiles a statement: an expression, before it `print` or nothing,
    /// behind it a semicolon or the end of the script. After `print` the
    /// value of the expression is printed.
    pub open spec fn statement(self, fuel: nat) -> Compiled
        decreases fuel, 2nat,
    {
        if self.next.kind == TokenKind::Print {
            match self.advance() {
                Err(error) => Err(error),
                Ok(keyword) => match keyword.rest_of_statement(fuel) {
                    Err(error) => Err(error),
                    Ok(end) => Ok(end.emit(OpCode::Print)),
                },
            }
        } else {
            self.rest_of_statement(fuel)
        }
    }

    /// The expression of a statement, and its end.
    pub open spec fn rest_of_statement(self, fuel: nat) -> Compiled
        decreases fuel, 1nat,
    {
        match self.with_precedence(Precedence::Assignment, fuel) {
            Err(error) => Err(error),
            Ok(value) => if value.next.kind == TokenKind::EndOfInput {
                Ok(value)
            } else {
                value.consume(TokenKind::Semicolon)
            },
        }
    }

    /// Compiles the statements of a script up to its end.
    pub open spec fn statements(self, fuel: nat) -> Compiled
        decreases fuel, 0nat,
    {
        if self.next.kind == TokenKind::EndOfInput {
            Ok(self)
        } else if fuel == 0 {
            Err(unreachable("Parser"@))
        } else {
            match self.statement((fuel - 1) as nat) {
                Err(error) => Err(error),
                Ok(behind) => behind.statements((fuel - 1) as nat),
            }
        }
    }
}

/// The chunk that a script compiles to, or the first error in it: the
/// statements of the script, and a `Return` behind them, in a chunk that
/// is marked as finished.
///
/// The fuel is enough, whatever the script:
/// [`super::grammar_laws::law_fuel_statements`] shows that more of it makes
/// no difference.
pub open spec fn compile(names: Map<Seq<char>, i8>, source: Seq<char>) -> Result<
    Bytecode,
    CompilationFault,
> {
    match Compilation::start(names, source).advance() {
        Err(error) => Err(error),
        Ok(first) => match first.statements(first.measure() + 2) {
            Err(error) => Err(error),
            Ok(end) => Ok(end.emit(OpCode::Return).chunk.finalize()),
        },
    }
}

} // verus!
