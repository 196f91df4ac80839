//! What holds of the grammar's definition for every script.
use super::grammar::{compile, higher, Compilation, Compiled};
use super::parselets::{InfixParselet, PrefixParselet};
use super::precedence::Precedence;
use super::token::TokenKind;
use crate::execution::chunk::{Bytecode, ConstantView, MAX_CONSTANTS};
use crate::execution::op_code::OpCode;
use vstd::prelude::*;

verus! {

/// Whether a chunk has a line for each byte of its code, and no more
/// constants than an instruction can name.
pub open spec fn sound(chunk: Bytecode) -> bool {
    &&& chunk.lines.len() == chunk.code.len()
    &&& chunk.constants.len() <= MAX_CONSTANTS
}

/// Whether a state of the compilation follows another: the script and the
/// enum values are the same, and the chunk is the chunk of before with
/// instructions and constants behind it, or the same.
pub open spec fn extends(before: Compilation, after: Compilation) -> bool {
    &&& after.lexer.source == before.lexer.source
    &&& after.lexer.names == before.lexer.names
    &&& before.chunk.code.len() <= after.chunk.code.len()
    &&& after.chunk.code.take(before.chunk.code.len() as int) == before.chunk.code
    &&& before.chunk.constants.len() <= after.chunk.constants.len()
    &&& after.chunk.constants.take(before.chunk.constants.len() as int) == before.chunk.constants
    &&& sound(before.chunk) ==> sound(after.chunk)
    &&& after.chunk.instructions(before.chunk.code.len() as int, after.chunk.code.len() as int)
}

/// Instructions behind instructions are instructions.
proof fn lemma_instructions_join(chunk: Bytecode, a: int, b: int, c: int)
    requires
        chunk.instructions(a, b),
        chunk.instructions(b, c),
    ensures
        chunk.instructions(a, c),
    decreases b - a,
{
    if a < b {
        let op = OpCode::decode(chunk.code[a]);
        lemma_instructions_reach(chunk, a + 1 + op.operands(), b);
        lemma_instructions_reach(chunk, b, c);
        lemma_instructions_join(chunk, a + 1 + op.operands(), b, c);
    }
}

/// Instructions do not end before they start.
proof fn lemma_instructions_reach(chunk: Bytecode, a: int, b: int)
    requires
        chunk.instructions(a, b),
    ensures
        a <= b,
        a < b ==> 0 <= a && b <= chunk.code.len(),
    decreases b - a,
{
}

/// Instructions stay instructions in a chunk that has the same bytes in
/// their places, and no fewer constants.
proof fn lemma_instructions_same(one: Bytecode, other: Bytecode, a: int, b: int)
    requires
        one.instructions(a, b),
        b <= other.code.len(),
        forall|i: int| a <= i < b ==> one.code[i] == other.code[i],
        one.constants.len() <= other.constants.len(),
    ensures
        other.instructions(a, b),
    decreases b - a,
{
    if a < b {
        let op = OpCode::decode(one.code[a]);
        lemma_instructions_reach(one, a + 1 + op.operands(), b);
        lemma_instructions_same(one, other, a + 1 + op.operands(), b);
    }
}

/// Whether a part of the compilation, where it succeeds, leads to a state
/// that follows the state before.
pub open spec fn keeps(before: Compilation, result: Compiled) -> bool {
    result matches Ok(after) ==> extends(before, after)
}

proof fn lemma_extends_transitive(a: Compilation, b: Compilation, c: Compilation)
    requires
        extends(a, b),
        extends(b, c),
    ensures
        extends(a, c),
{
    assert forall|i: int| 0 <= i < b.chunk.code.len() implies b.chunk.code[i]
        == c.chunk.code[i] by {
        assert(c.chunk.code.take(b.chunk.code.len() as int)[i] == c.chunk.code[i]);
    }
    lemma_instructions_same(
        b.chunk,
        c.chunk,
        a.chunk.code.len() as int,
        b.chunk.code.len() as int,
    );
    lemma_instructions_join(
        c.chunk,
        a.chunk.code.len() as int,
        b.chunk.code.len() as int,
        c.chunk.code.len() as int,
    );
    assert(c.chunk.code.take(a.chunk.code.len() as int) =~= b.chunk.code.take(
        a.chunk.code.len() as int,
    ));
    assert(c.chunk.constants.take(a.chunk.constants.len() as int) =~= b.chunk.constants.take(
        a.chunk.constants.len() as int,
    ));
}

/// In a state that follows another the code of that other state stands as
/// it stood, and instructions in it are instructions still.
proof fn lemma_carry(before: Compilation, after: Compilation, a: int, b: int)
    requires
        extends(before, after),
        b <= before.chunk.code.len(),
        before.chunk.instructions(a, b) || a > b,
    ensures
        forall|i: int|
            0 <= i < before.chunk.code.len() ==> #[trigger] after.chunk.code[i]
                == before.chunk.code[i],
        a <= b ==> after.chunk.instructions(a, b),
{
    assert forall|i: int| 0 <= i < before.chunk.code.len() implies #[trigger] after.chunk.code[i]
        == before.chunk.code[i] by {
        assert(after.chunk.code.take(before.chunk.code.len() as int)[i] == after.chunk.code[i]);
    }
    if a <= b {
        lemma_instructions_same(before.chunk, after.chunk, a, b);
    }
}

proof fn lemma_advance(s: Compilation)
    ensures
        keeps(s, s.advance()),
        keeps(s, s.consume(TokenKind::RightParen)),
        keeps(s, s.consume(TokenKind::Colon)),
        keeps(s, s.consume(TokenKind::Semicolon)),
{
    assert(s.chunk.code.take(s.chunk.code.len() as int) =~= s.chunk.code);
    assert(s.chunk.constants.take(s.chunk.constants.len() as int) =~= s.chunk.constants);
}

proof fn lemma_reflexive(s: Compilation)
    ensures
        extends(s, s),
{
    assert(s.chunk.code.take(s.chunk.code.len() as int) =~= s.chunk.code);
    assert(s.chunk.constants.take(s.chunk.constants.len() as int) =~= s.chunk.constants);
}

proof fn lemma_emit_op(s: Compilation, op: OpCode)
    requires
        op.operands() == 0,
        op != OpCode::NoOperation,
    ensures
        extends(s, s.emit(op)),
        s.emit(op).chunk.code.len() == s.chunk.code.len() + 1,
{
    let after = s.emit(op);
    OpCode::law_decode_code(op);
    assert(after.chunk.code.take(s.chunk.code.len() as int) =~= s.chunk.code);
    assert(after.chunk.constants.take(s.chunk.constants.len() as int) =~= s.chunk.constants);
    assert(after.chunk.instructions(after.chunk.code.len() as int, after.chunk.code.len() as int));
}

proof fn lemma_emit_with(s: Compilation, op: OpCode, operand: u8)
    requires
        op.operands() == 1,
        operand < s.chunk.constants.len(),
    ensures
        extends(s, s.emit_with(op, operand)),
{
    let after = s.emit_with(op, operand);
    OpCode::law_decode_code(op);
    assert(after.chunk.code.take(s.chunk.code.len() as int) =~= s.chunk.code);
    assert(after.chunk.constants.take(s.chunk.constants.len() as int) =~= s.chunk.constants);
    assert(after.chunk.instructions(after.chunk.code.len() as int, after.chunk.code.len() as int));
}

proof fn lemma_emit_jump(s: Compilation, op: OpCode)
    requires
        op.operands() == 2,
    ensures
        extends(s, s.emit_jump(op)),
        s.emit_jump(op).chunk.code.len() == s.chunk.code.len() + 3,
        s.emit_jump(op).chunk.code[s.chunk.code.len() as int] == op.code(),
{
    let after = s.emit_jump(op);
    OpCode::law_decode_code(op);
    assert(after.chunk.code.take(s.chunk.code.len() as int) =~= s.chunk.code);
    assert(after.chunk.constants.take(s.chunk.constants.len() as int) =~= s.chunk.constants);
    assert(after.chunk.instructions(after.chunk.code.len() as int, after.chunk.code.len() as int));
}

proof fn lemma_emit_constant(s: Compilation, op: OpCode, constant: ConstantView)
    requires
        op.operands() == 1,
    ensures
        keeps(s, s.emit_constant(op, constant)),
        s.emit_constant(op, constant) matches Ok(after) ==> after.chunk.constants.len()
            > s.chunk.constants.len(),
{
    if s.chunk.has_room() {
        let added = Compilation { chunk: s.chunk.add(constant), ..s };
        assert(added.chunk.code.take(s.chunk.code.len() as int) =~= s.chunk.code);
        assert(added.chunk.constants.take(s.chunk.constants.len() as int) =~= s.chunk.constants);
        assert(extends(s, added));
        lemma_emit_with(added, op, s.chunk.constants.len() as u8);
        lemma_extends_transitive(s, added, added.emit_with(op, s.chunk.constants.len() as u8));
    }
}

/// A patch of a jump that stands behind the code of `before` leaves that
/// code as it is and the instructions behind it instructions, and makes
/// the operand of the jump name the end of the code.
proof fn lemma_patch_jump(before: Compilation, s: Compilation, pos: int)
    requires
        extends(before, s),
        before.chunk.code.len() < pos,
        s.chunk.instructions(before.chunk.code.len() as int, pos - 1),
        OpCode::decode(s.chunk.code[pos - 1]).operands() == 2,
        s.chunk.instructions(pos + 2, s.chunk.code.len() as int),
        pos + 2 <= s.chunk.code.len(),
    ensures
        extends(before, s.patch_jump(pos)),
        s.patch_jump(pos).chunk.code.len() == s.chunk.code.len(),
        s.chunk.code.len() < 0x1_0000 ==> s.patch_jump(pos).chunk.address(pos)
            == s.chunk.code.len(),
        forall|i: int|
            0 <= i < s.chunk.code.len() && i != pos && i != pos + 1 ==> s.patch_jump(
                pos,
            ).chunk.code[i] == s.chunk.code[i],
{
    let patched = s.patch_jump(pos);
    assert(patched.chunk.code.take(before.chunk.code.len() as int) =~= before.chunk.code);
    let target = s.chunk.code.len();
    if target < 0x1_0000 {
        assert(((target / 256) % 256) * 256 + target % 256 == target) by (nonlinear_arith)
            requires
                0 <= target < 0x1_0000,
        ;
    }
    lemma_instructions_reach(s.chunk, before.chunk.code.len() as int, pos - 1);
    lemma_instructions_same(s.chunk, patched.chunk, before.chunk.code.len() as int, pos - 1);
    lemma_instructions_same(s.chunk, patched.chunk, pos + 2, s.chunk.code.len() as int);
    assert(patched.chunk.instructions(pos - 1, s.chunk.code.len() as int));
    lemma_instructions_join(
        patched.chunk,
        before.chunk.code.len() as int,
        pos - 1,
        s.chunk.code.len() as int,
    );
}

/// An expression leaves the chunk sound and what was compiled before it
/// as it is.
pub proof fn law_with_precedence(s: Compilation, precedence: Precedence, fuel: nat)
    ensures
        keeps(s, s.with_precedence(precedence, fuel)),
    decreases fuel, 0nat,
{
    lemma_advance(s);
    if fuel != 0 {
        if let Ok(first) = s.advance() {
            if let Some(parselet) = super::grammar::prefix_for(first.current.kind) {
                lemma_prefix(first, parselet, (fuel - 1) as nat);
                if let Ok(operand) = first.prefix(parselet, (fuel - 1) as nat) {
                    lemma_extends_transitive(s, first, operand);
                    lemma_infix_loop(operand, precedence, (fuel - 1) as nat);
                    if let Ok(end) = operand.infix_loop(precedence, (fuel - 1) as nat) {
                        lemma_extends_transitive(s, operand, end);
                    }
                }
            }
        }
    }
}

proof fn lemma_infix_loop(s: Compilation, precedence: Precedence, fuel: nat)
    ensures
        keeps(s, s.infix_loop(precedence, fuel)),
    decreases fuel, 0nat,
{
    lemma_advance(s);
    lemma_reflexive(s);
    if precedence.level() <= super::grammar::infix_precedence(s.next.kind).level() && fuel != 0 {
        if let Ok(operator) = s.advance() {
            if let Some(parselet) = super::grammar::infix_for(operator.current.kind) {
                lemma_infix(operator, parselet, (fuel - 1) as nat);
                if let Ok(operand) = operator.infix(parselet, (fuel - 1) as nat) {
                    lemma_extends_transitive(s, operator, operand);
                    lemma_infix_loop(operand, precedence, (fuel - 1) as nat);
                    if let Ok(end) = operand.infix_loop(precedence, (fuel - 1) as nat) {
                        lemma_extends_transitive(s, operand, end);
                    }
                }
            }
        }
    }
}

proof fn lemma_prefix(s: Compilation, parselet: PrefixParselet, fuel: nat)
    ensures
        keeps(s, s.prefix(parselet, fuel)),
    decreases fuel, 3nat,
{
    match parselet {
        PrefixParselet::Assignment => lemma_assignment(s, fuel),
        PrefixParselet::Grouping => lemma_grouping(s, fuel),
        PrefixParselet::Literal => lemma_literal(s),
        PrefixParselet::Unary => lemma_unary(s, fuel),
        PrefixParselet::Value => lemma_value(s),
    }
}

proof fn lemma_infix(s: Compilation, parselet: InfixParselet, fuel: nat)
    ensures
        keeps(s, s.infix(parselet, fuel)),
    decreases fuel, 3nat,
{
    match parselet {
        InfixParselet::Binary(binary) => lemma_binary(s, binary.precedence, fuel),
        InfixParselet::Logic(logic) => lemma_logic(s, logic.precedence, fuel),
    }
}

proof fn lemma_literal(s: Compilation)
    ensures
        keeps(s, s.literal()),
{
    lemma_emit_op(s, OpCode::False);
    lemma_emit_op(s, OpCode::Nil);
    lemma_emit_op(s, OpCode::True);
}

proof fn lemma_value(s: Compilation)
    ensures
        keeps(s, s.value()),
{
    assert forall|constant: ConstantView|
        keeps(s, #[trigger] s.emit_constant(OpCode::Constant, constant)) by {
        lemma_emit_constant(s, OpCode::Constant, constant);
    }
}

proof fn lemma_assignment(s: Compilation, fuel: nat)
    ensures
        keeps(s, s.assignment(fuel)),
    decreases fuel, 2nat,
{
    let name = ConstantView::Value(crate::scripting_value::Value::String(s.current.origin));
    lemma_store(s, OpCode::DefineExternal, name, fuel);
    lemma_store(s, OpCode::SetExternal, name, fuel);
    lemma_update(s, OpCode::Add, name, fuel);
    lemma_update(s, OpCode::Subtract, name, fuel);
    lemma_update(s, OpCode::Multiply, name, fuel);
    lemma_update(s, OpCode::Divide, name, fuel);
    lemma_emit_constant(s, OpCode::GetExternal, name);
}

proof fn lemma_store(s: Compilation, op: OpCode, name: ConstantView, fuel: nat)
    requires
        op.operands() == 1,
    ensures
        keeps(s, s.store(op, name, fuel)),
    decreases fuel, 1nat,
{
    lemma_advance(s);
    if let Ok(operator) = s.advance() {
        law_with_precedence(operator, Precedence::Assignment, fuel);
        if let Ok(value) = operator.with_precedence(Precedence::Assignment, fuel) {
            lemma_extends_transitive(s, operator, value);
            lemma_emit_constant(value, op, name);
            if let Ok(end) = value.emit_constant(op, name) {
                lemma_extends_transitive(s, value, end);
            }
        }
    }
}

proof fn lemma_update(s: Compilation, op: OpCode, name: ConstantView, fuel: nat)
    requires
        op.operands() == 0,
        op != OpCode::NoOperation,
    ensures
        keeps(s, s.update(op, name, fuel)),
    decreases fuel, 1nat,
{
    lemma_emit_constant(s, OpCode::GetExternal, name);
    if let Ok(read) = s.emit_constant(OpCode::GetExternal, name) {
        lemma_advance(read);
        if let Ok(operator) = read.advance() {
            lemma_extends_transitive(s, read, operator);
            law_with_precedence(operator, Precedence::Assignment, fuel);
            if let Ok(value) = operator.with_precedence(Precedence::Assignment, fuel) {
                lemma_extends_transitive(s, operator, value);
                lemma_emit_op(value, op);
                lemma_extends_transitive(s, value, value.emit(op));
                let place = s.chunk.constants.len() as u8;
                assert(place < value.emit(op).chunk.constants.len());
                lemma_emit_with(value.emit(op), OpCode::SetExternal, place);
                lemma_extends_transitive(
                    s,
                    value.emit(op),
                    value.emit(op).emit_with(OpCode::SetExternal, place),
                );
            }
        }
    }
}

proof fn lemma_grouping(s: Compilation, fuel: nat)
    ensures
        keeps(s, s.grouping(fuel)),
    decreases fuel, 1nat,
{
    law_with_precedence(s, Precedence::Assignment, fuel);
    if let Ok(inner) = s.with_precedence(Precedence::Assignment, fuel) {
        lemma_advance(inner);
        if let Ok(end) = inner.consume(TokenKind::RightParen) {
            lemma_extends_transitive(s, inner, end);
        }
    }
}

proof fn lemma_unary(s: Compilation, fuel: nat)
    ensures
        keeps(s, s.unary(fuel)),
    decreases fuel, 1nat,
{
    law_with_precedence(s, Precedence::Unary, fuel);
    if let Ok(operand) = s.with_precedence(Precedence::Unary, fuel) {
        lemma_emit_op(operand, OpCode::Not);
        lemma_emit_op(operand, OpCode::Negate);
        lemma_emit_op(operand, OpCode::BitwiseNot);
        lemma_extends_transitive(s, operand, operand.emit(OpCode::Not));
        lemma_extends_transitive(s, operand, operand.emit(OpCode::Negate));
        lemma_extends_transitive(s, operand, operand.emit(OpCode::BitwiseNot));
    }
}

proof fn lemma_binary(s: Compilation, precedence: Precedence, fuel: nat)
    ensures
        keeps(s, s.binary(precedence, fuel)),
    decreases fuel, 1nat,
{
    law_with_precedence(s, higher(precedence), fuel);
    if let Ok(right) = s.with_precedence(higher(precedence), fuel) {
        assert forall|op: OpCode|
            op.operands() == 0 && op != OpCode::NoOperation implies extends(
                s,
                #[trigger] right.emit(op),
            ) && extends(s, right.emit(op).emit(OpCode::Not)) by {
            lemma_emit_op(right, op);
            lemma_extends_transitive(s, right, right.emit(op));
            lemma_emit_op(right.emit(op), OpCode::Not);
            lemma_extends_transitive(s, right.emit(op), right.emit(op).emit(OpCode::Not));
        }
        assert(extends(s, right.emit(OpCode::Equal)));
        assert(extends(s, right.emit(OpCode::Greater)));
        assert(extends(s, right.emit(OpCode::Less)));
        assert(extends(s, right.emit(OpCode::Add)));
        assert(extends(s, right.emit(OpCode::Subtract)));
        assert(extends(s, right.emit(OpCode::Multiply)));
        assert(extends(s, right.emit(OpCode::Divide)));
    }
}

proof fn lemma_logic(s: Compilation, precedence: Precedence, fuel: nat)
    ensures
        keeps(s, s.logic(precedence, fuel)),
    decreases fuel, 2nat,
{
    lemma_bitwise(s, OpCode::BitwiseAnd, precedence, fuel);
    lemma_bitwise(s, OpCode::BitwiseXor, precedence, fuel);
    lemma_bitwise(s, OpCode::BitwiseOr, precedence, fuel);
    law_short_circuit(s, OpCode::JmpIfFalse, precedence, fuel);
    law_short_circuit(s, OpCode::JmpIfTrue, precedence, fuel);
    law_ternary(s, fuel);
}

proof fn lemma_bitwise(s: Compilation, op: OpCode, precedence: Precedence, fuel: nat)
    requires
        op.operands() == 0,
        op != OpCode::NoOperation,
    ensures
        keeps(s, s.bitwise(op, precedence, fuel)),
    decreases fuel, 1nat,
{
    law_with_precedence(s, higher(precedence), fuel);
    if let Ok(right) = s.with_precedence(higher(precedence), fuel) {
        lemma_emit_op(right, op);
        lemma_extends_transitive(s, right, right.emit(op));
    }
}

/// `a && b` and `a || b` are compiled to a jump, a `Pop` and the code of
/// `b`, and the jump leads to the end of that code: where the jump is
/// taken, the machine passes over all of `b`. What was compiled before
/// stays as it is.
pub proof fn law_short_circuit(s: Compilation, jump: OpCode, precedence: Precedence, fuel: nat)
    requires
        jump == OpCode::JmpIfFalse || jump == OpCode::JmpIfTrue,
    ensures
        keeps(s, s.short_circuit(jump, precedence, fuel)),
        s.short_circuit(jump, precedence, fuel) matches Ok(end) ==> {
            &&& end.chunk.code.len() >= s.chunk.code.len() + 4
            &&& end.chunk.code[s.chunk.code.len() as int] == jump.code()
            &&& end.chunk.code[s.chunk.code.len() as int + 3] == OpCode::Pop.code()
            &&& end.chunk.code.len() < 0x1_0000 ==> end.chunk.address(s.jump_operand())
                == end.chunk.code.len()
        },
    decreases fuel, 1nat,
{
    let left = s.emit_jump(jump).emit(OpCode::Pop);
    let at = s.chunk.code.len() as int;
    OpCode::law_decode_code(jump);
    lemma_emit_jump(s, jump);
    lemma_emit_op(s.emit_jump(jump), OpCode::Pop);
    lemma_extends_transitive(s, s.emit_jump(jump), left);
    law_with_precedence(left, higher(precedence), fuel);
    if let Ok(right) = left.with_precedence(higher(precedence), fuel) {
        lemma_extends_transitive(s, left, right);
        let end = right.chunk.code.len() as int;
        // behind the jump stand a `Pop` and the right-hand side
        assert(left.chunk.instructions(at + 3, at + 4));
        lemma_carry(left, right, at + 3, at + 4);
        lemma_instructions_join(right.chunk, at + 3, at + 4, end);
        lemma_patch_jump(s, right, at + 1);
    }
}

/// `c ? a : b` is compiled to a jump, a `Pop`, the code of `a`, a second
/// jump, a `Pop` and the code of `b`. The first jump leads to the second
/// `Pop`, and the second jump to the end of the code of `b`: where `c` is
/// false the machine passes over all of `a`, and behind `a` it passes over
/// all of `b`. What was compiled before stays as it is.
pub proof fn law_ternary(s: Compilation, fuel: nat)
    ensures
        keeps(s, s.ternary(fuel)),
        s.ternary(fuel) matches Ok(end) ==> (end.chunk.code.len() < 0x1_0000 ==> {
            let other = end.chunk.address(s.jump_operand());
            &&& end.chunk.code[s.chunk.code.len() as int] == OpCode::JmpIfFalse.code()
            &&& end.chunk.code[s.chunk.code.len() as int + 3] == OpCode::Pop.code()
            &&& s.chunk.code.len() + 7 <= other < end.chunk.code.len()
            &&& end.chunk.code[other - 3] == OpCode::Jmp.code()
            &&& end.chunk.address(other - 2) == end.chunk.code.len()
            &&& end.chunk.code[other] == OpCode::Pop.code()
        }),
    decreases fuel, 1nat,
{
    let condition = s.emit_jump(OpCode::JmpIfFalse).emit(OpCode::Pop);
    let at = s.chunk.code.len() as int;
    OpCode::law_decode_code(OpCode::JmpIfFalse);
    OpCode::law_decode_code(OpCode::Jmp);
    lemma_emit_jump(s, OpCode::JmpIfFalse);
    lemma_emit_op(s.emit_jump(OpCode::JmpIfFalse), OpCode::Pop);
    lemma_extends_transitive(s, s.emit_jump(OpCode::JmpIfFalse), condition);
    law_with_precedence(condition, Precedence::Assignment, fuel);
    if let Ok(chosen) = condition.with_precedence(Precedence::Assignment, fuel) {
        lemma_extends_transitive(s, condition, chosen);
        let middle = chosen.chunk.code.len() as int;
        lemma_emit_jump(chosen, OpCode::Jmp);
        let jumped = chosen.emit_jump(OpCode::Jmp);
        lemma_extends_transitive(s, chosen, jumped);
        // behind the first jump stand a `Pop`, the one branch and the second jump
        assert(condition.chunk.instructions(at + 3, at + 4));
        lemma_carry(condition, chosen, at + 3, at + 4);
        lemma_instructions_join(chosen.chunk, at + 3, at + 4, middle);
        lemma_carry(chosen, jumped, at + 3, middle);
        lemma_instructions_join(jumped.chunk, at + 3, middle, middle + 3);
        lemma_extends_transitive(condition, chosen, jumped);
        lemma_carry(condition, jumped, 1, 0);
        lemma_patch_jump(s, jumped, at + 1);
        let patched = jumped.patch_jump(s.jump_operand());
        lemma_instructions_same(jumped.chunk, patched.chunk, at + 3, middle);
        assert(patched.chunk.instructions(at, middle));
        lemma_advance(patched);
        if let Ok(colon) = patched.consume(TokenKind::Colon) {
            lemma_extends_transitive(s, patched, colon);
            lemma_emit_op(colon, OpCode::Pop);
            let other_start = colon.emit(OpCode::Pop);
            lemma_extends_transitive(patched, colon, other_start);
            lemma_extends_transitive(s, colon, other_start);
            law_with_precedence(other_start, Precedence::Assignment, fuel);
            if let Ok(other) = other_start.with_precedence(Precedence::Assignment, fuel) {
                lemma_extends_transitive(patched, other_start, other);
                lemma_extends_transitive(s, other_start, other);
                lemma_carry(patched, other, at, middle);
                lemma_carry(other_start, other, 1, 0);
                lemma_carry(colon, other_start, 1, 0);
                lemma_carry(patched, colon, 1, 0);
                lemma_patch_jump(s, other, middle + 1);
                let end = other.patch_jump(middle + 1);
                if end.chunk.code.len() < 0x1_0000 {
                    assert(patched.chunk.address(at + 1) == middle + 3);
                    assert(end.chunk.code[at + 1] == patched.chunk.code[at + 1]);
                    assert(end.chunk.code[at + 2] == patched.chunk.code[at + 2]);
                    assert(end.chunk.address(at + 1) == middle + 3);
                }
            }
        }
    }
}

proof fn lemma_rest_of_statement(s: Compilation, fuel: nat)
    ensures
        keeps(s, s.rest_of_statement(fuel)),
    decreases fuel, 1nat,
{
    law_with_precedence(s, Precedence::Assignment, fuel);
    if let Ok(value) = s.with_precedence(Precedence::Assignment, fuel) {
        lemma_advance(value);
        if let Ok(end) = value.consume(TokenKind::Semicolon) {
            lemma_extends_transitive(s, value, end);
        }
    }
}

proof fn lemma_statement(s: Compilation, fuel: nat)
    ensures
        keeps(s, s.statement(fuel)),
    decreases fuel, 2nat,
{
    lemma_advance(s);
    lemma_rest_of_statement(s, fuel);
    if let Ok(keyword) = s.advance() {
        lemma_rest_of_statement(keyword, fuel);
        if let Ok(end) = keyword.rest_of_statement(fuel) {
            lemma_extends_transitive(s, keyword, end);
            lemma_emit_op(end, OpCode::Print);
            lemma_extends_transitive(s, end, end.emit(OpCode::Print));
        }
    }
}

proof fn lemma_statements(s: Compilation, fuel: nat)
    ensures
        keeps(s, s.statements(fuel)),
    decreases fuel, 0nat,
{
    lemma_reflexive(s);
    if s.next.kind != TokenKind::EndOfInput && fuel != 0 {
        lemma_statement(s, (fuel - 1) as nat);
        if let Ok(behind) = s.statement((fuel - 1) as nat) {
            lemma_statements(behind, (fuel - 1) as nat);
            if let Ok(end) = behind.statements((fuel - 1) as nat) {
                lemma_extends_transitive(s, behind, end);
            }
        }
    }
}

/// A chunk that a script compiles to is marked as finished. It ends with
/// `Return`, has a line for each byte of its code, and holds no more
/// constants than an instruction can name. Its code is made of instructions, each with its operand, and
/// each constant that one of them names is there.
pub proof fn law_compiled_chunk(names: Map<Seq<char>, i8>, source: Seq<char>)
    ensures
        compile(names, source) matches Ok(chunk) ==> {
            &&& chunk.code.len() >= 1
            &&& chunk.code.last() == OpCode::Return.code()
            &&& chunk.lines.len() == chunk.code.len()
            &&& chunk.constants.len() <= MAX_CONSTANTS
            &&& chunk.instructions(0, chunk.code.len() as int)
            &&& chunk.finalized
        },
{
    let start = Compilation::start(names, source);
    lemma_advance(start);
    if let Ok(first) = start.advance() {
        lemma_statements(first, first.measure() + 2);
        if let Ok(end) = first.statements(first.measure() + 2) {
            lemma_extends_transitive(start, first, end);
            lemma_emit_op(end, OpCode::Return);
            lemma_extends_transitive(start, end, end.emit(OpCode::Return));
            let written = end.emit(OpCode::Return).chunk;
            lemma_instructions_same(
                written,
                written.finalize(),
                0,
                written.code.len() as int,
            );
        }
    }
}

/// Whether a part of the compilation, where it succeeds, leaves no more
/// to compile than there was.
pub open spec fn shrinks(before: Compilation, result: Compiled) -> bool {
    result matches Ok(after) ==> after.measure() <= before.measure()
}

/// After a step to the next token there is no more to compile than there
/// was, and less where a token stood ready.
proof fn lemma_advance_shrinks(s: Compilation)
    requires
        0 <= s.lexer.index,
    ensures
        shrinks(s, s.advance()),
        s.advance() matches Ok(after) ==> 0 <= after.lexer.index && (s.next.kind
            != TokenKind::EndOfInput ==> after.measure() < s.measure()),
        forall|kind: TokenKind|
            (#[trigger] s.consume(kind)) matches Ok(after) ==> 0 <= after.lexer.index
                && after.measure() <= s.measure(),
{
    super::lexer_laws::law_progress(s.lexer.source, s.lexer.names, s.lexer.index, s.lexer.line);
}

/// Whether two amounts of fuel lead a part of the compilation to the same
/// result, which leaves no more to compile than there was.
pub open spec fn settled(before: Compilation, one: Compiled, other: Compiled) -> bool {
    &&& one == other
    &&& shrinks(before, one)
    &&& one matches Ok(after) ==> 0 <= after.lexer.index
}

/// More fuel than there is to compile is enough: an expression is
/// compiled to the same with every such amount of fuel, and what is left to
/// compile behind it is less than before.
pub proof fn law_fuel(s: Compilation, precedence: Precedence, fuel: nat, more: nat)
    requires
        0 <= s.lexer.index,
        fuel > s.measure(),
        more > s.measure(),
    ensures
        settled(s, s.with_precedence(precedence, fuel), s.with_precedence(precedence, more)),
        s.with_precedence(precedence, fuel) matches Ok(after) ==> after.measure() < s.measure(),
    decreases fuel, 0nat,
{
    lemma_advance_shrinks(s);
    if let Ok(first) = s.advance() {
        if let Some(parselet) = super::grammar::prefix_for(first.current.kind) {
            lemma_fuel_prefix(first, parselet, (fuel - 1) as nat, (more - 1) as nat);
            if let Ok(operand) = first.prefix(parselet, (fuel - 1) as nat) {
                lemma_fuel_infix_loop(operand, precedence, (fuel - 1) as nat, (more - 1) as nat);
            }
        }
    }
}

proof fn lemma_fuel_infix_loop(s: Compilation, precedence: Precedence, fuel: nat, more: nat)
    requires
        0 <= s.lexer.index,
        fuel > s.measure(),
        more > s.measure(),
    ensures
        settled(s, s.infix_loop(precedence, fuel), s.infix_loop(precedence, more)),
    decreases fuel, 0nat,
{
    lemma_advance_shrinks(s);
    if precedence.level() <= super::grammar::infix_precedence(s.next.kind).level() {
        if let Ok(operator) = s.advance() {
            if let Some(parselet) = super::grammar::infix_for(operator.current.kind) {
                lemma_fuel_infix(operator, parselet, (fuel - 1) as nat, (more - 1) as nat);
                if let Ok(operand) = operator.infix(parselet, (fuel - 1) as nat) {
                    lemma_fuel_infix_loop(
                        operand,
                        precedence,
                        (fuel - 1) as nat,
                        (more - 1) as nat,
                    );
                }
            }
        }
    }
}

proof fn lemma_fuel_prefix(s: Compilation, parselet: PrefixParselet, fuel: nat, more: nat)
    requires
        0 <= s.lexer.index,
        fuel > s.measure(),
        more > s.measure(),
    ensures
        settled(s, s.prefix(parselet, fuel), s.prefix(parselet, more)),
    decreases fuel, 3nat,
{
    match parselet {
        PrefixParselet::Assignment => lemma_fuel_assignment(s, fuel, more),
        PrefixParselet::Grouping => lemma_fuel_grouping(s, fuel, more),
        PrefixParselet::Literal => {},
        PrefixParselet::Unary => lemma_fuel_unary(s, fuel, more),
        PrefixParselet::Value => {},
    }
}

proof fn lemma_fuel_infix(s: Compilation, parselet: InfixParselet, fuel: nat, more: nat)
    requires
        0 <= s.lexer.index,
        fuel > s.measure(),
        more > s.measure(),
    ensures
        settled(s, s.infix(parselet, fuel), s.infix(parselet, more)),
    decreases fuel, 3nat,
{
    match parselet {
        InfixParselet::Binary(binary) => lemma_fuel_binary(s, binary.precedence, fuel, more),
        InfixParselet::Logic(logic) => lemma_fuel_logic(s, logic.precedence, fuel, more),
    }
}

proof fn lemma_fuel_assignment(s: Compilation, fuel: nat, more: nat)
    requires
        0 <= s.lexer.index,
        fuel > s.measure(),
        more > s.measure(),
    ensures
        settled(s, s.assignment(fuel), s.assignment(more)),
    decreases fuel, 2nat,
{
    let name = ConstantView::Value(crate::scripting_value::Value::String(s.current.origin));
    lemma_fuel_store(s, OpCode::DefineExternal, name, fuel, more);
    lemma_fuel_store(s, OpCode::SetExternal, name, fuel, more);
    lemma_fuel_update(s, OpCode::Add, name, fuel, more);
    lemma_fuel_update(s, OpCode::Subtract, name, fuel, more);
    lemma_fuel_update(s, OpCode::Multiply, name, fuel, more);
    lemma_fuel_update(s, OpCode::Divide, name, fuel, more);
}

proof fn lemma_fuel_store(s: Compilation, op: OpCode, name: ConstantView, fuel: nat, more: nat)
    requires
        0 <= s.lexer.index,
        fuel > s.measure(),
        more > s.measure(),
    ensures
        settled(s, s.store(op, name, fuel), s.store(op, name, more)),
    decreases fuel, 1nat,
{
    lemma_advance_shrinks(s);
    if let Ok(operator) = s.advance() {
        law_fuel(operator, Precedence::Assignment, fuel, more);
    }
}

proof fn lemma_fuel_update(s: Compilation, op: OpCode, name: ConstantView, fuel: nat, more: nat)
    requires
        0 <= s.lexer.index,
        fuel > s.measure(),
        more > s.measure(),
    ensures
        settled(s, s.update(op, name, fuel), s.update(op, name, more)),
    decreases fuel, 1nat,
{
    if let Ok(read) = s.emit_constant(OpCode::GetExternal, name) {
        lemma_advance_shrinks(read);
        if let Ok(operator) = read.advance() {
            law_fuel(operator, Precedence::Assignment, fuel, more);
        }
    }
}

proof fn lemma_fuel_grouping(s: Compilation, fuel: nat, more: nat)
    requires
        0 <= s.lexer.index,
        fuel > s.measure(),
        more > s.measure(),
    ensures
        settled(s, s.grouping(fuel), s.grouping(more)),
    decreases fuel, 1nat,
{
    law_fuel(s, Precedence::Assignment, fuel, more);
    if let Ok(inner) = s.with_precedence(Precedence::Assignment, fuel) {
        lemma_advance_shrinks(inner);
    }
}

proof fn lemma_fuel_unary(s: Compilation, fuel: nat, more: nat)
    requires
        0 <= s.lexer.index,
        fuel > s.measure(),
        more > s.measure(),
    ensures
        settled(s, s.unary(fuel), s.unary(more)),
    decreases fuel, 1nat,
{
    law_fuel(s, Precedence::Unary, fuel, more);
}

proof fn lemma_fuel_binary(s: Compilation, precedence: Precedence, fuel: nat, more: nat)
    requires
        0 <= s.lexer.index,
        fuel > s.measure(),
        more > s.measure(),
    ensures
        settled(s, s.binary(precedence, fuel), s.binary(precedence, more)),
    decreases fuel, 1nat,
{
    law_fuel(s, higher(precedence), fuel, more);
}

proof fn lemma_fuel_logic(s: Compilation, precedence: Precedence, fuel: nat, more: nat)
    requires
        0 <= s.lexer.index,
        fuel > s.measure(),
        more > s.measure(),
    ensures
        settled(s, s.logic(precedence, fuel), s.logic(precedence, more)),
    decreases fuel, 2nat,
{
    lemma_fuel_bitwise(s, OpCode::BitwiseAnd, precedence, fuel, more);
    lemma_fuel_bitwise(s, OpCode::BitwiseXor, precedence, fuel, more);
    lemma_fuel_bitwise(s, OpCode::BitwiseOr, precedence, fuel, more);
    lemma_fuel_short_circuit(s, OpCode::JmpIfFalse, precedence, fuel, more);
    lemma_fuel_short_circuit(s, OpCode::JmpIfTrue, precedence, fuel, more);
    lemma_fuel_ternary(s, fuel, more);
}

proof fn lemma_fuel_bitwise(
    s: Compilation,
    op: OpCode,
    precedence: Precedence,
    fuel: nat,
    more: nat,
)
    requires
        0 <= s.lexer.index,
        fuel > s.measure(),
        more > s.measure(),
    ensures
        settled(s, s.bitwise(op, precedence, fuel), s.bitwise(op, precedence, more)),
    decreases fuel, 1nat,
{
    law_fuel(s, higher(precedence), fuel, more);
}

proof fn lemma_fuel_short_circuit(
    s: Compilation,
    jump: OpCode,
    precedence: Precedence,
    fuel: nat,
    more: nat,
)
    requires
        0 <= s.lexer.index,
        fuel > s.measure(),
        more > s.measure(),
    ensures
        settled(
            s,
            s.short_circuit(jump, precedence, fuel),
            s.short_circuit(jump, precedence, more),
        ),
    decreases fuel, 1nat,
{
    law_fuel(s.emit_jump(jump).emit(OpCode::Pop), higher(precedence), fuel, more);
}

proof fn lemma_fuel_ternary(s: Compilation, fuel: nat, more: nat)
    requires
        0 <= s.lexer.index,
        fuel > s.measure(),
        more > s.measure(),
    ensures
        settled(s, s.ternary(fuel), s.ternary(more)),
    decreases fuel, 1nat,
{
    let condition = s.emit_jump(OpCode::JmpIfFalse).emit(OpCode::Pop);
    law_fuel(condition, Precedence::Assignment, fuel, more);
    if let Ok(chosen) = condition.with_precedence(Precedence::Assignment, fuel) {
        let patched = chosen.emit_jump(OpCode::Jmp).patch_jump(s.jump_operand());
        lemma_advance_shrinks(patched);
        if let Ok(colon) = patched.consume(TokenKind::Colon) {
            law_fuel(colon.emit(OpCode::Pop), Precedence::Assignment, fuel, more);
        }
    }
}

proof fn lemma_fuel_rest_of_statement(s: Compilation, fuel: nat, more: nat)
    requires
        0 <= s.lexer.index,
        fuel > s.measure(),
        more > s.measure(),
    ensures
        settled(s, s.rest_of_statement(fuel), s.rest_of_statement(more)),
        s.rest_of_statement(fuel) matches Ok(after) ==> after.measure() < s.measure(),
    decreases fuel, 1nat,
{
    law_fuel(s, Precedence::Assignment, fuel, more);
    if let Ok(value) = s.with_precedence(Precedence::Assignment, fuel) {
        lemma_advance_shrinks(value);
    }
}

proof fn lemma_fuel_statement(s: Compilation, fuel: nat, more: nat)
    requires
        0 <= s.lexer.index,
        fuel > s.measure(),
        more > s.measure(),
    ensures
        settled(s, s.statement(fuel), s.statement(more)),
        s.statement(fuel) matches Ok(after) ==> after.measure() < s.measure(),
    decreases fuel, 2nat,
{
    lemma_advance_shrinks(s);
    lemma_fuel_rest_of_statement(s, fuel, more);
    if let Ok(keyword) = s.advance() {
        lemma_fuel_rest_of_statement(keyword, fuel, more);
    }
}

/// More fuel than there is to compile, and one more, is enough for the
/// statements of a script: they are compiled to the same with every such
/// amount of fuel.
pub proof fn law_fuel_statements(s: Compilation, fuel: nat, more: nat)
    requires
        0 <= s.lexer.index,
        fuel > s.measure() + 1,
        more > s.measure() + 1,
    ensures
        s.statements(fuel) == s.statements(more),
    decreases fuel, 0nat,
{
    if s.next.kind != TokenKind::EndOfInput {
        lemma_fuel_statement(s, (fuel - 1) as nat, (more - 1) as nat);
        if let Ok(behind) = s.statement((fuel - 1) as nat) {
            law_fuel_statements(behind, (fuel - 1) as nat, (more - 1) as nat);
        }
    }
}

} // verus!
