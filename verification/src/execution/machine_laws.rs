//! What holds of the machine's definition for every chunk and every state.
use super::chunk::Bytecode;
use super::error::ExecutionFault;
use super::machine::{equal, is_number, Computed, Machine, Outcome, Waiting, STACK_SIZE};
use super::op_code::OpCode;
use crate::scripting_value::Value;
use vstd::prelude::*;

verus! {

/// Whether two values are of one kind.
pub open spec fn same_kind(a: Value, b: Value) -> bool {
    ||| a is Nil && b is Nil
    ||| a is Boolean && b is Boolean
    ||| a is Float64 && b is Float64
    ||| a is Int64 && b is Int64
    ||| a is String && b is String
}

/// Equality is reflexive: a value is equal to itself. Of a floating-point
/// number the host decides.
pub proof fn law_equal_reflexive(a: Value)
    requires
        !(a is Float64),
    ensures
        equal(a, a) == Computed::Value(Value::Boolean(true)),
{
}

/// Two values of one kind are equal where they are the same, and nowhere
/// else. Of floating-point numbers the host decides.
pub proof fn law_equal_within_kind(a: Value, b: Value)
    requires
        same_kind(a, b),
        !(a is Float64),
    ensures
        equal(a, b) == Computed::Value(Value::Boolean(a == b)),
{
}

/// Values of two kinds are not equal. Of two numbers, an integer and a
/// floating-point number, the host decides.
pub proof fn law_equal_across_kinds(a: Value, b: Value)
    requires
        !same_kind(a, b),
        !(is_number(a) && is_number(b)),
    ensures
        equal(a, b) == Computed::Value(Value::Boolean(false)),
{
}

/// The machine never goes back: after an instruction that does not end
/// the run, its place is behind that instruction, and within the code or
/// at its end.
pub proof fn law_forward(machine: Machine, chunk: Bytecode)
    ensures
        match machine.instruction(chunk) {
            Outcome::Continue(next) => machine.ip < next.ip <= chunk.code.len(),
            Outcome::Print(next, _) => machine.ip < next.ip <= chunk.code.len(),
            Outcome::Ask(next, _) => machine.ip < next.ip <= chunk.code.len(),
            _ => true,
        },
{
}

/// A jump on a condition that the topmost value meets is taken: the
/// machine goes on at the target of the jump, with its stack as it is, and
/// so passes over all that stands between the jump and its target.
pub proof fn law_jump_taken(machine: Machine, chunk: Bytecode, truth: bool)
    requires
        machine.waiting == Waiting::Nothing,
        0 <= machine.ip,
        machine.ip + 2 < chunk.code.len(),
        OpCode::decode(chunk.code[machine.ip]) == if truth {
            OpCode::JmpIfTrue
        } else {
            OpCode::JmpIfFalse
        },
        machine.ip < chunk.address(machine.ip + 1) < chunk.code.len(),
        machine.stack.len() >= 1,
        machine.stack.last() == Value::Boolean(truth),
    ensures
        machine.instruction(chunk) == Outcome::Continue(
            Machine { ip: chunk.address(machine.ip + 1), ..machine },
        ),
{
}

/// A jump on a condition that the topmost value, a truth value, does not
/// meet is not taken: the machine goes on behind the jump.
pub proof fn law_jump_passed(machine: Machine, chunk: Bytecode, truth: bool)
    requires
        machine.waiting == Waiting::Nothing,
        0 <= machine.ip,
        machine.ip + 2 < chunk.code.len(),
        OpCode::decode(chunk.code[machine.ip]) == if truth {
            OpCode::JmpIfTrue
        } else {
            OpCode::JmpIfFalse
        },
        machine.ip < chunk.address(machine.ip + 1) < chunk.code.len(),
        machine.stack.len() >= 1,
        machine.stack.last() == Value::Boolean(!truth),
    ensures
        machine.instruction(chunk) == Outcome::Continue(Machine { ip: machine.ip + 3, ..machine }),
{
}

/// The stack holds no more values than its size: a value goes on a stack
/// that holds fewer, and on a full stack the push fails with a stack
/// overflow.
pub proof fn law_stack_bound(machine: Machine, value: Value)
    ensures
        machine.stack.len() < STACK_SIZE ==> machine.push(value) == Outcome::Continue(
            Machine { stack: machine.stack.push(value), ..machine },
        ),
        machine.stack.len() >= STACK_SIZE ==> machine.push(value) == Outcome::Fail(
            ExecutionFault::StackOverflow,
        ),
{
}

} // verus!
