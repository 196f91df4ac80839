//! The virtual machine: a stack machine that runs a chunk.
//!
//! What it makes of a chunk is defined in [`super::machine`].
use super::chunk::{Bytecode, Chunk, Constant};
use super::error::{ExecutionError, ExecutionFault};
use super::machine::{
    arithmetic, bitwise, bitwise_not, comparison, equal, go, integer_arithmetic, magnitude, negate,
    not, printed, quotient, resume, run, served, Computed, Halt, Machine, Number, Outcome, Reply,
    ReplyView, Request, Step, Waiting, SIGN_BIT, STACK_SIZE,
};
use super::op_code::OpCode;
use crate::environment::Environment;
use crate::scripting_value::{text_of, ScriptingValue, Value};
use vstd::prelude::*;
use vstd::string::{StrSliceExecFns, StringExecFns};

verus! {

/// What an operation on values comes to.
#[derive(Debug)]
pub enum Evaluated {
    /// A value, which goes on the stack.
    Value(ScriptingValue),
    /// A request to the host. Before the machine stops, `keep` goes on the
    /// stack, if there is one.
    Ask { request: Request, waiting: Waiting, keep: Option<ScriptingValue> },
}

/// What the result of an operation holds, as plain values.
pub open spec fn evaluated(result: Result<Evaluated, ExecutionError>) -> Computed {
    match result {
        Ok(Evaluated::Value(value)) => Computed::Value(value@),
        Ok(Evaluated::Ask { request, waiting, keep }) => Computed::Ask {
            request: request@,
            waiting,
            keep: match keep {
                Some(value) => Some(value@),
                None => None,
            },
        },
        Err(error) => Computed::Fail(error@),
    }
}

/// What the machine does after an instruction.
#[derive(Debug)]
pub enum Flow {
    /// It goes on.
    Continue,
    /// It prints the text on a line of its own, and goes on.
    Print(String),
    /// It stops with the request.
    Ask(Request),
    /// It has run to the end of the chunk, with this value.
    Finish(ScriptingValue),
}

/// What an instruction did, as plain values.
pub open spec fn outcome(result: Result<Flow, ExecutionError>, machine: Machine) -> Outcome {
    match result {
        Ok(Flow::Continue) => Outcome::Continue(machine),
        Ok(Flow::Print(text)) => Outcome::Print(machine, text@),
        Ok(Flow::Ask(request)) => Outcome::Ask(machine, request@),
        Ok(Flow::Finish(value)) => Outcome::Finish(machine, value@),
        Err(error) => Outcome::Fail(error@),
    }
}

/// Whether a run ended as its definition says: with what is printed, and
/// with the step and the state of the machine, or with the error.
pub open spec fn ends(
    result: Result<Step, ExecutionError>,
    machine: Machine,
    out: Seq<u8>,
    halt: Halt,
) -> bool {
    &&& out == halt.out
    &&& match halt.result {
        Ok(step) => result matches Ok(s) && s@ == step && machine == halt.machine,
        Err(fault) => result matches Err(error) && error@ == fault,
    }
}

/// A number as an operand of an operation on floating-point numbers.
fn operand(value: &ScriptingValue) -> (n: Number)
    ensures
        n == super::machine::number(value@),
{
    match value {
        ScriptingValue::Float64(bits) => Number::Float(*bits),
        ScriptingValue::Int64(i) => Number::Int(*i),
        _ => Number::Int(0),
    }
}

/// Whether a value is a number.
fn numeric(value: &ScriptingValue) -> (yes: bool)
    ensures
        yes == super::machine::is_number(value@),
{
    match value {
        ScriptingValue::Float64(_) => true,
        ScriptingValue::Int64(_) => true,
        _ => false,
    }
}

/// `a == b`.
pub fn equal_values(a: &ScriptingValue, b: &ScriptingValue) -> (result: Result<
    Evaluated,
    ExecutionError,
>)
    ensures
        evaluated(result) == equal(a@, b@),
{
    match (a, b) {
        (ScriptingValue::Boolean(x), ScriptingValue::Boolean(y)) => Ok(
            Evaluated::Value(ScriptingValue::Boolean(*x == *y)),
        ),
        (ScriptingValue::Int64(x), ScriptingValue::Int64(y)) => Ok(
            Evaluated::Value(ScriptingValue::Boolean(*x == *y)),
        ),
        (ScriptingValue::String(x), ScriptingValue::String(y)) => Ok(
            Evaluated::Value(ScriptingValue::Boolean(*x == *y)),
        ),
        (ScriptingValue::Nil(), ScriptingValue::Nil()) => Ok(
            Evaluated::Value(ScriptingValue::Boolean(true)),
        ),
        _ => if numeric(a) && numeric(b) {
            Ok(
                Evaluated::Ask {
                    request: Request::Equal { left: operand(a), right: operand(b) },
                    waiting: Waiting::Truth,
                    keep: None,
                },
            )
        } else {
            Ok(Evaluated::Value(ScriptingValue::Boolean(false)))
        },
    }
}

/// `a > b` and `a < b`.
pub fn compare_values(operator: OpCode, a: &ScriptingValue, b: &ScriptingValue) -> (result: Result<
    Evaluated,
    ExecutionError,
>)
    ensures
        evaluated(result) == comparison(operator, a@, b@),
{
    let greater = match operator {
        OpCode::Greater => true,
        OpCode::Less => false,
        _ => {
            return Err(ExecutionError::Unreachable);
        },
    };
    match (a, b) {
        (ScriptingValue::Int64(x), ScriptingValue::Int64(y)) => Ok(
            Evaluated::Value(
                ScriptingValue::Boolean(
                    if greater {
                        *x > *y
                    } else {
                        *x < *y
                    },
                ),
            ),
        ),
        _ => if numeric(a) && numeric(b) {
            Ok(
                Evaluated::Ask {
                    request: Request::Compare { operator, left: operand(a), right: operand(b) },
                    waiting: Waiting::Truth,
                    keep: None,
                },
            )
        } else {
            Err(ExecutionError::NoComparison)
        },
    }
}

/// The distance of an integer from zero.
fn magnitude_of(i: i64) -> (m: u64)
    ensures
        m == magnitude(i),
{
    if i < 0 {
        ((-(i + 1)) as u64) + 1
    } else {
        i as u64
    }
}

/// The quotient of two integers, rounded towards zero.
fn divide(a: i64, b: i64) -> (q: i64)
    requires
        b != 0,
    ensures
        q == quotient(a, b),
{
    let q: u64 = magnitude_of(a) / magnitude_of(b);
    assert(q <= magnitude(a)) by (nonlinear_arith)
        requires
            q == magnitude(a) / magnitude(b),
            magnitude(b) >= 1,
    ;
    if (a < 0) != (b < 0) {
        if q == 0 {
            0
        } else {
            (-((q - 1) as i64)) - 1
        }
    } else if q > 0x7fff_ffff_ffff_ffff {
        i64::MIN
    } else {
        q as i64
    }
}

/// `a + b`, `a - b`, `a * b` and `a / b` on integers.
pub fn integer_operation(operator: OpCode, x: i64, y: i64) -> (result: Result<
    Evaluated,
    ExecutionError,
>)
    ensures
        evaluated(result) == integer_arithmetic(operator, x, y),
{
    match operator {
        OpCode::Add => Ok(Evaluated::Value(ScriptingValue::Int64(x.wrapping_add(y)))),
        OpCode::Subtract => Ok(Evaluated::Value(ScriptingValue::Int64(x.wrapping_sub(y)))),
        OpCode::Multiply => Ok(Evaluated::Value(ScriptingValue::Int64(x.wrapping_mul(y)))),
        OpCode::Divide => if y == 0 {
            Err(ExecutionError::DivisionByZero)
        } else {
            Ok(Evaluated::Value(ScriptingValue::Int64(divide(x, y))))
        },
        _ => Err(ExecutionError::Unreachable),
    }
}

/// `a + b`, `a - b`, `a * b` and `a / b`.
pub fn arithmetic_values(operator: OpCode, a: ScriptingValue, b: ScriptingValue) -> (result: Result<
    Evaluated,
    ExecutionError,
>)
    ensures
        evaluated(result) == arithmetic(operator, a@, b@),
{
    let adds = match operator {
        OpCode::Add => true,
        _ => false,
    };
    match (a, b) {
        (ScriptingValue::Int64(x), ScriptingValue::Int64(y)) => integer_operation(operator, x, y),
        (ScriptingValue::String(text), b) => {
            if !adds {
                Err(ExecutionError::OnlyAdd)
            } else {
                match b {
                    ScriptingValue::Float64(bits) => Ok(
                        Evaluated::Ask {
                            request: Request::Show { bits },
                            waiting: Waiting::JoinAfter,
                            keep: Some(ScriptingValue::String(text)),
                        },
                    ),
                    b => {
                        let shown = text_of(&b);
                        Ok(Evaluated::Value(ScriptingValue::String(text.concat(shown.as_str()))))
                    },
                }
            }
        },
        (a, ScriptingValue::String(text)) => {
            if !adds {
                Err(ExecutionError::OnlyAdd)
            } else {
                match a {
                    ScriptingValue::Float64(bits) => Ok(
                        Evaluated::Ask {
                            request: Request::Show { bits },
                            waiting: Waiting::JoinBefore,
                            keep: Some(ScriptingValue::String(text)),
                        },
                    ),
                    a => {
                        let shown = text_of(&a);
                        Ok(Evaluated::Value(ScriptingValue::String(shown.concat(text.as_str()))))
                    },
                }
            }
        },
        (a, b) => {
            if numeric(&a) && numeric(&b) {
                match operator {
                    OpCode::Add | OpCode::Subtract | OpCode::Multiply | OpCode::Divide => Ok(
                        Evaluated::Ask {
                            request: Request::Arithmetic {
                                operator,
                                left: operand(&a),
                                right: operand(&b),
                            },
                            waiting: Waiting::Number,
                            keep: None,
                        },
                    ),
                    _ => Err(ExecutionError::Unreachable),
                }
            } else {
                match (a, b) {
                    (ScriptingValue::Nil(), _) => Err(ExecutionError::NilValue),
                    (_, ScriptingValue::Nil()) => Err(ExecutionError::NilValue),
                    _ => Err(ExecutionError::BoolNoArithmetic),
                }
            }
        },
    }
}

/// `a & b`, `a | b` and `a ^ b`.
pub fn bitwise_values(operator: OpCode, a: ScriptingValue, b: ScriptingValue) -> (result: Result<
    Evaluated,
    ExecutionError,
>)
    ensures
        evaluated(result) == bitwise(operator, a@, b@),
{
    match (a, b) {
        (ScriptingValue::Int64(x), ScriptingValue::Int64(y)) => match operator {
            OpCode::BitwiseAnd => Ok(Evaluated::Value(ScriptingValue::Int64(x & y))),
            OpCode::BitwiseOr => Ok(Evaluated::Value(ScriptingValue::Int64(x | y))),
            OpCode::BitwiseXor => Ok(Evaluated::Value(ScriptingValue::Int64(x ^ y))),
            _ => Err(ExecutionError::Unreachable),
        },
        (ScriptingValue::Int64(_), b) => Err(ExecutionError::NoInteger { value: b }),
        (a, _) => Err(ExecutionError::NoInteger { value: a }),
    }
}

/// `- a`.
pub fn negate_value(a: ScriptingValue) -> (result: Result<Evaluated, ExecutionError>)
    ensures
        evaluated(result) == negate(a@),
{
    match a {
        ScriptingValue::Int64(x) => Ok(Evaluated::Value(ScriptingValue::Int64(0i64.wrapping_sub(x)))),
        ScriptingValue::Float64(bits) => Ok(
            Evaluated::Value(ScriptingValue::Float64(bits ^ SIGN_BIT)),
        ),
        a => Err(ExecutionError::NoNumber { value: a }),
    }
}

/// `~ a`.
pub fn bitwise_not_value(a: ScriptingValue) -> (result: Result<Evaluated, ExecutionError>)
    ensures
        evaluated(result) == bitwise_not(a@),
{
    match a {
        ScriptingValue::Int64(x) => Ok(Evaluated::Value(ScriptingValue::Int64(!x))),
        a => Err(ExecutionError::NoNumber { value: a }),
    }
}

/// `! a`.
pub fn not_value(a: &ScriptingValue) -> (result: Result<Evaluated, ExecutionError>)
    ensures
        evaluated(result) == not(a@),
{
    match a {
        ScriptingValue::Boolean(truth) => Ok(Evaluated::Value(ScriptingValue::Boolean(!*truth))),
        ScriptingValue::Nil() => Ok(Evaluated::Value(ScriptingValue::Boolean(true))),
        _ => Ok(Evaluated::Value(ScriptingValue::Boolean(false))),
    }
}

/// A stack machine. Its stack holds no more than [`STACK_SIZE`] values.
#[derive(Debug)]
pub struct VM {
    /// The place of the next instruction.
    ip: usize,
    /// The values that the instructions work on.
    stack: Vec<ScriptingValue>,
    /// What the machine waits for, if it is stopped.
    waiting: Waiting,
}

impl View for VM {
    type V = Machine;

    closed spec fn view(&self) -> Machine {
        Machine {
            ip: self.ip as int,
            stack: Seq::new(self.stack@.len(), |i: int| self.stack@[i]@),
            waiting: self.waiting,
        }
    }
}

impl Default for VM {
    fn default() -> (vm: VM)
        ensures
            vm@ == Machine::start(),
    {
        let vm = VM { ip: 0, stack: Vec::with_capacity(STACK_SIZE), waiting: Waiting::Nothing };
        assert(vm@.stack =~= Seq::empty());
        vm
    }
}

impl VM {
    /// Puts the machine before the first instruction, with an empty stack.
    fn reset(&mut self)
        ensures
            final(self)@ == Machine::start(),
    {
        self.ip = 0;
        self.stack.clear();
        self.waiting = Waiting::Nothing;
        assert(self@.stack =~= Seq::empty());
    }

    /// The value that is `distance` places below the top of the stack.
    pub fn peek(&self, distance: usize) -> (value: Option<&ScriptingValue>)
        ensures
            match value {
                Some(v) => distance < self@.stack.len() && v@ == self@.peek(distance as nat),
                None => distance >= self@.stack.len(),
            },
    {
        let n = self.stack.len();
        if distance < n {
            Some(&self.stack[n - 1 - distance])
        } else {
            None
        }
    }

    /// Puts a value on the stack, if the stack has room for it.
    pub fn push(&mut self, value: ScriptingValue) -> (result: Result<(), ExecutionError>)
        ensures
            match old(self)@.push(value@) {
                Outcome::Continue(machine) => result is Ok && final(self)@ == machine,
                _ => {
                    &&& result matches Err(error) && error@ == ExecutionFault::StackOverflow
                    &&& final(self)@ == old(self)@
                },
            },
    {
        if self.stack.len() < STACK_SIZE {
            self.stack.push(value);
            assert(self@.stack =~= old(self)@.stack.push(value@));
            Ok(())
        } else {
            Err(ExecutionError::StackOverflow)
        }
    }

    /// Takes the topmost value from the stack, if there is one.
    pub fn pop(&mut self) -> (value: Option<ScriptingValue>)
        ensures
            match value {
                Some(v) => {
                    &&& old(self)@.stack.len() >= 1
                    &&& v@ == old(self)@.peek(0)
                    &&& final(self)@ == old(self)@.dropped(1)
                },
                None => old(self)@.stack.len() == 0 && final(self)@ == old(self)@,
            },
    {
        let value = self.stack.pop();
        proof {
            if value is Some {
                assert(self@.stack =~= old(self)@.dropped(1).stack);
            } else {
                assert(self@.stack =~= old(self)@.stack);
            }
        }
        value
    }

    /// The place that the two bytes at the place of the machine name; the
    /// machine passes them.
    fn read_jmp_address(&mut self, chunk: &Chunk) -> (target: Option<usize>)
        ensures
            match target {
                Some(t) => {
                    &&& old(self)@.ip + 1 < chunk@.code.len()
                    &&& t == chunk@.address(old(self)@.ip)
                    &&& final(self)@ == (Machine { ip: old(self)@.ip + 2, ..old(self)@ })
                },
                None => !(old(self)@.ip + 1 < chunk@.code.len()) && final(self)@ == old(self)@,
            },
    {
        let code = chunk.code();
        if self.ip < code.len() && self.ip + 1 < code.len() {
            let byte1 = code[self.ip];
            let byte2 = code[self.ip + 1];
            self.ip = self.ip + 2;
            Some((byte1 as usize) * 256 + (byte2 as usize))
        } else {
            None
        }
    }

    /// What the machine does with the result of an operation.
    fn apply(&mut self, computed: Result<Evaluated, ExecutionError>) -> (result: Result<
        Flow,
        ExecutionError,
    >)
        ensures
            outcome(result, final(self)@) == old(self)@.apply(evaluated(computed)),
    {
        match computed {
            Err(error) => Err(error),
            Ok(Evaluated::Value(value)) => match self.push(value) {
                Ok(()) => Ok(Flow::Continue),
                Err(error) => Err(error),
            },
            Ok(Evaluated::Ask { request, waiting, keep }) => {
                match keep {
                    Some(value) => match self.push(value) {
                        Ok(()) => {},
                        Err(error) => {
                            return Err(error);
                        },
                    },
                    None => {},
                }
                self.waiting = waiting;
                Ok(Flow::Ask(request))
            },
        }
    }

    /// `a + b`, `a - b`, `a * b` and `a / b` on the two topmost values.
    fn arithmetic_operator(&mut self, operator: OpCode) -> (result: Result<Flow, ExecutionError>)
        requires
            operator == OpCode::Add || operator == OpCode::Subtract || operator == OpCode::Multiply
                || operator == OpCode::Divide,
        ensures
            outcome(result, final(self)@) == old(self)@.binary(operator),
    {
        let b = self.pop();
        let a = self.pop();
        match (a, b) {
            (Some(a), Some(b)) => {
                assert(self@ == old(self)@.dropped(2)) by {
                    assert(self@.stack =~= old(self)@.dropped(2).stack);
                }
                self.apply(arithmetic_values(operator, a, b))
            },
            _ => Err(ExecutionError::Unreachable),
        }
    }

    /// `a & b`, `a | b` and `a ^ b` on the two topmost values.
    fn bitwise_operator(&mut self, operator: OpCode) -> (result: Result<Flow, ExecutionError>)
        requires
            operator == OpCode::BitwiseAnd || operator == OpCode::BitwiseOr || operator
                == OpCode::BitwiseXor,
        ensures
            outcome(result, final(self)@) == old(self)@.binary(operator),
    {
        let b = self.pop();
        let a = self.pop();
        match (a, b) {
            (Some(a), Some(b)) => {
                assert(self@ == old(self)@.dropped(2)) by {
                    assert(self@.stack =~= old(self)@.dropped(2).stack);
                }
                self.apply(bitwise_values(operator, a, b))
            },
            _ => Err(ExecutionError::Unreachable),
        }
    }

    /// `a > b` and `a < b` on the two topmost values.
    fn comparison_operator(&mut self, operator: OpCode) -> (result: Result<Flow, ExecutionError>)
        requires
            operator == OpCode::Greater || operator == OpCode::Less,
        ensures
            outcome(result, final(self)@) == old(self)@.binary(operator),
    {
        let b = self.pop();
        let a = self.pop();
        match (a, b) {
            (Some(a), Some(b)) => {
                assert(self@ == old(self)@.dropped(2)) by {
                    assert(self@.stack =~= old(self)@.dropped(2).stack);
                }
                self.apply(compare_values(operator, &a, &b))
            },
            _ => Err(ExecutionError::Unreachable),
        }
    }

    /// `a == b` on the two topmost values.
    fn equal(&mut self) -> (result: Result<Flow, ExecutionError>)
        ensures
            outcome(result, final(self)@) == old(self)@.binary(OpCode::Equal),
    {
        let b = self.pop();
        let a = self.pop();
        match (a, b) {
            (Some(a), Some(b)) => {
                assert(self@ == old(self)@.dropped(2)) by {
                    assert(self@.stack =~= old(self)@.dropped(2).stack);
                }
                self.apply(equal_values(&a, &b))
            },
            _ => Err(ExecutionError::Unreachable),
        }
    }

    /// `- a` on the topmost value.
    fn negate(&mut self) -> (result: Result<Flow, ExecutionError>)
        ensures
            outcome(result, final(self)@) == old(self)@.unary(OpCode::Negate),
    {
        match self.pop() {
            Some(a) => self.apply(negate_value(a)),
            None => Err(ExecutionError::Unreachable),
        }
    }

    /// `~ a` on the topmost value.
    fn bitwise_not(&mut self) -> (result: Result<Flow, ExecutionError>)
        ensures
            outcome(result, final(self)@) == old(self)@.unary(OpCode::BitwiseNot),
    {
        match self.pop() {
            Some(a) => self.apply(bitwise_not_value(a)),
            None => Err(ExecutionError::Unreachable),
        }
    }

    /// `! a` on the topmost value.
    fn not(&mut self) -> (result: Result<Flow, ExecutionError>)
        ensures
            outcome(result, final(self)@) == old(self)@.unary(OpCode::Not),
    {
        match self.pop() {
            Some(a) => self.apply(not_value(&a)),
            None => Err(ExecutionError::Unreachable),
        }
    }

    /// `Print`.
    fn print(&mut self) -> (result: Result<Flow, ExecutionError>)
        ensures
            outcome(result, final(self)@) == old(self)@.print(),
    {
        match self.pop() {
            Some(ScriptingValue::Float64(bits)) => {
                self.waiting = Waiting::Print;
                Ok(Flow::Ask(Request::Show { bits }))
            },
            Some(value) => Ok(Flow::Print(text_of(&value))),
            None => Ok(Flow::Print(String::from_str("no result"))),
        }
    }

    /// An instruction with a constant.
    fn constant(&mut self, chunk: &Chunk, operator: OpCode) -> (result: Result<
        Flow,
        ExecutionError,
    >)
        requires
            operator == OpCode::Constant || operator == OpCode::DefineExternal || operator
                == OpCode::GetExternal || operator == OpCode::SetExternal,
        ensures
            outcome(result, final(self)@) == old(self)@.constant(chunk@, operator),
    {
        let code = chunk.code();
        if !(self.ip < code.len()) {
            return Err(ExecutionError::Unreachable);
        }
        let pos = code[self.ip];
        let constant = match chunk.read_constant(pos) {
            Some(constant) => constant,
            None => {
                return Err(ExecutionError::Unreachable);
            },
        };
        self.ip = self.ip + 1;
        let ghost next = self@;
        match constant {
            Constant::Float(text) => match operator {
                OpCode::Constant => {
                    self.waiting = Waiting::Number;
                    Ok(Flow::Ask(Request::Read { text }))
                },
                _ => Err(ExecutionError::Unreachable),
            },
            Constant::Value(value) => match operator {
                OpCode::Constant => match self.push(value) {
                    Ok(()) => Ok(Flow::Continue),
                    Err(error) => Err(error),
                },
                _ => match value {
                    ScriptingValue::String(name) => match operator {
                        OpCode::GetExternal => {
                            self.waiting = Waiting::Loaded;
                            Ok(Flow::Ask(Request::Get { name }))
                        },
                        OpCode::DefineExternal => match self.pop() {
                            Some(value) => {
                                self.waiting = Waiting::Stored;
                                Ok(Flow::Ask(Request::Define { name, value }))
                            },
                            None => Err(ExecutionError::Unreachable),
                        },
                        _ => match self.pop() {
                            Some(value) => {
                                self.waiting = Waiting::Stored;
                                Ok(Flow::Ask(Request::Assign { name, value }))
                            },
                            None => Err(ExecutionError::Unreachable),
                        },
                    },
                    _ => Err(ExecutionError::Unreachable),
                },
            },
        }
    }

    /// A jump.
    fn jump(&mut self, chunk: &Chunk, operator: OpCode) -> (result: Result<Flow, ExecutionError>)
        requires
            operator == OpCode::Jmp || operator == OpCode::JmpIfTrue || operator
                == OpCode::JmpIfFalse,
        ensures
            outcome(result, final(self)@) == old(self)@.jump(chunk@, operator),
    {
        let at = self.ip;
        let target = match self.read_jmp_address(chunk) {
            Some(target) => target,
            None => {
                return Err(ExecutionError::Unreachable);
            },
        };
        if !(at <= target && target < chunk.len()) {
            return Err(ExecutionError::Unreachable);
        }
        let wanted = match operator {
            OpCode::Jmp => {
                self.ip = target;
                return Ok(Flow::Continue);
            },
            OpCode::JmpIfTrue => true,
            _ => false,
        };
        match self.peek(0) {
            None => Err(ExecutionError::Unreachable),
            Some(ScriptingValue::Boolean(truth)) => {
                if *truth == wanted {
                    self.ip = target;
                }
                Ok(Flow::Continue)
            },
            Some(other) => Err(ExecutionError::NoBoolean { value: other.clone() }),
        }
    }

    /// Runs the instruction at the place of the machine.
    fn step(&mut self, chunk: &Chunk) -> (result: Result<Flow, ExecutionError>)
        ensures
            outcome(result, final(self)@) == old(self)@.instruction(chunk@),
            result is Ok ==> old(self)@.ip < final(self)@.ip <= chunk@.code.len(),
    {
        let code = chunk.code();
        if !(self.ip < code.len()) {
            return Err(ExecutionError::Unreachable);
        }
        match self.waiting {
            Waiting::Nothing => {},
            _ => {
                return Err(ExecutionError::Unreachable);
            },
        }
        let instruction = OpCode::from(code[self.ip]);
        self.ip = self.ip + 1;
        match instruction {
            OpCode::Add | OpCode::Divide | OpCode::Multiply | OpCode::Subtract => {
                self.arithmetic_operator(instruction)
            },
            OpCode::BitwiseAnd | OpCode::BitwiseOr | OpCode::BitwiseXor => self.bitwise_operator(
                instruction,
            ),
            OpCode::BitwiseNot => self.bitwise_not(),
            OpCode::Constant
            | OpCode::DefineExternal
            | OpCode::GetExternal
            | OpCode::SetExternal => self.constant(chunk, instruction),
            OpCode::Equal => self.equal(),
            OpCode::False => match self.push(ScriptingValue::Boolean(false)) {
                Ok(()) => Ok(Flow::Continue),
                Err(error) => Err(error),
            },
            OpCode::Greater | OpCode::Less => self.comparison_operator(instruction),
            OpCode::Jmp | OpCode::JmpIfFalse | OpCode::JmpIfTrue => self.jump(chunk, instruction),
            OpCode::Negate => self.negate(),
            OpCode::Nil => match self.push(ScriptingValue::nil()) {
                Ok(()) => Ok(Flow::Continue),
                Err(error) => Err(error),
            },
            OpCode::Not => self.not(),
            OpCode::Pop => match self.pop() {
                Some(_) => Ok(Flow::Continue),
                None => Err(ExecutionError::Unreachable),
            },
            OpCode::Print => self.print(),
            OpCode::Return => match self.pop() {
                Some(value) => Ok(Flow::Finish(value)),
                None => Ok(Flow::Finish(ScriptingValue::nil())),
            },
            OpCode::True => match self.push(ScriptingValue::Boolean(true)) {
                Ok(()) => Ok(Flow::Continue),
                Err(error) => Err(error),
            },
            OpCode::NoOperation => Err(ExecutionError::Unreachable),
        }
    }

    /// Takes the reply to the request that the machine is stopped with.
    fn deliver(&mut self, reply: Reply) -> (result: Result<Flow, ExecutionError>)
        ensures
            outcome(result, final(self)@) == old(self)@.deliver(reply@),
            final(self)@.ip == old(self)@.ip,
    {
        let waiting = self.waiting;
        self.waiting = Waiting::Nothing;
        match (waiting, reply) {
            (Waiting::Stored, Reply::Done) => Ok(Flow::Continue),
            (Waiting::Stored, Reply::Failed(source)) => Err(ExecutionError::Environment { source }),
            (Waiting::Loaded, Reply::Value(value)) => match self.push(value) {
                Ok(()) => Ok(Flow::Continue),
                Err(error) => Err(error),
            },
            (Waiting::Loaded, Reply::Failed(source)) => Err(ExecutionError::Environment { source }),
            (Waiting::Number, Reply::Number(bits)) => match self.push(ScriptingValue::Float64(bits)) {
                Ok(()) => Ok(Flow::Continue),
                Err(error) => Err(error),
            },
            (Waiting::Truth, Reply::Truth(truth)) => match self.push(ScriptingValue::Boolean(truth)) {
                Ok(()) => Ok(Flow::Continue),
                Err(error) => Err(error),
            },
            (Waiting::Print, Reply::Text(text)) => Ok(Flow::Print(text)),
            (Waiting::JoinAfter, Reply::Text(text)) => match self.pop() {
                Some(ScriptingValue::String(left)) => match self.push(
                    ScriptingValue::String(left.concat(text.as_str())),
                ) {
                    Ok(()) => Ok(Flow::Continue),
                    Err(error) => Err(error),
                },
                _ => Err(ExecutionError::Unreachable),
            },
            (Waiting::JoinBefore, Reply::Text(text)) => match self.pop() {
                Some(ScriptingValue::String(right)) => match self.push(
                    ScriptingValue::String(text.concat(right.as_str())),
                ) {
                    Ok(()) => Ok(Flow::Continue),
                    Err(error) => Err(error),
                },
                _ => Err(ExecutionError::Unreachable),
            },
            _ => Err(ExecutionError::Unreachable),
        }
    }

    /// Writes a text and a line feed to the output.
    fn write_line(text: &String, stdout: &mut Vec<u8>)
        ensures
            final(stdout)@ == printed(old(stdout)@, text@),
    {
        let mut bytes = text.as_str().as_bytes_vec();
        stdout.append(&mut bytes);
        stdout.push(10u8);
    }

    /// Goes on from the place of the machine, instruction by instruction,
    /// until the machine stops, finishes or fails.
    fn go(&mut self, chunk: &Chunk, stdout: &mut Vec<u8>) -> (result: Result<Step, ExecutionError>)
        ensures
            ends(result, final(self)@, final(stdout)@, go(chunk@, old(self)@, old(stdout)@)),
            result matches Ok(Step::Waiting(_)) ==> old(self)@.ip < final(self)@.ip
                <= chunk@.code.len(),
    {
        loop
            invariant
                go(chunk@, old(self)@, old(stdout)@) == go(chunk@, self@, stdout@),
                self@.ip >= old(self)@.ip,
            decreases chunk@.code.len() - self@.ip,
        {
            if !(self.ip < chunk.len()) {
                return Err(ExecutionError::Unreachable);
            }
            let ghost before = self@;
            let ghost out = stdout@;
            match self.step(chunk) {
                Ok(Flow::Continue) => {
                    assert(go(chunk@, before, out) == go(chunk@, self@, out));
                },
                Ok(Flow::Print(text)) => {
                    VM::write_line(&text, stdout);
                    assert(go(chunk@, before, out) == go(chunk@, self@, stdout@));
                },
                Ok(Flow::Ask(request)) => {
                    return Ok(Step::Waiting(request));
                },
                Ok(Flow::Finish(value)) => {
                    return Ok(Step::Finished(value));
                },
                Err(error) => {
                    return Err(error);
                },
            }
        }
    }

    /// Runs a chunk from its start, up to its end or to the first request.
    pub fn start(&mut self, chunk: &Chunk, stdout: &mut Vec<u8>) -> (result: Result<
        Step,
        ExecutionError,
    >)
        ensures
            ends(result, final(self)@, final(stdout)@, run(chunk@, old(stdout)@)),
            result matches Ok(Step::Waiting(_)) ==> final(self)@.ip <= chunk@.code.len(),
    {
        self.reset();
        if chunk.len() == 0 {
            return Ok(Step::Finished(ScriptingValue::nil()));
        }
        self.go(chunk, stdout)
    }

    /// Goes on with a chunk after the reply to the request that the
    /// machine is stopped with, up to the end of the chunk or to the next
    /// request.
    pub fn resume(&mut self, chunk: &Chunk, stdout: &mut Vec<u8>, reply: Reply) -> (result: Result<
        Step,
        ExecutionError,
    >)
        ensures
            ends(
                result,
                final(self)@,
                final(stdout)@,
                resume(chunk@, old(self)@, old(stdout)@, reply@),
            ),
            result matches Ok(Step::Waiting(_)) ==> old(self)@.ip < final(self)@.ip
                <= chunk@.code.len(),
    {
        match self.deliver(reply) {
            Ok(Flow::Continue) => self.go(chunk, stdout),
            Ok(Flow::Print(text)) => {
                VM::write_line(&text, stdout);
                self.go(chunk, stdout)
            },
            Ok(Flow::Ask(request)) => Ok(Step::Waiting(request)),
            Ok(Flow::Finish(value)) => Ok(Step::Finished(value)),
            Err(error) => Err(error),
        }
    }

    /// Runs a chunk from its start, with the variables of `globals`, up to
    /// its end or to the first request that is not for the variables.
    ///
    /// The run is that of the machine, in which `globals` answers the
    /// requests for variables, one after the other.
    pub fn run<E: Environment>(
        &mut self,
        chunk: &Chunk,
        globals: &mut E,
        stdout: &mut Vec<u8>,
    ) -> (result: Result<Step, ExecutionError>)
        ensures
            runs_with(
                result,
                final(self)@,
                final(stdout)@,
                chunk@,
                run(chunk@, old(stdout)@),
                *old(globals),
                *final(globals),
            ),
            result matches Ok(Step::Waiting(request)) ==> !request@.for_store(),
    {
        let first = self.start(chunk, stdout);
        self.serve(chunk, globals, stdout, first, Ghost(run(chunk@, old(stdout)@)))
    }

    /// Goes on with a chunk after the reply to the request that the
    /// machine is stopped with, with the variables of `globals`, up to the
    /// end of the chunk or to the next request that is not for the
    /// variables.
    pub fn answer<E: Environment>(
        &mut self,
        chunk: &Chunk,
        globals: &mut E,
        stdout: &mut Vec<u8>,
        reply: Reply,
    ) -> (result: Result<Step, ExecutionError>)
        ensures
            runs_with(
                result,
                final(self)@,
                final(stdout)@,
                chunk@,
                resume(chunk@, old(self)@, old(stdout)@, reply@),
                *old(globals),
                *final(globals),
            ),
            result matches Ok(Step::Waiting(request)) ==> !request@.for_store(),
    {
        let ghost first = resume(chunk@, self@, stdout@, reply@);
        let next = self.resume(chunk, stdout, reply);
        self.serve(chunk, globals, stdout, next, Ghost(first))
    }

    /// Answers the requests for variables from `globals`, until the run
    /// ends or stops with another request.
    fn serve<E: Environment>(
        &mut self,
        chunk: &Chunk,
        globals: &mut E,
        stdout: &mut Vec<u8>,
        step: Result<Step, ExecutionError>,
        Ghost(first): Ghost<Halt>,
    ) -> (result: Result<Step, ExecutionError>)
        requires
            ends(step, old(self)@, old(stdout)@, first),
            step matches Ok(Step::Waiting(_)) ==> old(self)@.ip <= chunk@.code.len(),
        ensures
            runs_with(
                result,
                final(self)@,
                final(stdout)@,
                chunk@,
                first,
                *old(globals),
                *final(globals),
            ),
            result matches Ok(Step::Waiting(request)) ==> !request@.for_store(),
    {
        let mut step = step;
        let ghost mut replies: Seq<ReplyView> = Seq::empty();
        let ghost mut stores: Seq<E> = seq![*globals];
        loop
            invariant
                answered(chunk@, first, replies, stores),
                stores.first() == *old(globals),
                stores.last() == *globals,
                ends(step, self@, stdout@, served(chunk@, first, replies)),
                step matches Ok(Step::Waiting(_)) ==> self@.ip <= chunk@.code.len(),
            decreases
                    if step matches Ok(Step::Waiting(_)) {
                        chunk@.code.len() - self@.ip + 1
                    } else {
                        0
                    },
        {
            let ghost here = served(chunk@, first, replies);
            let ghost store = *globals;
            let reply = match step {
                Ok(Step::Waiting(Request::Define { name, value })) => {
                    match globals.define_env(name.as_str(), value) {
                        Ok(()) => Reply::Done,
                        Err(error) => Reply::Failed(error),
                    }
                },
                Ok(Step::Waiting(Request::Get { name })) => {
                    match globals.get_env(name.as_str()) {
                        Ok(value) => Reply::Value(value),
                        Err(error) => Reply::Failed(error),
                    }
                },
                Ok(Step::Waiting(Request::Assign { name, value })) => {
                    match globals.set_env(name.as_str(), value) {
                        Ok(()) => Reply::Done,
                        Err(error) => Reply::Failed(error),
                    }
                },
                other => {
                    return other;
                },
            };
            proof {
                assert(here.asks_store());
                assert(store.serves(here.result->Ok_0->Waiting_0, reply@, globals));
                let longer = replies.push(reply@);
                let grown = stores.push(*globals);
                assert(longer.drop_last() == replies);
                assert forall|i: int| 0 <= i < longer.len() implies {
                    let before = served(chunk@, first, #[trigger] longer.take(i));
                    &&& longer[i].from_store()
                    &&& before.asks_store()
                    &&& grown[i].serves(before.result->Ok_0->Waiting_0, longer[i], &grown[i + 1])
                } by {
                    if i < replies.len() {
                        assert(longer.take(i) == replies.take(i));
                    } else {
                        assert(longer.take(i) == replies);
                    }
                }
                replies = longer;
                stores = grown;
            }
            step = self.resume(chunk, stdout, reply);
        }
    }
}

/// Whether a store gave the replies, one after the other, to the requests
/// for variables that a run made, and went through the states `stores` by
/// it, from the first of them to the last.
pub open spec fn answered<E: Environment>(
    chunk: Bytecode,
    first: Halt,
    replies: Seq<ReplyView>,
    stores: Seq<E>,
) -> bool {
    &&& stores.len() == replies.len() + 1
    &&& forall|i: int|
        0 <= i < replies.len() ==> {
            let before = served(chunk, first, #[trigger] replies.take(i));
            &&& replies[i].from_store()
            &&& before.asks_store()
            &&& stores[i].serves(before.result->Ok_0->Waiting_0, replies[i], &stores[i + 1])
        }
}

/// Whether a run ended as the run `first` of the machine ends in which a
/// store answers the requests for variables, and the store went from
/// `before` to `after` by it.
pub open spec fn runs_with<E: Environment>(
    result: Result<Step, ExecutionError>,
    machine: Machine,
    out: Seq<u8>,
    chunk: Bytecode,
    first: Halt,
    before: E,
    after: E,
) -> bool {
    exists|replies: Seq<ReplyView>, stores: Seq<E>|
        {
            &&& #[trigger] answered(chunk, first, replies, stores)
            &&& stores.first() == before
            &&& stores.last() == after
            &&& ends(result, machine, out, served(chunk, first, replies))
        }
}

} // verus!
