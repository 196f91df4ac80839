//! What the machine makes of a chunk: the definition that the virtual
//! machine is proved against.
//!
//! The machine computes with integers, truth values and texts. What it
//! cannot do itself it asks for: the variables are the host's, and so is
//! the arithmetic on floating-point numbers. It then stops with a request,
//! and goes on when the [`Reply`] comes.
use super::chunk::{Bytecode, ConstantView};
use super::error::ExecutionFault;
use super::op_code::OpCode;
use crate::environment;
use crate::scripting_value::{display, ScriptingValue, Value};
use vstd::prelude::*;
use vstd::utf8::encode_utf8;

verus! {

/// The most values that the stack of the machine holds.
pub const STACK_SIZE: usize = 8;

/// The sign bit of a floating-point number.
pub const SIGN_BIT: u64 = 0x8000_0000_0000_0000;

/// A number: an integer, or a floating-point number as its bits.
#[derive(Debug, Clone, Copy, PartialEq, Eq, Structural)]
pub enum Number {
    /// A signed 64-bit integer.
    Int(i64),
    /// The bits of a 64-bit floating-point number.
    Float(u64),
}

/// What the machine waits for while it is stopped.
#[derive(Debug, Clone, Copy, PartialEq, Eq, Structural)]
pub enum Waiting {
    /// Nothing: the machine is not stopped.
    Nothing,
    /// That the host has written a variable.
    Stored,
    /// The value of a variable.
    Loaded,
    /// A floating-point number, which goes on the stack.
    Number,
    /// A truth value, which goes on the stack.
    Truth,
    /// The text of a number, which is printed.
    Print,
    /// The text of a number, which goes behind the text on the stack.
    JoinAfter,
    /// The text of a number, which goes before the text on the stack.
    JoinBefore,
}

/// What the machine asks of the host.
#[derive(Debug)]
pub enum Request {
    /// Create the variable `name` with `value`, or overwrite it.
    Define { name: String, value: ScriptingValue },
    /// The value of the variable `name`.
    Get { name: String },
    /// Overwrite the variable `name`, which has to exist, with `value`.
    Assign { name: String, value: ScriptingValue },
    /// The floating-point number that the text stands for.
    Read { text: String },
    /// The sum, difference, product or quotient of two numbers, of which
    /// one at least is a floating-point number; an integer counts as the
    /// floating-point number nearest to it.
    Arithmetic { operator: OpCode, left: Number, right: Number },
    /// Whether `left` is greater or less than `right`.
    Compare { operator: OpCode, left: Number, right: Number },
    /// Whether two numbers are equal: whether they differ by no more than
    /// two parts in a thousand million million.
    Equal { left: Number, right: Number },
    /// The text that shows a floating-point number.
    Show { bits: u64 },
}

/// What a [`Request`] holds, as plain values.
pub enum RequestView {
    Define { name: Seq<char>, value: Value },
    Get { name: Seq<char> },
    Assign { name: Seq<char>, value: Value },
    Read { text: Seq<char> },
    Arithmetic { operator: OpCode, left: Number, right: Number },
    Compare { operator: OpCode, left: Number, right: Number },
    Equal { left: Number, right: Number },
    Show { bits: u64 },
}

impl View for Request {
    type V = RequestView;

    open spec fn view(&self) -> RequestView {
        match self {
            Request::Define { name, value } => RequestView::Define { name: name@, value: value@ },
            Request::Get { name } => RequestView::Get { name: name@ },
            Request::Assign { name, value } => RequestView::Assign { name: name@, value: value@ },
            Request::Read { text } => RequestView::Read { text: text@ },
            Request::Arithmetic { operator, left, right } => RequestView::Arithmetic {
                operator: *operator,
                left: *left,
                right: *right,
            },
            Request::Compare { operator, left, right } => RequestView::Compare {
                operator: *operator,
                left: *left,
                right: *right,
            },
            Request::Equal { left, right } => RequestView::Equal { left: *left, right: *right },
            Request::Show { bits } => RequestView::Show { bits: *bits },
        }
    }
}

impl RequestView {
    /// Whether the request is for the variable store.
    pub open spec fn for_store(self) -> bool {
        self is Define || self is Get || self is Assign
    }
}

/// What the host answers to a [`Request`].
#[derive(Debug)]
pub enum Reply {
    /// The variable is written.
    Done,
    /// The value of the variable.
    Value(ScriptingValue),
    /// The variable store refused.
    Failed(environment::Error),
    /// A floating-point number, as its bits.
    Number(u64),
    /// A truth value.
    Truth(bool),
    /// A text.
    Text(String),
}

/// What a [`Reply`] holds, as plain values.
pub enum ReplyView {
    Done,
    Value(Value),
    Failed(environment::Fault),
    Number(u64),
    Truth(bool),
    Text(Seq<char>),
}

impl View for Reply {
    type V = ReplyView;

    open spec fn view(&self) -> ReplyView {
        match self {
            Reply::Done => ReplyView::Done,
            Reply::Value(value) => ReplyView::Value(value@),
            Reply::Failed(error) => ReplyView::Failed(error@),
            Reply::Number(bits) => ReplyView::Number(*bits),
            Reply::Truth(truth) => ReplyView::Truth(*truth),
            Reply::Text(text) => ReplyView::Text(text@),
        }
    }
}

/// How a run of the machine ends for the time being.
#[derive(Debug)]
pub enum Step {
    /// The chunk has run to its end, with this value.
    Finished(ScriptingValue),
    /// The machine is stopped and waits for the reply to this request.
    Waiting(Request),
}

/// What a [`Step`] holds, as plain values.
pub enum StepView {
    Finished(Value),
    Waiting(RequestView),
}

impl View for Step {
    type V = StepView;

    open spec fn view(&self) -> StepView {
        match self {
            Step::Finished(value) => StepView::Finished(value@),
            Step::Waiting(request) => StepView::Waiting(request@),
        }
    }
}

/// The distance of an integer from zero.
pub open spec fn magnitude(i: i64) -> nat {
    if i < 0 {
        (-i) as nat
    } else {
        i as nat
    }
}

/// The quotient of two integers, rounded towards zero. The one quotient
/// that a signed 64-bit integer does not hold, that of the least integer by
/// -1, counts as the least integer.
pub open spec fn quotient(a: i64, b: i64) -> i64 {
    let q = magnitude(a) / magnitude(b);
    if (a < 0) != (b < 0) {
        (-q) as i64
    } else if q > i64::MAX {
        i64::MIN
    } else {
        q as i64
    }
}

/// What an operation on values comes to.
pub enum Computed {
    /// A value, which goes on the stack.
    Value(Value),
    /// A request to the host. Before the machine stops, `keep` goes on the
    /// stack, if there is one.
    Ask { request: RequestView, waiting: Waiting, keep: Option<Value> },
    /// An error.
    Fail(ExecutionFault),
}

/// A value as an operand of an operation on floating-point numbers.
pub open spec fn number(value: Value) -> Number {
    match value {
        Value::Float64(bits) => Number::Float(bits),
        Value::Int64(i) => Number::Int(i),
        _ => Number::Int(0),
    }
}

/// Whether a value is a number.
pub open spec fn is_number(value: Value) -> bool {
    value is Float64 || value is Int64
}

/// `a == b`.
///
/// Two truth values, two integers and two texts are equal where they are
/// the same; `nil` is equal to `nil`. Whether two numbers are equal of
/// which one at least is a floating-point number is for the host to say.
/// Values of two kinds are not equal.
pub open spec fn equal(a: Value, b: Value) -> Computed {
    if is_number(a) && is_number(b) && !(a is Int64 && b is Int64) {
        Computed::Ask {
            request: RequestView::Equal { left: number(a), right: number(b) },
            waiting: Waiting::Truth,
            keep: None,
        }
    } else {
        Computed::Value(Value::Boolean(a == b))
    }
}

/// `a > b` and `a < b`, which are defined for numbers.
pub open spec fn comparison(operator: OpCode, a: Value, b: Value) -> Computed {
    if !(operator == OpCode::Greater || operator == OpCode::Less) {
        Computed::Fail(ExecutionFault::Unreachable)
    } else if a is Int64 && b is Int64 {
        Computed::Value(
            Value::Boolean(
                if operator == OpCode::Greater {
                    a->Int64_0 > b->Int64_0
                } else {
                    a->Int64_0 < b->Int64_0
                },
            ),
        )
    } else if is_number(a) && is_number(b) {
        Computed::Ask {
            request: RequestView::Compare { operator, left: number(a), right: number(b) },
            waiting: Waiting::Truth,
            keep: None,
        }
    } else {
        Computed::Fail(ExecutionFault::NoComparison)
    }
}

/// `a + b`, `a - b`, `a * b` and `a / b` on integers: the result wraps
/// around where a signed 64-bit integer does not hold it, and nothing can
/// be divided by zero.
pub open spec fn integer_arithmetic(operator: OpCode, x: i64, y: i64) -> Computed {
    match operator {
        OpCode::Add => Computed::Value(Value::Int64(x.wrapping_add(y))),
        OpCode::Subtract => Computed::Value(Value::Int64(x.wrapping_sub(y))),
        OpCode::Multiply => Computed::Value(Value::Int64(x.wrapping_mul(y))),
        OpCode::Divide => if y == 0 {
            Computed::Fail(ExecutionFault::DivisionByZero)
        } else {
            Computed::Value(Value::Int64(quotient(x, y)))
        },
        _ => Computed::Fail(ExecutionFault::Unreachable),
    }
}

/// `a + b`, `a - b`, `a * b` and `a / b`.
///
/// Two integers give an integer. Where one of two numbers is a
/// floating-point number the host computes. A text takes what is added to
/// it or what it is added to as a text; nothing else can be done with a
/// text. Else there is no arithmetic with `nil`, and none with a truth
/// value.
pub open spec fn arithmetic(operator: OpCode, a: Value, b: Value) -> Computed {
    if a is Int64 && b is Int64 {
        integer_arithmetic(operator, a->Int64_0, b->Int64_0)
    } else if is_number(a) && is_number(b) {
        match operator {
            OpCode::Add | OpCode::Subtract | OpCode::Multiply | OpCode::Divide => Computed::Ask {
                request: RequestView::Arithmetic { operator, left: number(a), right: number(b) },
                waiting: Waiting::Number,
                keep: None,
            },
            _ => Computed::Fail(ExecutionFault::Unreachable),
        }
    } else if a is String {
        if operator != OpCode::Add {
            Computed::Fail(ExecutionFault::OnlyAdd)
        } else if b is Float64 {
            Computed::Ask {
                request: RequestView::Show { bits: b->Float64_0 },
                waiting: Waiting::JoinAfter,
                keep: Some(a),
            }
        } else {
            Computed::Value(Value::String(a->String_0 + display(b)))
        }
    } else if b is String {
        if operator != OpCode::Add {
            Computed::Fail(ExecutionFault::OnlyAdd)
        } else if a is Float64 {
            Computed::Ask {
                request: RequestView::Show { bits: a->Float64_0 },
                waiting: Waiting::JoinBefore,
                keep: Some(b),
            }
        } else {
            Computed::Value(Value::String(display(a) + b->String_0))
        }
    } else if a is Nil || b is Nil {
        Computed::Fail(ExecutionFault::NilValue)
    } else {
        Computed::Fail(ExecutionFault::BoolNoArithmetic)
    }
}

/// `a & b`, `a | b` and `a ^ b`, which are defined for integers; the error
/// names the first operand that is none.
pub open spec fn bitwise(operator: OpCode, a: Value, b: Value) -> Computed {
    if a is Int64 && b is Int64 {
        match operator {
            OpCode::BitwiseAnd => Computed::Value(Value::Int64(a->Int64_0 & b->Int64_0)),
            OpCode::BitwiseOr => Computed::Value(Value::Int64(a->Int64_0 | b->Int64_0)),
            OpCode::BitwiseXor => Computed::Value(Value::Int64(a->Int64_0 ^ b->Int64_0)),
            _ => Computed::Fail(ExecutionFault::Unreachable),
        }
    } else if a is Int64 {
        Computed::Fail(ExecutionFault::NoInteger { value: b })
    } else {
        Computed::Fail(ExecutionFault::NoInteger { value: a })
    }
}

/// `- a`, which is defined for numbers: an integer wraps around, and a
/// floating-point number changes its sign.
pub open spec fn negate(a: Value) -> Computed {
    match a {
        Value::Int64(x) => Computed::Value(Value::Int64(0i64.wrapping_sub(x))),
        Value::Float64(bits) => Computed::Value(Value::Float64(bits ^ SIGN_BIT)),
        _ => Computed::Fail(ExecutionFault::NoNumber { value: a }),
    }
}

/// `~ a`, which is defined for integers.
pub open spec fn bitwise_not(a: Value) -> Computed {
    match a {
        Value::Int64(x) => Computed::Value(Value::Int64(!x)),
        _ => Computed::Fail(ExecutionFault::NoNumber { value: a }),
    }
}

/// `! a`: `true` for `nil` and for `false`, and `false` for every other
/// value.
pub open spec fn not(a: Value) -> Computed {
    match a {
        Value::Boolean(truth) => Computed::Value(Value::Boolean(!truth)),
        Value::Nil => Computed::Value(Value::Boolean(true)),
        _ => Computed::Value(Value::Boolean(false)),
    }
}

/// The state of the machine.
pub struct Machine {
    /// The place of the next instruction.
    pub ip: int,
    /// The values that the instructions work on, the last of them on top.
    pub stack: Seq<Value>,
    /// What the machine waits for, if it is stopped.
    pub waiting: Waiting,
}

/// What an instruction, or a reply, does to the machine.
pub enum Outcome {
    /// The machine goes on.
    Continue(Machine),
    /// The machine prints a text on a line of its own, and goes on.
    Print(Machine, Seq<char>),
    /// The machine stops with a request.
    Ask(Machine, RequestView),
    /// The chunk has run to its end, with this value.
    Finish(Machine, Value),
    /// The run fails.
    Fail(ExecutionFault),
}

impl Machine {
    /// The machine before the first instruction.
    pub open spec fn start() -> Machine {
        Machine { ip: 0, stack: Seq::empty(), waiting: Waiting::Nothing }
    }

    /// Puts a value on the stack, if the stack has room for it.
    pub open spec fn push(self, value: Value) -> Outcome {
        if self.stack.len() < STACK_SIZE {
            Outcome::Continue(Machine { stack: self.stack.push(value), ..self })
        } else {
            Outcome::Fail(ExecutionFault::StackOverflow)
        }
    }

    /// The machine without the topmost values.
    pub open spec fn dropped(self, count: nat) -> Machine {
        Machine { stack: self.stack.take(self.stack.len() - count), ..self }
    }

    /// The value that is `depth` places below the top of the stack.
    pub open spec fn peek(self, depth: nat) -> Value {
        self.stack[self.stack.len() - 1 - depth]
    }

    /// What the machine does with the result of an operation.
    pub open spec fn apply(self, computed: Computed) -> Outcome {
        match computed {
            Computed::Value(value) => self.push(value),
            Computed::Ask { request, waiting, keep } => match keep {
                Some(value) => match self.push(value) {
                    Outcome::Continue(kept) => Outcome::Ask(Machine { waiting, ..kept }, request),
                    other => other,
                },
                None => Outcome::Ask(Machine { waiting, ..self }, request),
            },
            Computed::Fail(fault) => Outcome::Fail(fault),
        }
    }

    /// An operation on the topmost value.
    pub open spec fn unary(self, operator: OpCode) -> Outcome {
        if self.stack.len() < 1 {
            Outcome::Fail(ExecutionFault::Unreachable)
        } else {
            let a = self.peek(0);
            self.dropped(1).apply(
                match operator {
                    OpCode::Not => not(a),
                    OpCode::Negate => negate(a),
                    _ => bitwise_not(a),
                },
            )
        }
    }

    /// An operation on the two topmost values, of which the upper one is
    /// the right-hand side.
    pub open spec fn binary(self, operator: OpCode) -> Outcome {
        if self.stack.len() < 2 {
            Outcome::Fail(ExecutionFault::Unreachable)
        } else {
            let a = self.peek(1);
            let b = self.peek(0);
            self.dropped(2).apply(
                match operator {
                    OpCode::Equal => equal(a, b),
                    OpCode::Greater | OpCode::Less => comparison(operator, a, b),
                    OpCode::BitwiseAnd | OpCode::BitwiseOr | OpCode::BitwiseXor => bitwise(
                        operator,
                        a,
                        b,
                    ),
                    _ => arithmetic(operator, a, b),
                },
            )
        }
    }

    /// An instruction with a constant: the constant is pushed, or it names
    /// the variable that the host is asked for.
    pub open spec fn constant(self, chunk: Bytecode, operator: OpCode) -> Outcome {
        if !(self.ip < chunk.code.len() && chunk.code[self.ip] < chunk.constants.len()) {
            Outcome::Fail(ExecutionFault::Unreachable)
        } else {
            let next = Machine { ip: self.ip + 1, ..self };
            match chunk.constants[chunk.code[self.ip] as int] {
                ConstantView::Float(text) => if operator == OpCode::Constant {
                    Outcome::Ask(
                        Machine { waiting: Waiting::Number, ..next },
                        RequestView::Read { text },
                    )
                } else {
                    Outcome::Fail(ExecutionFault::Unreachable)
                },
                ConstantView::Value(value) => if operator == OpCode::Constant {
                    next.push(value)
                } else if value is String {
                    let name = value->String_0;
                    if operator == OpCode::GetExternal {
                        Outcome::Ask(
                            Machine { waiting: Waiting::Loaded, ..next },
                            RequestView::Get { name },
                        )
                    } else if next.stack.len() < 1 {
                        Outcome::Fail(ExecutionFault::Unreachable)
                    } else if operator == OpCode::DefineExternal {
                        Outcome::Ask(
                            Machine { waiting: Waiting::Stored, ..next.dropped(1) },
                            RequestView::Define { name, value: next.peek(0) },
                        )
                    } else {
                        Outcome::Ask(
                            Machine { waiting: Waiting::Stored, ..next.dropped(1) },
                            RequestView::Assign { name, value: next.peek(0) },
                        )
                    }
                } else {
                    Outcome::Fail(ExecutionFault::Unreachable)
                },
            }
        }
    }

    /// A jump: to the place that its operand names, which lies behind the
    /// jump and within the code. A jump on a condition is taken where the topmost value, which
    /// has to be a truth value and stays, is what the jump asks for.
    pub open spec fn jump(self, chunk: Bytecode, operator: OpCode) -> Outcome {
        if !(self.ip + 1 < chunk.code.len()) {
            Outcome::Fail(ExecutionFault::Unreachable)
        } else {
            let target = chunk.address(self.ip);
            let taken = Machine { ip: target, ..self };
            let passed = Machine { ip: self.ip + 2, ..self };
            if !(self.ip <= target < chunk.code.len()) {
                Outcome::Fail(ExecutionFault::Unreachable)
            } else if operator == OpCode::Jmp {
                Outcome::Continue(taken)
            } else if self.stack.len() < 1 {
                Outcome::Fail(ExecutionFault::Unreachable)
            } else {
                match self.peek(0) {
                    Value::Boolean(truth) => if truth == (operator == OpCode::JmpIfTrue) {
                        Outcome::Continue(taken)
                    } else {
                        Outcome::Continue(passed)
                    },
                    other => Outcome::Fail(ExecutionFault::NoBoolean { value: other }),
                }
            }
        }
    }

    /// `Print`: the topmost value leaves the stack and is printed; the
    /// host is asked for the text of a floating-point number. Of an empty
    /// stack the machine prints `no result`.
    pub open spec fn print(self) -> Outcome {
        if self.stack.len() < 1 {
            Outcome::Print(self, "no result"@)
        } else {
            match self.peek(0) {
                Value::Float64(bits) => Outcome::Ask(
                    Machine { waiting: Waiting::Print, ..self.dropped(1) },
                    RequestView::Show { bits },
                ),
                value => Outcome::Print(self.dropped(1), display(value)),
            }
        }
    }

    /// `Return`: the topmost value is the result, or `nil` where the stack
    /// is empty.
    pub open spec fn finish(self) -> Outcome {
        if self.stack.len() < 1 {
            Outcome::Finish(self, Value::Nil)
        } else {
            Outcome::Finish(self.dropped(1), self.peek(0))
        }
    }

    /// What the instruction at the place of the machine does.
    pub open spec fn instruction(self, chunk: Bytecode) -> Outcome {
        if !(0 <= self.ip < chunk.code.len()) || self.waiting != Waiting::Nothing {
            Outcome::Fail(ExecutionFault::Unreachable)
        } else {
            let operator = OpCode::decode(chunk.code[self.ip]);
            let next = Machine { ip: self.ip + 1, ..self };
            match operator {
                OpCode::NoOperation => Outcome::Fail(ExecutionFault::Unreachable),
                OpCode::Constant
                | OpCode::DefineExternal
                | OpCode::GetExternal
                | OpCode::SetExternal => next.constant(chunk, operator),
                OpCode::Nil => next.push(Value::Nil),
                OpCode::True => next.push(Value::Boolean(true)),
                OpCode::False => next.push(Value::Boolean(false)),
                OpCode::Pop => if next.stack.len() < 1 {
                    Outcome::Fail(ExecutionFault::Unreachable)
                } else {
                    Outcome::Continue(next.dropped(1))
                },
                OpCode::Jmp | OpCode::JmpIfTrue | OpCode::JmpIfFalse => next.jump(chunk, operator),
                OpCode::Not | OpCode::Negate | OpCode::BitwiseNot => next.unary(operator),
                OpCode::Print => next.print(),
                OpCode::Return => next.finish(),
                _ => next.binary(operator),
            }
        }
    }

    /// What the reply to its request does to a machine that is stopped.
    pub open spec fn deliver(self, reply: ReplyView) -> Outcome {
        let awake = Machine { waiting: Waiting::Nothing, ..self };
        match (self.waiting, reply) {
            (Waiting::Stored, ReplyView::Done) => Outcome::Continue(awake),
            (Waiting::Stored, ReplyView::Failed(source)) => Outcome::Fail(
                ExecutionFault::Environment { source },
            ),
            (Waiting::Loaded, ReplyView::Value(value)) => awake.push(value),
            (Waiting::Loaded, ReplyView::Failed(source)) => Outcome::Fail(
                ExecutionFault::Environment { source },
            ),
            (Waiting::Number, ReplyView::Number(bits)) => awake.push(Value::Float64(bits)),
            (Waiting::Truth, ReplyView::Truth(truth)) => awake.push(Value::Boolean(truth)),
            (Waiting::Print, ReplyView::Text(text)) => Outcome::Print(awake, text),
            (Waiting::JoinAfter, ReplyView::Text(text)) => if awake.stack.len() >= 1 && awake.peek(
                0,
            ) is String {
                awake.dropped(1).push(Value::String(awake.peek(0)->String_0 + text))
            } else {
                Outcome::Fail(ExecutionFault::Unreachable)
            },
            (Waiting::JoinBefore, ReplyView::Text(text)) => if awake.stack.len() >= 1
                && awake.peek(0) is String {
                awake.dropped(1).push(Value::String(text + awake.peek(0)->String_0))
            } else {
                Outcome::Fail(ExecutionFault::Unreachable)
            },
            _ => Outcome::Fail(ExecutionFault::Unreachable),
        }
    }
}

/// How a run ends for the time being: the state of the machine, all that
/// is printed, and the step or the error.
pub struct Halt {
    /// The state of the machine.
    pub machine: Machine,
    /// All that is printed.
    pub out: Seq<u8>,
    /// The step that the run ends with, or the error.
    pub result: Result<StepView, ExecutionFault>,
}

/// What is printed after a text was printed on a line of its own: the text
/// in UTF-8, and a line feed behind it.
pub open spec fn printed(out: Seq<u8>, text: Seq<char>) -> Seq<u8> {
    (out + encode_utf8(text)).push(10u8)
}

/// Where an outcome leads: the machine goes on, instruction by
/// instruction, until it stops, finishes or fails.
pub open spec fn proceed(chunk: Bytecode, outcome: Outcome, before: Machine, out: Seq<u8>) -> Halt
    decreases chunk.code.len() - before.ip, 0nat,
{
    match outcome {
        Outcome::Continue(machine) => if before.ip < machine.ip <= chunk.code.len() {
            go(chunk, machine, out)
        } else {
            Halt { machine, out, result: Err(ExecutionFault::Unreachable) }
        },
        Outcome::Print(machine, text) => if before.ip < machine.ip <= chunk.code.len() {
            go(chunk, machine, printed(out, text))
        } else {
            Halt { machine, out, result: Err(ExecutionFault::Unreachable) }
        },
        Outcome::Ask(machine, request) => Halt {
            machine,
            out,
            result: Ok(StepView::Waiting(request)),
        },
        Outcome::Finish(machine, value) => Halt {
            machine,
            out,
            result: Ok(StepView::Finished(value)),
        },
        Outcome::Fail(fault) => Halt { machine: before, out, result: Err(fault) },
    }
}

/// The run of a machine from its place on.
pub open spec fn go(chunk: Bytecode, machine: Machine, out: Seq<u8>) -> Halt
    decreases chunk.code.len() - machine.ip, 1nat,
{
    if !(0 <= machine.ip < chunk.code.len()) {
        Halt { machine, out, result: Err(ExecutionFault::Unreachable) }
    } else {
        proceed(chunk, machine.instruction(chunk), machine, out)
    }
}

/// The run of a chunk from its start. An empty chunk gives `nil`.
pub open spec fn run(chunk: Bytecode, out: Seq<u8>) -> Halt {
    if chunk.code.len() == 0 {
        Halt { machine: Machine::start(), out, result: Ok(StepView::Finished(Value::Nil)) }
    } else {
        go(chunk, Machine::start(), out)
    }
}

/// The run of a machine that is stopped, after the reply to its request.
pub open spec fn resume(chunk: Bytecode, machine: Machine, out: Seq<u8>, reply: ReplyView) -> Halt {
    match machine.deliver(reply) {
        Outcome::Continue(awake) => go(chunk, awake, out),
        Outcome::Print(awake, text) => go(chunk, awake, printed(out, text)),
        Outcome::Ask(awake, request) => Halt {
            machine: awake,
            out,
            result: Ok(StepView::Waiting(request)),
        },
        Outcome::Finish(awake, value) => Halt {
            machine: awake,
            out,
            result: Ok(StepView::Finished(value)),
        },
        Outcome::Fail(fault) => Halt { machine, out, result: Err(fault) },
    }
}

impl ReplyView {
    /// Whether the reply is one of a variable store.
    pub open spec fn from_store(self) -> bool {
        self is Done || self is Value || self is Failed
    }
}

impl Halt {
    /// Whether the run is stopped with a request for the variable store.
    pub open spec fn asks_store(self) -> bool {
        self.result matches Ok(StepView::Waiting(request)) && request.for_store()
    }
}

/// A run in which a variable store answers: each time the run stops with a
/// request for the store, it goes on with the next of the replies.
pub open spec fn served(chunk: Bytecode, halt: Halt, replies: Seq<ReplyView>) -> Halt
    decreases replies.len(),
{
    if replies.len() == 0 {
        halt
    } else {
        let before = served(chunk, halt, replies.drop_last());
        if before.asks_store() {
            resume(chunk, before.machine, before.out, replies.last())
        } else {
            before
        }
    }
}

} // verus!
