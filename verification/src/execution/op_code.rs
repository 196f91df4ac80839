//! The instruction set of the virtual machine.
use vstd::prelude::*;
use vstd::std_specs::convert::FromSpecImpl;

verus! {

/// The instructions of the virtual machine.
///
/// An instruction is one byte, followed by one operand byte where it names a
/// constant and by two operand bytes where it jumps.
#[derive(Debug, Clone, Copy, PartialEq, Eq, Structural)]
pub enum OpCode {
    /// No operation: the machine refuses to run it.
    NoOperation,
    /// Push a constant.
    Constant,
    /// Push `nil`.
    Nil,
    /// Push `true`.
    True,
    /// Push `false`.
    False,
    /// Drop the topmost value.
    Pop,
    /// Create or overwrite a variable of the host.
    DefineExternal,
    /// Read a variable of the host.
    GetExternal,
    /// Overwrite a variable of the host.
    SetExternal,
    /// Equality.
    Equal,
    /// Comparison: greater.
    Greater,
    /// Comparison: less.
    Less,
    /// Jump.
    Jmp,
    /// Jump if the topmost value is `true`.
    JmpIfTrue,
    /// Jump if the topmost value is `false`.
    JmpIfFalse,
    /// Addition.
    Add,
    /// Subtraction.
    Subtract,
    /// Multiplication.
    Multiply,
    /// Division.
    Divide,
    /// Bitwise not.
    BitwiseNot,
    /// Bitwise and.
    BitwiseAnd,
    /// Bitwise or.
    BitwiseOr,
    /// Bitwise exclusive or.
    BitwiseXor,
    /// Logical not.
    Not,
    /// Arithmetic negation.
    Negate,
    /// Hand the topmost value back to the caller.
    Return,
    /// Write the topmost value to the output.
    Print,
}

impl OpCode {
    /// The byte that encodes the instruction.
    pub open spec fn code(self) -> u8 {
        match self {
            OpCode::NoOperation => 0,
            OpCode::Constant => 1,
            OpCode::Nil => 2,
            OpCode::True => 3,
            OpCode::False => 4,
            OpCode::Pop => 5,
            OpCode::DefineExternal => 6,
            OpCode::GetExternal => 7,
            OpCode::SetExternal => 8,
            OpCode::Equal => 9,
            OpCode::Greater => 10,
            OpCode::Less => 11,
            OpCode::Jmp => 12,
            OpCode::JmpIfTrue => 13,
            OpCode::JmpIfFalse => 14,
            OpCode::Add => 15,
            OpCode::Subtract => 16,
            OpCode::Multiply => 17,
            OpCode::Divide => 18,
            OpCode::BitwiseNot => 19,
            OpCode::BitwiseAnd => 20,
            OpCode::BitwiseOr => 21,
            OpCode::BitwiseXor => 22,
            OpCode::Not => 23,
            OpCode::Negate => 24,
            OpCode::Return => 25,
            OpCode::Print => 254,
        }
    }

    /// The instruction that a byte encodes; a byte that encodes none reads as
    /// [`OpCode::NoOperation`].
    pub open spec fn decode(byte: u8) -> OpCode {
        if byte == 1 {
            OpCode::Constant
        } else if byte == 2 {
            OpCode::Nil
        } else if byte == 3 {
            OpCode::True
        } else if byte == 4 {
            OpCode::False
        } else if byte == 5 {
            OpCode::Pop
        } else if byte == 6 {
            OpCode::DefineExternal
        } else if byte == 7 {
            OpCode::GetExternal
        } else if byte == 8 {
            OpCode::SetExternal
        } else if byte == 9 {
            OpCode::Equal
        } else if byte == 10 {
            OpCode::Greater
        } else if byte == 11 {
            OpCode::Less
        } else if byte == 12 {
            OpCode::Jmp
        } else if byte == 13 {
            OpCode::JmpIfTrue
        } else if byte == 14 {
            OpCode::JmpIfFalse
        } else if byte == 15 {
            OpCode::Add
        } else if byte == 16 {
            OpCode::Subtract
        } else if byte == 17 {
            OpCode::Multiply
        } else if byte == 18 {
            OpCode::Divide
        } else if byte == 19 {
            OpCode::BitwiseNot
        } else if byte == 20 {
            OpCode::BitwiseAnd
        } else if byte == 21 {
            OpCode::BitwiseOr
        } else if byte == 22 {
            OpCode::BitwiseXor
        } else if byte == 23 {
            OpCode::Not
        } else if byte == 24 {
            OpCode::Negate
        } else if byte == 25 {
            OpCode::Return
        } else if byte == 254 {
            OpCode::Print
        } else {
            OpCode::NoOperation
        }
    }

    /// The number of operand bytes that follow the instruction.
    pub open spec fn operands(self) -> nat {
        match self {
            OpCode::Constant | OpCode::DefineExternal | OpCode::GetExternal | OpCode::SetExternal => 1,
            OpCode::Jmp | OpCode::JmpIfTrue | OpCode::JmpIfFalse => 2,
            _ => 0,
        }
    }

    /// The byte that encodes the instruction.
    pub fn byte(self) -> (b: u8)
        ensures
            b == self.code(),
    {
        match self {
            OpCode::NoOperation => 0,
            OpCode::Constant => 1,
            OpCode::Nil => 2,
            OpCode::True => 3,
            OpCode::False => 4,
            OpCode::Pop => 5,
            OpCode::DefineExternal => 6,
            OpCode::GetExternal => 7,
            OpCode::SetExternal => 8,
            OpCode::Equal => 9,
            OpCode::Greater => 10,
            OpCode::Less => 11,
            OpCode::Jmp => 12,
            OpCode::JmpIfTrue => 13,
            OpCode::JmpIfFalse => 14,
            OpCode::Add => 15,
            OpCode::Subtract => 16,
            OpCode::Multiply => 17,
            OpCode::Divide => 18,
            OpCode::BitwiseNot => 19,
            OpCode::BitwiseAnd => 20,
            OpCode::BitwiseOr => 21,
            OpCode::BitwiseXor => 22,
            OpCode::Not => 23,
            OpCode::Negate => 24,
            OpCode::Return => 25,
            OpCode::Print => 254,
        }
    }

    /// Decoding undoes encoding.
    pub proof fn law_decode_code(op: OpCode)
        ensures
            OpCode::decode(op.code()) == op,
    {
    }
}

impl From<u8> for OpCode {
    fn from(value: u8) -> (op: OpCode) {
        match value {
            1 => OpCode::Constant,
            2 => OpCode::Nil,
            3 => OpCode::True,
            4 => OpCode::False,
            5 => OpCode::Pop,
            6 => OpCode::DefineExternal,
            7 => OpCode::GetExternal,
            8 => OpCode::SetExternal,
            9 => OpCode::Equal,
            10 => OpCode::Greater,
            11 => OpCode::Less,
            12 => OpCode::Jmp,
            13 => OpCode::JmpIfTrue,
            14 => OpCode::JmpIfFalse,
            15 => OpCode::Add,
            16 => OpCode::Subtract,
            17 => OpCode::Multiply,
            18 => OpCode::Divide,
            19 => OpCode::BitwiseNot,
            20 => OpCode::BitwiseAnd,
            21 => OpCode::BitwiseOr,
            22 => OpCode::BitwiseXor,
            23 => OpCode::Not,
            24 => OpCode::Negate,
            25 => OpCode::Return,
            254 => OpCode::Print,
            _ => OpCode::NoOperation,
        }
    }
}

impl FromSpecImpl<u8> for OpCode {
    open spec fn obeys_from_spec() -> bool {
        true
    }

    open spec fn from_spec(value: u8) -> OpCode {
        OpCode::decode(value)
    }
}

} // verus!
