//! A chunk of bytecode: what the compiler makes of a script.
use super::op_code::OpCode;
use crate::compilation::error::CompilationError;
use crate::scripting_value::{ScriptingValue, Value};
use vstd::prelude::*;

verus! {

/// The most constants that a chunk holds: an instruction names a constant
/// by one byte.
pub const MAX_CONSTANTS: usize = 256;

/// A constant of a chunk.
#[derive(Debug)]
pub enum Constant {
    /// A value.
    Value(ScriptingValue),
    /// A floating-point number as the script wrote it: the host reads it
    /// when the machine comes to it.
    Float(String),
}

/// What a [`Constant`] holds, as plain values.
pub enum ConstantView {
    Value(Value),
    Float(Seq<char>),
}

impl View for Constant {
    type V = ConstantView;

    open spec fn view(&self) -> ConstantView {
        match self {
            Constant::Value(value) => ConstantView::Value(value@),
            Constant::Float(text) => ConstantView::Float(text@),
        }
    }
}

impl Clone for Constant {
    fn clone(&self) -> (constant: Constant)
        ensures
            constant == *self,
    {
        match self {
            Constant::Value(value) => Constant::Value(value.clone()),
            Constant::Float(text) => Constant::Float(text.clone()),
        }
    }
}

/// What a [`Chunk`] holds, as plain values.
pub struct Bytecode {
    /// The instructions with their operands.
    pub code: Seq<u8>,
    /// For each byte of the code the line of the script that it comes from.
    pub lines: Seq<usize>,
    /// The constants, which the instructions name by their place.
    pub constants: Seq<ConstantView>,
    /// Whether the chunk is marked as finished: the compiler marks a chunk
    /// so when it has written all of it.
    pub finalized: bool,
}

impl Bytecode {
    /// A chunk without code.
    pub open spec fn empty() -> Bytecode {
        Bytecode {
            code: Seq::empty(),
            lines: Seq::empty(),
            constants: Seq::empty(),
            finalized: false,
        }
    }

    /// The chunk, marked as finished.
    pub open spec fn finalize(self) -> Bytecode {
        Bytecode { finalized: true, ..self }
    }

    /// The chunk with one more byte of code, which comes from `line`.
    pub open spec fn write(self, byte: u8, line: usize) -> Bytecode {
        Bytecode { code: self.code.push(byte), lines: self.lines.push(line), ..self }
    }

    /// The chunk with another byte at `pos`.
    pub open spec fn patch(self, byte: u8, pos: int) -> Bytecode {
        Bytecode { code: self.code.update(pos, byte), ..self }
    }

    /// The chunk with one more constant.
    pub open spec fn add(self, constant: ConstantView) -> Bytecode {
        Bytecode { constants: self.constants.push(constant), ..self }
    }

    /// Whether the chunk has room for one more constant.
    pub open spec fn has_room(self) -> bool {
        self.constants.len() < MAX_CONSTANTS
    }

    /// Whether the code from `from` up to `to` is made of instructions, each
    /// with its operand, and each constant that one of them names is there.
    pub open spec fn instructions(self, from: int, to: int) -> bool
        decreases to - from,
    {
        if from >= to {
            from == to
        } else if !(0 <= from && to <= self.code.len()) {
            false
        } else {
            let op = OpCode::decode(self.code[from]);
            let next = from + 1 + op.operands();
            if next > to {
                false
            } else {
                &&& op != OpCode::NoOperation
                &&& op.operands() == 1 ==> self.code[from + 1] < self.constants.len()
                &&& self.instructions(next, to)
            }
        }
    }

    /// The place that two bytes of the code name, the first of them
    /// counting 256 times.
    pub open spec fn address(self, at: int) -> int {
        self.code[at] * 256 + self.code[at + 1]
    }
}

/// `Vec::shrink_to_fit` of std: gives back the memory that the vector does
/// not use. Its contents stay.
#[verifier::external_body]
fn shrink<T>(v: &mut Vec<T>)
    ensures
        final(v)@ == old(v)@,
{
    v.shrink_to_fit()
}

/// A chunk of bytecode.
#[derive(Debug)]
pub struct Chunk {
    /// The instructions with their operands.
    code: Vec<u8>,
    /// For each byte of the code the line of the script that it comes from.
    lines: Vec<usize>,
    /// The constants.
    values: Vec<Constant>,
    /// Whether the chunk is marked as finished.
    finalized: bool,
}

impl View for Chunk {
    type V = Bytecode;

    closed spec fn view(&self) -> Bytecode {
        Bytecode {
            code: self.code@,
            lines: self.lines@,
            constants: Seq::new(self.values@.len(), |i: int| self.values@[i]@),
            finalized: self.finalized,
        }
    }
}

impl Default for Chunk {
    fn default() -> (chunk: Chunk)
        ensures
            chunk@ == Bytecode::empty(),
    {
        let chunk = Chunk {
            code: Vec::new(),
            lines: Vec::new(),
            values: Vec::new(),
            finalized: false,
        };
        assert(chunk@.constants =~= Seq::empty());
        chunk
    }
}

impl Chunk {
    /// The code.
    pub fn code(&self) -> (code: &Vec<u8>)
        ensures
            code@ == self@.code,
    {
        &self.code
    }

    /// The count of the bytes of the code.
    pub fn len(&self) -> (n: usize)
        ensures
            n == self@.code.len(),
    {
        self.code.len()
    }

    /// The count of the constants.
    pub fn constants(&self) -> (n: usize)
        ensures
            n == self@.constants.len(),
    {
        self.values.len()
    }

    /// The line of the script that the byte at `pos` comes from.
    pub fn line(&self, pos: usize) -> (line: Option<usize>)
        ensures
            line == if pos < self@.lines.len() {
                Some(self@.lines[pos as int])
            } else {
                None
            },
    {
        if pos < self.lines.len() {
            Some(self.lines[pos])
        } else {
            None
        }
    }

    /// Ends the work on the chunk: marks it as finished, and gives back the
    /// memory that it does not use. The code, the lines and the constants
    /// stay as they are.
    pub fn finalize(&mut self)
        ensures
            final(self)@ == old(self)@.finalize(),
    {
        shrink(&mut self.code);
        shrink(&mut self.lines);
        shrink(&mut self.values);
        self.finalized = true;
    }

    /// Whether the chunk is marked as finished.
    pub fn is_finalized(&self) -> (marked: bool)
        ensures
            marked == self@.finalized,
    {
        self.finalized
    }

    /// Appends a byte of code, which comes from `line`.
    pub fn write(&mut self, byte: u8, line: usize)
        ensures
            final(self)@ == old(self)@.write(byte, line),
    {
        self.code.push(byte);
        self.lines.push(line);
    }

    /// Overwrites the byte at `pos`.
    pub fn patch(&mut self, byte: u8, pos: usize)
        requires
            pos < old(self)@.code.len(),
        ensures
            final(self)@ == old(self)@.patch(byte, pos as int),
    {
        self.code.set(pos, byte);
    }

    /// Appends a constant and hands back its place, unless the chunk is
    /// full.
    pub fn add(&mut self, constant: Constant) -> (place: Result<u8, CompilationError>)
        ensures
            match place {
                Ok(at) => {
                    &&& old(self)@.has_room()
                    &&& at == old(self)@.constants.len()
                    &&& final(self)@ == old(self)@.add(constant@)
                },
                Err(error) => {
                    &&& !old(self)@.has_room()
                    &&& error == CompilationError::ConstantStorageOverflow
                    &&& final(self)@ == old(self)@
                },
            },
    {
        let n = self.values.len();
        if n < MAX_CONSTANTS {
            self.values.push(constant);
            assert(self@.constants =~= old(self)@.constants.push(constant@));
            Ok(n as u8)
        } else {
            Err(CompilationError::ConstantStorageOverflow)
        }
    }

    /// Appends a value to the constants and hands back its place, unless
    /// the chunk is full.
    pub fn add_constant(&mut self, value: ScriptingValue) -> (place: Result<u8, CompilationError>)
        ensures
            match place {
                Ok(at) => {
                    &&& old(self)@.has_room()
                    &&& at == old(self)@.constants.len()
                    &&& final(self)@ == old(self)@.add(ConstantView::Value(value@))
                },
                Err(error) => {
                    &&& !old(self)@.has_room()
                    &&& error == CompilationError::ConstantStorageOverflow
                    &&& final(self)@ == old(self)@
                },
            },
    {
        self.add(Constant::Value(value))
    }

    /// The constant at `pos`, if there is one.
    pub fn read_constant(&self, pos: u8) -> (constant: Option<Constant>)
        ensures
            match constant {
                Some(c) => pos < self@.constants.len() && c@ == self@.constants[pos as int],
                None => pos >= self@.constants.len(),
            },
    {
        if (pos as usize) < self.values.len() {
            Some(self.values[pos as usize].clone())
        } else {
            None
        }
    }
}

} // verus!
