//! Listings of chunks, for those who read bytecode.
use super::chunk::{Bytecode, Chunk, Constant, ConstantView};
use super::op_code::OpCode;
use crate::scripting_value::{display, text_of, ScriptingValue, Value};
use crate::text::{digits, unsigned_text};
use vstd::prelude::*;
use vstd::string::StringExecFns;

verus! {

/// The name of an instruction in a listing.
pub open spec fn mnemonic(op: OpCode) -> Seq<char> {
    match op {
        OpCode::Add => "OP_ADD"@,
        OpCode::BitwiseAnd => "OP_BITWISE_AND"@,
        OpCode::BitwiseNot => "OP_BITWISE_NOT"@,
        OpCode::BitwiseOr => "OP_BITWISE_OR"@,
        OpCode::BitwiseXor => "OP_BITWISE_XOR"@,
        OpCode::Constant => "OP_CONSTANT"@,
        OpCode::DefineExternal => "OP_DEFINE_GLOBAL"@,
        OpCode::Divide => "OP_DIVIDE"@,
        OpCode::Equal => "OP_EQUAL"@,
        OpCode::False => "OP_FALSE"@,
        OpCode::GetExternal => "OP_GET_GLOBAL"@,
        OpCode::Greater => "OP_GREATER"@,
        OpCode::Jmp => "OP_JMP"@,
        OpCode::JmpIfFalse => "OP_JMP_IF_FALSE"@,
        OpCode::JmpIfTrue => "OP_JMP_IF_TRUE"@,
        OpCode::Less => "OP_LESS"@,
        OpCode::Multiply => "OP_MULTIPLY"@,
        OpCode::Negate => "OP_NEGATE"@,
        OpCode::Nil => "OP_NIL"@,
        OpCode::NoOperation => "OP_NONE"@,
        OpCode::Not => "OP_NOT"@,
        OpCode::Pop => "OP_POP"@,
        OpCode::Print => "OP_PRINT"@,
        OpCode::Return => "OP_RETURN"@,
        OpCode::SetExternal => "OP_SET_GLOBAL"@,
        OpCode::Subtract => "OP_SUBTRACT"@,
        OpCode::True => "OP_TRUE"@,
    }
}

/// The name of an instruction in a listing.
pub fn name_of(op: OpCode) -> (name: &'static str)
    ensures
        name@ == mnemonic(op),
{
    match op {
        OpCode::Add => "OP_ADD",
        OpCode::BitwiseAnd => "OP_BITWISE_AND",
        OpCode::BitwiseNot => "OP_BITWISE_NOT",
        OpCode::BitwiseOr => "OP_BITWISE_OR",
        OpCode::BitwiseXor => "OP_BITWISE_XOR",
        OpCode::Constant => "OP_CONSTANT",
        OpCode::DefineExternal => "OP_DEFINE_GLOBAL",
        OpCode::Divide => "OP_DIVIDE",
        OpCode::Equal => "OP_EQUAL",
        OpCode::False => "OP_FALSE",
        OpCode::GetExternal => "OP_GET_GLOBAL",
        OpCode::Greater => "OP_GREATER",
        OpCode::Jmp => "OP_JMP",
        OpCode::JmpIfFalse => "OP_JMP_IF_FALSE",
        OpCode::JmpIfTrue => "OP_JMP_IF_TRUE",
        OpCode::Less => "OP_LESS",
        OpCode::Multiply => "OP_MULTIPLY",
        OpCode::Negate => "OP_NEGATE",
        OpCode::Nil => "OP_NIL",
        OpCode::NoOperation => "OP_NONE",
        OpCode::Not => "OP_NOT",
        OpCode::Pop => "OP_POP",
        OpCode::Print => "OP_PRINT",
        OpCode::Return => "OP_RETURN",
        OpCode::SetExternal => "OP_SET_GLOBAL",
        OpCode::Subtract => "OP_SUBTRACT",
        OpCode::True => "OP_TRUE",
    }
}

/// A text made of one character, `count` times.
pub open spec fn repeated(fill: char, count: int) -> Seq<char> {
    Seq::new(
        if count > 0 {
            count as nat
        } else {
            0
        },
        |i: int| fill,
    )
}

/// A text with `fill` before it, as often as it takes to make the text
/// `width` characters long.
pub open spec fn padded_left(text: Seq<char>, width: int, fill: char) -> Seq<char> {
    repeated(fill, width - text.len()) + text
}

/// A text with spaces behind it, as many as it takes to make the text
/// `width` characters long.
pub open spec fn padded_right(text: Seq<char>, width: int) -> Seq<char> {
    text + repeated(' ', width - text.len())
}

/// Appends a character `count` times.
fn fill(out: &mut Vec<char>, c: char, count: usize)
    ensures
        final(out)@ == old(out)@ + repeated(c, count as int),
{
    let mut i: usize = 0;
    while i < count
        invariant
            0 <= i <= count,
            out@ == old(out)@ + repeated(c, i as int),
        decreases count - i,
    {
        out.push(c);
        assert(out@ =~= old(out)@ + repeated(c, i + 1));
        i = i + 1;
    }
}

/// Appends the characters of a text.
fn extend(out: &mut Vec<char>, text: &str)
    ensures
        final(out)@ == old(out)@ + text@,
{
    let mut chars = crate::text::chars_of(text);
    out.append(&mut chars);
}

/// Appends a text with `c` before it, as often as it takes to make the
/// text `width` characters long.
fn pad_left(out: &mut Vec<char>, text: &str, width: usize, c: char)
    ensures
        final(out)@ == old(out)@ + padded_left(text@, width as int, c),
{
    let chars = crate::text::chars_of(text);
    let count = if chars.len() < width {
        width - chars.len()
    } else {
        0
    };
    fill(out, c, count);
    let mut chars = chars;
    out.append(&mut chars);
    assert(out@ =~= old(out)@ + padded_left(text@, width as int, c));
}

/// Appends a text with spaces behind it, as many as it takes to make the
/// text `width` characters long.
fn pad_right(out: &mut Vec<char>, text: &str, width: usize)
    ensures
        final(out)@ == old(out)@ + padded_right(text@, width as int),
{
    let mut chars = crate::text::chars_of(text);
    let count = if chars.len() < width {
        width - chars.len()
    } else {
        0
    };
    out.append(&mut chars);
    fill(out, ' ', count);
    assert(out@ =~= old(out)@ + padded_right(text@, width as int));
}

/// How a constant is shown in a listing: `nil` as `'NIL'`, a
/// floating-point number as the script wrote it.
pub open spec fn constant_text(constant: ConstantView) -> Seq<char> {
    match constant {
        ConstantView::Value(Value::Nil) => "'NIL'"@,
        ConstantView::Value(value) => display(value),
        ConstantView::Float(text) => text,
    }
}

/// The start of a line of a listing: the place of the instruction in four
/// digits, and the line of the script in four characters, or a bar where
/// the instruction before it comes from the same line.
pub open spec fn line_start(chunk: Bytecode, offset: int) -> Seq<char> {
    padded_left(digits(offset as nat), 4, '0') + " "@ + if !(offset < chunk.lines.len()) {
        "   ? "@
    } else if offset > 0 && chunk.lines[offset] == chunk.lines[offset - 1] {
        "   | "@
    } else {
        padded_left(digits(chunk.lines[offset] as nat), 4, ' ') + " "@
    }
}

/// What follows the name of an instruction in a listing: the place and the
/// text of the constant that it names, or its own place and the place that
/// it jumps to.
pub open spec fn operand_text(chunk: Bytecode, offset: int) -> Seq<char> {
    let op = OpCode::decode(chunk.code[offset]);
    if op.operands() == 1 {
        if !(offset + 1 < chunk.code.len()) {
            " missing constant"@
        } else if !(chunk.code[offset + 1] < chunk.constants.len()) {
            " "@ + padded_left(digits(chunk.code[offset + 1] as nat), 3, ' ') + " missing constant"@
        } else {
            " "@ + padded_left(digits(chunk.code[offset + 1] as nat), 3, ' ') + " "@
                + constant_text(chunk.constants[chunk.code[offset + 1] as int])
        }
    } else if op.operands() == 2 {
        if !(offset + 2 < chunk.code.len()) {
            " missing jump target"@
        } else {
            " "@ + padded_left(digits(offset as nat), 5, '0') + " "@ + padded_left(
                digits(chunk.address(offset + 1) as nat),
                5,
                '0',
            )
        }
    } else {
        Seq::empty()
    }
}

/// The line of a listing for the instruction at `offset`.
pub open spec fn instruction_text(chunk: Bytecode, offset: int) -> Seq<char> {
    line_start(chunk, offset) + padded_right(
        mnemonic(OpCode::decode(chunk.code[offset])),
        16,
    ) + operand_text(chunk, offset) + seq!['\n']
}

/// The place of the instruction behind the one at `offset`, or the end
/// of the code where the code ends before it.
pub open spec fn next_instruction(chunk: Bytecode, offset: int) -> int {
    let next = offset + 1 + OpCode::decode(chunk.code[offset]).operands();
    if next < chunk.code.len() {
        next
    } else {
        chunk.code.len() as int
    }
}

/// The lines of a listing for the instructions from `offset` on.
pub open spec fn listing_from(chunk: Bytecode, offset: int) -> Seq<char>
    decreases chunk.code.len() - offset,
{
    if 0 <= offset < chunk.code.len() {
        instruction_text(chunk, offset) + listing_from(chunk, next_instruction(chunk, offset))
    } else {
        Seq::empty()
    }
}

/// The listing of a chunk: a headline with a name for the chunk, and a
/// line for each instruction.
pub open spec fn listing(chunk: Bytecode, name: Seq<char>) -> Seq<char> {
    "== "@ + name + " ==\n"@ + listing_from(chunk, 0)
}

/// The count of the operand bytes of an instruction.
fn operands_of(op: OpCode) -> (n: usize)
    ensures
        n == op.operands(),
{
    match op {
        OpCode::Constant | OpCode::DefineExternal | OpCode::GetExternal | OpCode::SetExternal => 1,
        OpCode::Jmp | OpCode::JmpIfTrue | OpCode::JmpIfFalse => 2,
        _ => 0,
    }
}

impl Chunk {
    /// The listing of the chunk.
    pub fn disassemble(&self, name: &str) -> (text: String)
        ensures
            text@ == listing(self@, name@),
    {
        let mut out: Vec<char> = Vec::new();
        extend(&mut out, "== ");
        extend(&mut out, name);
        extend(&mut out, " ==\n");
        let n = self.len();
        let mut offset: usize = 0;
        while offset < n
            invariant
                n == self@.code.len(),
                offset <= n,
                out@ + listing_from(self@, offset as int) == listing(self@, name@),
            decreases n - offset,
        {
            let ghost before = out@;
            let next = self.disassemble_instruction(offset, &mut out);
            assert(before + (instruction_text(self@, offset as int) + listing_from(
                self@,
                next as int,
            )) =~= before + instruction_text(self@, offset as int) + listing_from(
                self@,
                next as int,
            ));
            offset = next;
        }
        assert(out@ + Seq::<char>::empty() =~= out@);
        crate::text::string_of(&out, 0, out.len())
    }

    /// Appends the start of the line of the listing for the instruction at
    /// `offset`.
    fn write_line_start(&self, offset: usize, out: &mut Vec<char>)
        requires
            offset < self@.code.len(),
        ensures
            final(out)@ == old(out)@ + line_start(self@, offset as int),
    {
        let place = unsigned_text(offset as u64);
        pad_left(out, place.as_str(), 4, '0');
        extend(out, " ");
        match self.line(offset) {
            None => extend(out, "   ? "),
            Some(line) => {
                let same = offset > 0 && match self.line(offset - 1) {
                    Some(before) => before == line,
                    None => false,
                };
                if same {
                    extend(out, "   | ");
                } else {
                    let shown = unsigned_text(line as u64);
                    pad_left(out, shown.as_str(), 4, ' ');
                    extend(out, " ");
                }
            },
        }
        assert(out@ =~= old(out)@ + line_start(self@, offset as int));
    }

    /// Appends what follows the name of the instruction at `offset`.
    fn write_operand(&self, offset: usize, out: &mut Vec<char>)
        requires
            offset < self@.code.len(),
        ensures
            final(out)@ == old(out)@ + operand_text(self@, offset as int),
    {
        let code = self.code();
        let n = code.len();
        let operands = operands_of(OpCode::from(code[offset]));
        if operands == 1 {
            if !(n - offset > 1) {
                extend(out, " missing constant");
            } else {
                let pos = code[offset + 1];
                extend(out, " ");
                let shown = unsigned_text(pos as u64);
                pad_left(out, shown.as_str(), 3, ' ');
                match self.read_constant(pos) {
                    None => extend(out, " missing constant"),
                    Some(constant) => {
                        extend(out, " ");
                        match constant {
                            Constant::Value(ScriptingValue::Nil()) => extend(out, "'NIL'"),
                            Constant::Value(value) => {
                                let shown = text_of(&value);
                                extend(out, shown.as_str());
                            },
                            Constant::Float(text) => extend(out, text.as_str()),
                        }
                    },
                }
            }
        } else if operands == 2 {
            if !(n - offset > 2) {
                extend(out, " missing jump target");
            } else {
                let target = (code[offset + 1] as usize) * 256 + (code[offset + 2] as usize);
                let place = unsigned_text(offset as u64);
                extend(out, " ");
                pad_left(out, place.as_str(), 5, '0');
                extend(out, " ");
                let shown = unsigned_text(target as u64);
                pad_left(out, shown.as_str(), 5, '0');
            }
        }
        assert(out@ =~= old(out)@ + operand_text(self@, offset as int));
    }

    /// Appends the line of the listing for the instruction at `offset`, and
    /// hands back the place of the instruction behind it.
    pub fn disassemble_instruction(&self, offset: usize, out: &mut Vec<char>) -> (next: usize)
        requires
            offset < self@.code.len(),
        ensures
            final(out)@ == old(out)@ + instruction_text(self@, offset as int),
            next == next_instruction(self@, offset as int),
    {
        let code = self.code();
        let n = code.len();
        self.write_line_start(offset, out);
        let instruction = OpCode::from(code[offset]);
        pad_right(out, name_of(instruction), 16);
        self.write_operand(offset, out);
        out.push('\n');
        assert(out@ =~= old(out)@ + instruction_text(self@, offset as int));
        let operands = operands_of(instruction);
        if n - offset > 1 + operands {
            offset + 1 + operands
        } else {
            n
        }
    }
}

} // verus!
