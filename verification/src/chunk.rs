use vstd::prelude::*;

use crate::ast::{str_debug, str_debug_string};
use crate::builtin_funcs::{digit, digit_char, push_decimal, spec_decimal};
use crate::compiler::Upvalue;
use crate::scanner::string_push;
use vstd::string::StringExecFns;

verus! {

/// The instructions of the bytecode, each one byte; some are followed by
/// operands (big-endian 16-bit indices or counts).
#[derive(Debug, PartialEq, Eq, Structural, Clone, Copy)]
pub enum OpCode {
    Return,
    ReturnHeap,
    True,
    False,
    Constant,
    HeapConstant,
    IntEqual,
    IntNotEqual,
    IntGreater,
    IntGreaterEqual,
    IntLess,
    IntLessEqual,
    FloatEqual,
    FloatNotEqual,
    FloatGreater,
    FloatGreaterEqual,
    FloatLess,
    FloatLessEqual,
    BoolEqual,
    BoolNotEqual,
    HeapEqual,
    HeapNotEqual,
    IntAdd,
    IntSubtract,
    IntMultiply,
    IntDivide,
    FloatAdd,
    FloatSubtract,
    FloatMultiply,
    FloatDivide,
    Concat,
    And,
    Or,
    To,
    IntNegate,
    FloatNegate,
    Not,
    EndExpr,
    EndHeapExpr,
    EndBlock,
    EndHeapBlock,
    Jump,
    JumpIfFalse,
    Call,
    Array,
    ArrayHeap,
    SetGlobal,
    SetHeapGlobal,
    GetGlobal,
    GetHeapGlobal,
    SetLocal,
    SetHeapLocal,
    GetLocal,
    GetHeapLocal,
    Closure,
    GetUpvalue,
    GetHeapUpvalue,
    WrapSome,
    WrapHeapSome,
    MapOp,
    Reduce,
    HeapReduce,
}

impl OpCode {
    /// The byte of the instruction: its position in the list of instructions.
    pub open spec fn spec_byte(self) -> u8 {
        match self {
            OpCode::Return => 0u8,
            OpCode::ReturnHeap => 1u8,
            OpCode::True => 2u8,
            OpCode::False => 3u8,
            OpCode::Constant => 4u8,
            OpCode::HeapConstant => 5u8,
            OpCode::IntEqual => 6u8,
            OpCode::IntNotEqual => 7u8,
            OpCode::IntGreater => 8u8,
            OpCode::IntGreaterEqual => 9u8,
            OpCode::IntLess => 10u8,
            OpCode::IntLessEqual => 11u8,
            OpCode::FloatEqual => 12u8,
            OpCode::FloatNotEqual => 13u8,
            OpCode::FloatGreater => 14u8,
            OpCode::FloatGreaterEqual => 15u8,
            OpCode::FloatLess => 16u8,
            OpCode::FloatLessEqual => 17u8,
            OpCode::BoolEqual => 18u8,
            OpCode::BoolNotEqual => 19u8,
            OpCode::HeapEqual => 20u8,
            OpCode::HeapNotEqual => 21u8,
            OpCode::IntAdd => 22u8,
            OpCode::IntSubtract => 23u8,
            OpCode::IntMultiply => 24u8,
            OpCode::IntDivide => 25u8,
            OpCode::FloatAdd => 26u8,
            OpCode::FloatSubtract => 27u8,
            OpCode::FloatMultiply => 28u8,
            OpCode::FloatDivide => 29u8,
            OpCode::Concat => 30u8,
            OpCode::And => 31u8,
            OpCode::Or => 32u8,
            OpCode::To => 33u8,
            OpCode::IntNegate => 34u8,
            OpCode::FloatNegate => 35u8,
            OpCode::Not => 36u8,
            OpCode::EndExpr => 37u8,
            OpCode::EndHeapExpr => 38u8,
            OpCode::EndBlock => 39u8,
            OpCode::EndHeapBlock => 40u8,
            OpCode::Jump => 41u8,
            OpCode::JumpIfFalse => 42u8,
            OpCode::Call => 43u8,
            OpCode::Array => 44u8,
            OpCode::ArrayHeap => 45u8,
            OpCode::SetGlobal => 46u8,
            OpCode::SetHeapGlobal => 47u8,
            OpCode::GetGlobal => 48u8,
            OpCode::GetHeapGlobal => 49u8,
            OpCode::SetLocal => 50u8,
            OpCode::SetHeapLocal => 51u8,
            OpCode::GetLocal => 52u8,
            OpCode::GetHeapLocal => 53u8,
            OpCode::Closure => 54u8,
            OpCode::GetUpvalue => 55u8,
            OpCode::GetHeapUpvalue => 56u8,
            OpCode::WrapSome => 57u8,
            OpCode::WrapHeapSome => 58u8,
            OpCode::MapOp => 59u8,
            OpCode::Reduce => 60u8,
            OpCode::HeapReduce => 61u8,
        }
    }

    /// The byte of the instruction.
    pub fn byte(&self) -> (b: u8)
        ensures
            b == self.spec_byte(),
    {
        match self {
            OpCode::Return => 0u8,
            OpCode::ReturnHeap => 1u8,
            OpCode::True => 2u8,
            OpCode::False => 3u8,
            OpCode::Constant => 4u8,
            OpCode::HeapConstant => 5u8,
            OpCode::IntEqual => 6u8,
            OpCode::IntNotEqual => 7u8,
            OpCode::IntGreater => 8u8,
            OpCode::IntGreaterEqual => 9u8,
            OpCode::IntLess => 10u8,
            OpCode::IntLessEqual => 11u8,
            OpCode::FloatEqual => 12u8,
            OpCode::FloatNotEqual => 13u8,
            OpCode::FloatGreater => 14u8,
            OpCode::FloatGreaterEqual => 15u8,
            OpCode::FloatLess => 16u8,
            OpCode::FloatLessEqual => 17u8,
            OpCode::BoolEqual => 18u8,
            OpCode::BoolNotEqual => 19u8,
            OpCode::HeapEqual => 20u8,
            OpCode::HeapNotEqual => 21u8,
            OpCode::IntAdd => 22u8,
            OpCode::IntSubtract => 23u8,
            OpCode::IntMultiply => 24u8,
            OpCode::IntDivide => 25u8,
            OpCode::FloatAdd => 26u8,
            OpCode::FloatSubtract => 27u8,
            OpCode::FloatMultiply => 28u8,
            OpCode::FloatDivide => 29u8,
            OpCode::Concat => 30u8,
            OpCode::And => 31u8,
            OpCode::Or => 32u8,
            OpCode::To => 33u8,
            OpCode::IntNegate => 34u8,
            OpCode::FloatNegate => 35u8,
            OpCode::Not => 36u8,
            OpCode::EndExpr => 37u8,
            OpCode::EndHeapExpr => 38u8,
            OpCode::EndBlock => 39u8,
            OpCode::EndHeapBlock => 40u8,
            OpCode::Jump => 41u8,
            OpCode::JumpIfFalse => 42u8,
            OpCode::Call => 43u8,
            OpCode::Array => 44u8,
            OpCode::ArrayHeap => 45u8,
            OpCode::SetGlobal => 46u8,
            OpCode::SetHeapGlobal => 47u8,
            OpCode::GetGlobal => 48u8,
            OpCode::GetHeapGlobal => 49u8,
            OpCode::SetLocal => 50u8,
            OpCode::SetHeapLocal => 51u8,
            OpCode::GetLocal => 52u8,
            OpCode::GetHeapLocal => 53u8,
            OpCode::Closure => 54u8,
            OpCode::GetUpvalue => 55u8,
            OpCode::GetHeapUpvalue => 56u8,
            OpCode::WrapSome => 57u8,
            OpCode::WrapHeapSome => 58u8,
            OpCode::MapOp => 59u8,
            OpCode::Reduce => 60u8,
            OpCode::HeapReduce => 61u8,
        }
    }

    /// The instruction a byte stands for.
    pub open spec fn spec_from_byte(b: u8) -> Option<OpCode> {
        match b {
            0u8 => Some(OpCode::Return),
            1u8 => Some(OpCode::ReturnHeap),
            2u8 => Some(OpCode::True),
            3u8 => Some(OpCode::False),
            4u8 => Some(OpCode::Constant),
            5u8 => Some(OpCode::HeapConstant),
            6u8 => Some(OpCode::IntEqual),
            7u8 => Some(OpCode::IntNotEqual),
            8u8 => Some(OpCode::IntGreater),
            9u8 => Some(OpCode::IntGreaterEqual),
            10u8 => Some(OpCode::IntLess),
            11u8 => Some(OpCode::IntLessEqual),
            12u8 => Some(OpCode::FloatEqual),
            13u8 => Some(OpCode::FloatNotEqual),
            14u8 => Some(OpCode::FloatGreater),
            15u8 => Some(OpCode::FloatGreaterEqual),
            16u8 => Some(OpCode::FloatLess),
            17u8 => Some(OpCode::FloatLessEqual),
            18u8 => Some(OpCode::BoolEqual),
            19u8 => Some(OpCode::BoolNotEqual),
            20u8 => Some(OpCode::HeapEqual),
            21u8 => Some(OpCode::HeapNotEqual),
            22u8 => Some(OpCode::IntAdd),
            23u8 => Some(OpCode::IntSubtract),
            24u8 => Some(OpCode::IntMultiply),
            25u8 => Some(OpCode::IntDivide),
            26u8 => Some(OpCode::FloatAdd),
            27u8 => Some(OpCode::FloatSubtract),
            28u8 => Some(OpCode::FloatMultiply),
            29u8 => Some(OpCode::FloatDivide),
            30u8 => Some(OpCode::Concat),
            31u8 => Some(OpCode::And),
            32u8 => Some(OpCode::Or),
            33u8 => Some(OpCode::To),
            34u8 => Some(OpCode::IntNegate),
            35u8 => Some(OpCode::FloatNegate),
            36u8 => Some(OpCode::Not),
            37u8 => Some(OpCode::EndExpr),
            38u8 => Some(OpCode::EndHeapExpr),
            39u8 => Some(OpCode::EndBlock),
            40u8 => Some(OpCode::EndHeapBlock),
            41u8 => Some(OpCode::Jump),
            42u8 => Some(OpCode::JumpIfFalse),
            43u8 => Some(OpCode::Call),
            44u8 => Some(OpCode::Array),
            45u8 => Some(OpCode::ArrayHeap),
            46u8 => Some(OpCode::SetGlobal),
            47u8 => Some(OpCode::SetHeapGlobal),
            48u8 => Some(OpCode::GetGlobal),
            49u8 => Some(OpCode::GetHeapGlobal),
            50u8 => Some(OpCode::SetLocal),
            51u8 => Some(OpCode::SetHeapLocal),
            52u8 => Some(OpCode::GetLocal),
            53u8 => Some(OpCode::GetHeapLocal),
            54u8 => Some(OpCode::Closure),
            55u8 => Some(OpCode::GetUpvalue),
            56u8 => Some(OpCode::GetHeapUpvalue),
            57u8 => Some(OpCode::WrapSome),
            58u8 => Some(OpCode::WrapHeapSome),
            59u8 => Some(OpCode::MapOp),
            60u8 => Some(OpCode::Reduce),
            61u8 => Some(OpCode::HeapReduce),
            _ => None,
        }
    }

    /// The instruction a byte stands for; bytes past the last instruction
    /// stand for none.
    pub fn from_byte(b: u8) -> (r: Option<OpCode>)
        ensures
            r == OpCode::spec_from_byte(b),
            match r {
                Some(op) => op.spec_byte() == b,
                None => b >= 62,
            },
    {
        match b {
            0u8 => Some(OpCode::Return),
            1u8 => Some(OpCode::ReturnHeap),
            2u8 => Some(OpCode::True),
            3u8 => Some(OpCode::False),
            4u8 => Some(OpCode::Constant),
            5u8 => Some(OpCode::HeapConstant),
            6u8 => Some(OpCode::IntEqual),
            7u8 => Some(OpCode::IntNotEqual),
            8u8 => Some(OpCode::IntGreater),
            9u8 => Some(OpCode::IntGreaterEqual),
            10u8 => Some(OpCode::IntLess),
            11u8 => Some(OpCode::IntLessEqual),
            12u8 => Some(OpCode::FloatEqual),
            13u8 => Some(OpCode::FloatNotEqual),
            14u8 => Some(OpCode::FloatGreater),
            15u8 => Some(OpCode::FloatGreaterEqual),
            16u8 => Some(OpCode::FloatLess),
            17u8 => Some(OpCode::FloatLessEqual),
            18u8 => Some(OpCode::BoolEqual),
            19u8 => Some(OpCode::BoolNotEqual),
            20u8 => Some(OpCode::HeapEqual),
            21u8 => Some(OpCode::HeapNotEqual),
            22u8 => Some(OpCode::IntAdd),
            23u8 => Some(OpCode::IntSubtract),
            24u8 => Some(OpCode::IntMultiply),
            25u8 => Some(OpCode::IntDivide),
            26u8 => Some(OpCode::FloatAdd),
            27u8 => Some(OpCode::FloatSubtract),
            28u8 => Some(OpCode::FloatMultiply),
            29u8 => Some(OpCode::FloatDivide),
            30u8 => Some(OpCode::Concat),
            31u8 => Some(OpCode::And),
            32u8 => Some(OpCode::Or),
            33u8 => Some(OpCode::To),
            34u8 => Some(OpCode::IntNegate),
            35u8 => Some(OpCode::FloatNegate),
            36u8 => Some(OpCode::Not),
            37u8 => Some(OpCode::EndExpr),
            38u8 => Some(OpCode::EndHeapExpr),
            39u8 => Some(OpCode::EndBlock),
            40u8 => Some(OpCode::EndHeapBlock),
            41u8 => Some(OpCode::Jump),
            42u8 => Some(OpCode::JumpIfFalse),
            43u8 => Some(OpCode::Call),
            44u8 => Some(OpCode::Array),
            45u8 => Some(OpCode::ArrayHeap),
            46u8 => Some(OpCode::SetGlobal),
            47u8 => Some(OpCode::SetHeapGlobal),
            48u8 => Some(OpCode::GetGlobal),
            49u8 => Some(OpCode::GetHeapGlobal),
            50u8 => Some(OpCode::SetLocal),
            51u8 => Some(OpCode::SetHeapLocal),
            52u8 => Some(OpCode::GetLocal),
            53u8 => Some(OpCode::GetHeapLocal),
            54u8 => Some(OpCode::Closure),
            55u8 => Some(OpCode::GetUpvalue),
            56u8 => Some(OpCode::GetHeapUpvalue),
            57u8 => Some(OpCode::WrapSome),
            58u8 => Some(OpCode::WrapHeapSome),
            59u8 => Some(OpCode::MapOp),
            60u8 => Some(OpCode::Reduce),
            61u8 => Some(OpCode::HeapReduce),
            _ => None,
        }
    }
}

/// Every instruction is written as a byte that reads back as the same
/// instruction, so no two instructions share a byte.
pub proof fn law_opcode_byte_roundtrip(a: OpCode, b: OpCode)
    ensures
        OpCode::spec_from_byte(a.spec_byte()) == Some(a),
        a.spec_byte() == b.spec_byte() ==> a == b,
{
}

/// A 16-bit number as two bytes, high byte first.
pub open spec fn be16(v: u16) -> Seq<u8> {
    seq![(v / 256) as u8, (v % 256) as u8]
}

fn push_u16(bytes: &mut Vec<u8>, v: u16)
    ensures
        final(bytes)@ == old(bytes)@ + be16(v),
{
    bytes.push((v / 256) as u8);
    bytes.push((v % 256) as u8);
}

/// The operand bytes of the upvalues a closure captures: for each, 1 if it is
/// a local of the enclosing function and 0 if not, then its index.
pub open spec fn upvalue_bytes(uvs: Seq<Upvalue>) -> Seq<u8>
    decreases uvs.len(),
{
    if uvs.len() == 0 {
        Seq::empty()
    } else {
        upvalue_bytes(uvs.drop_last()) + seq![if uvs.last().is_local { 1u8 } else { 0u8 }]
            + be16(uvs.last().index)
    }
}

/// A constant that lives on the heap: a string, or a function together with
/// its compiled code.
pub enum HeapConstant {
    Str(String),
    Closure(Box<Function>),
}

/// A compiled function: its name, how many values and heap values it
/// captures, how many arguments of each kind it takes, whether it returns a
/// heap value, and its code.
pub struct Function {
    pub name: String,
    pub num_upvalues: u16,
    pub num_heap_upvalues: u16,
    pub arity: u8,
    pub heap_arity: u8,
    pub return_is_heap: bool,
    pub chunk: Chunk,
}

impl Function {
    /// An anonymous function with no arguments, no captures and no code.
    pub fn new() -> (f: Function)
        ensures
            f.name@ == Seq::<char>::empty(),
            f.num_upvalues == 0,
            f.num_heap_upvalues == 0,
            f.arity == 0,
            f.heap_arity == 0,
            !f.return_is_heap,
            f.chunk.is_empty(),
    {
        Function {
            name: String::new(),
            num_upvalues: 0,
            num_heap_upvalues: 0,
            arity: 0,
            heap_arity: 0,
            return_is_heap: false,
            chunk: Chunk::new(),
        }
    }
}

/// A piece of bytecode: its bytes, its 64-bit constants (each kept as its
/// bits), its heap constants, and, for each line after the first, the byte
/// index at which that line starts.
pub struct Chunk {
    pub bytes: Vec<u8>,
    pub constants: Vec<u64>,
    pub heap_constants: Vec<HeapConstant>,
    pub newlines: Vec<usize>,
}

/// The line starts after the code has been brought up to `line`: one entry at
/// the current length for every line that was skipped.
pub open spec fn synced(newlines: Seq<usize>, len: usize, line: int) -> Seq<usize> {
    if line > newlines.len() + 1 {
        newlines + Seq::new((line - newlines.len() - 1) as nat, |i: int| len)
    } else {
        newlines
    }
}

/// The line that the byte at `index` belongs to: one more than the number of
/// line starts, from the first on, that are not after it.
pub open spec fn spec_line_num(newlines: Seq<usize>, index: usize) -> nat
    decreases newlines.len(),
{
    if newlines.len() == 0 || newlines[0] > index {
        1
    } else {
        1 + spec_line_num(newlines.drop_first(), index)
    }
}

/// The message of a chunk with too many constants.
pub open spec fn too_many_constants() -> Seq<char> {
    "Too many constants in one chunk"@
}

impl Chunk {
    /// Whether the chunk holds nothing.
    pub open spec fn is_empty(&self) -> bool {
        &&& self.bytes@.len() == 0
        &&& self.constants@.len() == 0
        &&& self.heap_constants@.len() == 0
        &&& self.newlines@.len() == 0
    }

    /// What writing a line asks of the chunk: room to count lines.
    pub open spec fn room(&self, line: usize) -> bool {
        &&& self.newlines@.len() + 1 < usize::MAX
        &&& line < usize::MAX
    }

    pub fn new() -> (c: Chunk)
        ensures
            c.is_empty(),
    {
        Chunk { bytes: Vec::new(), constants: Vec::new(), heap_constants: Vec::new(), newlines: Vec::new() }
    }

    /// The number of bytes.
    pub fn len(&self) -> (n: usize)
        ensures
            n == self.bytes@.len(),
    {
        self.bytes.len()
    }

    /// Records the start of every line from the current one up to `line` at
    /// the current length of the code.
    pub fn sync_line(&mut self, line: usize)
        requires
            old(self).room(line),
        ensures
            final(self).newlines@ == synced(old(self).newlines@, old(self).bytes@.len() as usize, line as int),
            final(self).bytes == old(self).bytes,
            final(self).constants == old(self).constants,
            final(self).heap_constants == old(self).heap_constants,
    {
        let current_line = self.newlines.len() + 1;
        if line > current_line {
            let len = self.bytes.len();
            let ghost start = self.newlines@;
            let mut k: usize = current_line;
            while k < line
                invariant
                    current_line <= k <= line,
                    current_line == start.len() + 1,
                    len == self.bytes@.len(),
                    self.newlines@ == start + Seq::new((k - current_line) as nat, |i: int| len),
                    self.bytes == old(self).bytes,
                    self.constants == old(self).constants,
                    self.heap_constants == old(self).heap_constants,
                decreases line - k,
            {
                self.newlines.push(len);
                assert(self.newlines@ =~= start + Seq::new((k + 1 - current_line) as nat, |i: int| len));
                k = k + 1;
            }
        }
    }

    /// Appends an instruction, and brings the lines up to `line`.
    pub fn write_opcode(&mut self, opcode: OpCode, line: usize)
        requires
            old(self).room(line),
        ensures
            final(self).bytes@ == old(self).bytes@.push(opcode.spec_byte()),
            final(self).newlines@ == synced(old(self).newlines@, (old(self).bytes@.len() + 1) as usize, line as int),
            final(self).constants == old(self).constants,
            final(self).heap_constants == old(self).heap_constants,
    {
        let b = opcode.byte();
        self.bytes.push(b);
        self.sync_line(line);
    }

    /// Adds a 64-bit constant and gives its index; past index `u16::MAX` the
    /// constant is kept but cannot be referred to, and the error says so.
    pub fn create_constant(&mut self, value: u64) -> (r: Result<u16, &'static str>)
        requires
            old(self).constants@.len() < usize::MAX,
        ensures
            final(self).constants@ == old(self).constants@.push(value),
            final(self).bytes == old(self).bytes,
            final(self).newlines == old(self).newlines,
            final(self).heap_constants == old(self).heap_constants,
            match r {
                Ok(i) => i == old(self).constants@.len(),
                Err(e) => old(self).constants@.len() > u16::MAX && e@ == too_many_constants(),
            },
    {
        self.constants.push(value);
        let idx = self.constants.len() - 1;
        if idx > 65535 {
            proof {
                reveal_strlit("Too many constants in one chunk");
            }
            return Err("Too many constants in one chunk");
        }
        Ok(idx as u16)
    }

    /// Adds a 64-bit constant and the instruction that pushes it.
    pub fn write_constant(&mut self, value: u64, line: usize) -> (r: Result<(), &'static str>)
        requires
            old(self).constants@.len() < usize::MAX,
            old(self).room(line),
        ensures
            final(self).constants@ == old(self).constants@.push(value),
            final(self).heap_constants == old(self).heap_constants,
            match r {
                Ok(()) => old(self).constants@.len() <= u16::MAX && final(self).bytes@ == old(self).bytes@
                    + seq![OpCode::Constant.spec_byte()] + be16(old(self).constants@.len() as u16)
                    && final(self).newlines@ == synced(
                    old(self).newlines@,
                    (old(self).bytes@.len() + 1) as usize,
                    line as int,
                ),
                Err(e) => old(self).constants@.len() > u16::MAX && e@ == too_many_constants()
                    && final(self).bytes == old(self).bytes && final(self).newlines == old(self).newlines,
            },
    {
        let idx = self.create_constant(value)?;
        self.write_opcode(OpCode::Constant, line);
        push_u16(&mut self.bytes, idx);
        Ok(())
    }

    /// Adds a heap constant and gives its index; past index `u16::MAX` the
    /// constant is kept but cannot be referred to, and the error says so.
    pub fn create_heap_constant(&mut self, value: HeapConstant) -> (r: Result<u16, &'static str>)
        requires
            old(self).heap_constants@.len() < usize::MAX,
        ensures
            final(self).heap_constants@ == old(self).heap_constants@.push(value),
            final(self).bytes == old(self).bytes,
            final(self).newlines == old(self).newlines,
            final(self).constants == old(self).constants,
            match r {
                Ok(i) => i == old(self).heap_constants@.len(),
                Err(e) => old(self).heap_constants@.len() > u16::MAX && e@ == too_many_constants(),
            },
    {
        self.heap_constants.push(value);
        let idx = self.heap_constants.len() - 1;
        if idx > 65535 {
            proof {
                reveal_strlit("Too many constants in one chunk");
            }
            return Err("Too many constants in one chunk");
        }
        Ok(idx as u16)
    }

    /// Adds a heap constant and the instruction that pushes it.
    pub fn write_heap_constant(&mut self, value: HeapConstant, line: usize) -> (r: Result<(), &'static str>)
        requires
            old(self).heap_constants@.len() < usize::MAX,
            old(self).room(line),
        ensures
            final(self).heap_constants@ == old(self).heap_constants@.push(value),
            final(self).constants == old(self).constants,
            match r {
                Ok(()) => old(self).heap_constants@.len() <= u16::MAX && final(self).bytes@ == old(self).bytes@
                    + seq![OpCode::HeapConstant.spec_byte()] + be16(old(self).heap_constants@.len() as u16)
                    && final(self).newlines@ == synced(
                    old(self).newlines@,
                    (old(self).bytes@.len() + 1) as usize,
                    line as int,
                ),
                Err(e) => old(self).heap_constants@.len() > u16::MAX && e@ == too_many_constants()
                    && final(self).bytes == old(self).bytes && final(self).newlines == old(self).newlines,
            },
    {
        let idx = self.create_heap_constant(value)?;
        self.write_opcode(OpCode::HeapConstant, line);
        push_u16(&mut self.bytes, idx);
        Ok(())
    }

    /// Adds a function as a heap constant and the instruction that makes a
    /// closure of it, followed by what it captures.
    pub fn write_closure(
        &mut self,
        function: Function,
        upvalues: &Vec<Upvalue>,
        heap_upvalues: &Vec<Upvalue>,
        line: usize,
    ) -> (r: Result<(), &'static str>)
        requires
            old(self).heap_constants@.len() < usize::MAX,
            old(self).room(line),
        ensures
            final(self).heap_constants@.len() == old(self).heap_constants@.len() + 1,
            final(self).heap_constants@.drop_last() == old(self).heap_constants@,
            final(self).heap_constants@.last() matches HeapConstant::Closure(f) && *f == function,
            final(self).constants == old(self).constants,
            match r {
                Ok(()) => old(self).heap_constants@.len() <= u16::MAX && final(self).bytes@ == old(self).bytes@
                    + seq![OpCode::Closure.spec_byte()] + be16(old(self).heap_constants@.len() as u16)
                    + upvalue_bytes(upvalues@) + upvalue_bytes(heap_upvalues@)
                    && final(self).newlines@ == synced(
                    old(self).newlines@,
                    (old(self).bytes@.len() + 1) as usize,
                    line as int,
                ),
                Err(e) => old(self).heap_constants@.len() > u16::MAX && e@ == too_many_constants()
                    && final(self).bytes == old(self).bytes && final(self).newlines == old(self).newlines,
            },
    {
        let idx = self.create_heap_constant(HeapConstant::Closure(Box::new(function)))?;
        self.write_opcode(OpCode::Closure, line);
        push_u16(&mut self.bytes, idx);
        let ghost b0 = self.bytes@;
        self.write_upvalues(upvalues);
        let ghost b1 = self.bytes@;
        self.write_upvalues(heap_upvalues);
        assert(self.bytes@ =~= old(self).bytes@ + seq![OpCode::Closure.spec_byte()] + be16(idx)
            + upvalue_bytes(upvalues@) + upvalue_bytes(heap_upvalues@));
        Ok(())
    }

    fn write_upvalues(&mut self, upvalues: &Vec<Upvalue>)
        ensures
            final(self).bytes@ == old(self).bytes@ + upvalue_bytes(upvalues@),
            final(self).newlines == old(self).newlines,
            final(self).constants == old(self).constants,
            final(self).heap_constants == old(self).heap_constants,
    {
        let mut i: usize = 0;
        while i < upvalues.len()
            invariant
                0 <= i <= upvalues@.len(),
                self.bytes@ == old(self).bytes@ + upvalue_bytes(upvalues@.take(i as int)),
                self.newlines == old(self).newlines,
                self.constants == old(self).constants,
                self.heap_constants == old(self).heap_constants,
            decreases upvalues@.len() - i,
        {
            let uv = upvalues[i];
            self.bytes.push(if uv.is_local { 1u8 } else { 0u8 });
            push_u16(&mut self.bytes, uv.index);
            assert(upvalues@.take(i + 1).drop_last() =~= upvalues@.take(i as int));
            assert(self.bytes@ =~= old(self).bytes@ + upvalue_bytes(upvalues@.take(i + 1)));
            i = i + 1;
        }
        assert(upvalues@.take(i as int) =~= upvalues@);
    }

    /// An instruction with one 16-bit operand.
    fn write_op_u16(&mut self, opcode: OpCode, v: u16, line: usize)
        requires
            old(self).room(line),
        ensures
            final(self).bytes@ == old(self).bytes@ + seq![opcode.spec_byte()] + be16(v),
            final(self).newlines@ == synced(old(self).newlines@, (old(self).bytes@.len() + 1) as usize, line as int),
            final(self).constants == old(self).constants,
            final(self).heap_constants == old(self).heap_constants,
    {
        self.write_opcode(opcode, line);
        push_u16(&mut self.bytes, v);
        assert(self.bytes@ =~= old(self).bytes@ + seq![opcode.spec_byte()] + be16(v));
    }

    /// Stores the top of the stack in the global whose name is heap constant
    /// `idx`.
    pub fn write_set_global(&mut self, idx: u16, is_heap: bool, line: usize) -> (r: Result<(), &'static str>)
        requires
            old(self).room(line),
        ensures
            r is Ok,
            final(self).bytes@ == old(self).bytes@ + seq![
                (if is_heap { OpCode::SetHeapGlobal } else { OpCode::SetGlobal }).spec_byte(),
            ] + be16(idx),
            final(self).newlines@ == synced(old(self).newlines@, (old(self).bytes@.len() + 1) as usize, line as int),
            final(self).constants == old(self).constants,
            final(self).heap_constants == old(self).heap_constants,
    {
        self.write_op_u16(if is_heap { OpCode::SetHeapGlobal } else { OpCode::SetGlobal }, idx, line);
        Ok(())
    }

    /// Adds the name of a global as a heap constant and the instruction that
    /// pushes that global's value.
    pub fn write_get_global(&mut self, name: String, is_heap: bool, line: usize) -> (r: Result<(), &'static str>)
        requires
            old(self).heap_constants@.len() < usize::MAX,
            old(self).room(line),
        ensures
            final(self).heap_constants@ == old(self).heap_constants@.push(HeapConstant::Str(name)),
            final(self).constants == old(self).constants,
            match r {
                Ok(()) => old(self).heap_constants@.len() <= u16::MAX && final(self).bytes@ == old(self).bytes@
                    + seq![(if is_heap { OpCode::GetHeapGlobal } else { OpCode::GetGlobal }).spec_byte()]
                    + be16(old(self).heap_constants@.len() as u16) && final(self).newlines@ == synced(
                    old(self).newlines@,
                    (old(self).bytes@.len() + 1) as usize,
                    line as int,
                ),
                Err(e) => old(self).heap_constants@.len() > u16::MAX && e@ == too_many_constants()
                    && final(self).bytes == old(self).bytes && final(self).newlines == old(self).newlines,
            },
    {
        let idx = self.create_heap_constant(HeapConstant::Str(name))?;
        self.write_op_u16(if is_heap { OpCode::GetHeapGlobal } else { OpCode::GetGlobal }, idx, line);
        Ok(())
    }

    /// Pushes the value of local `idx`.
    pub fn write_get_local(&mut self, idx: u16, is_heap: bool, line: usize) -> (r: Result<(), &'static str>)
        requires
            old(self).room(line),
        ensures
            r is Ok,
            final(self).bytes@ == old(self).bytes@ + seq![
                (if is_heap { OpCode::GetHeapLocal } else { OpCode::GetLocal }).spec_byte(),
            ] + be16(idx),
            final(self).newlines@ == synced(old(self).newlines@, (old(self).bytes@.len() + 1) as usize, line as int),
            final(self).constants == old(self).constants,
            final(self).heap_constants == old(self).heap_constants,
    {
        self.write_op_u16(if is_heap { OpCode::GetHeapLocal } else { OpCode::GetLocal }, idx, line);
        Ok(())
    }

    /// Pushes the value of upvalue `idx`.
    pub fn write_get_upvalue(&mut self, idx: u16, is_heap: bool, line: usize) -> (r: Result<(), &'static str>)
        requires
            old(self).room(line),
        ensures
            r is Ok,
            final(self).bytes@ == old(self).bytes@ + seq![
                (if is_heap { OpCode::GetHeapUpvalue } else { OpCode::GetUpvalue }).spec_byte(),
            ] + be16(idx),
            final(self).newlines@ == synced(old(self).newlines@, (old(self).bytes@.len() + 1) as usize, line as int),
            final(self).constants == old(self).constants,
            final(self).heap_constants == old(self).heap_constants,
    {
        self.write_op_u16(if is_heap { OpCode::GetHeapUpvalue } else { OpCode::GetUpvalue }, idx, line);
        Ok(())
    }

    /// Ends a block, popping its stack and heap locals.
    pub fn write_endblock(&mut self, n_pops: u16, n_heap_pops: u16, is_heap: bool, line: usize) -> (r: Result<
        (),
        &'static str,
    >)
        requires
            old(self).room(line),
        ensures
            r is Ok,
            final(self).bytes@ == old(self).bytes@ + seq![
                (if is_heap { OpCode::EndHeapBlock } else { OpCode::EndBlock }).spec_byte(),
            ] + be16(n_pops) + be16(n_heap_pops),
            final(self).newlines@ == synced(old(self).newlines@, (old(self).bytes@.len() + 1) as usize, line as int),
            final(self).constants == old(self).constants,
            final(self).heap_constants == old(self).heap_constants,
    {
        self.write_op_u16(if is_heap { OpCode::EndHeapBlock } else { OpCode::EndBlock }, n_pops, line);
        push_u16(&mut self.bytes, n_heap_pops);
        Ok(())
    }

    /// Writes a jump with a placeholder offset and gives the index of the
    /// offset, to be patched later. Only the two jumps are accepted.
    pub fn write_jump(&mut self, opcode: OpCode, line: usize) -> (r: Result<usize, &'static str>)
        requires
            old(self).room(line),
        ensures
            final(self).constants == old(self).constants,
            final(self).heap_constants == old(self).heap_constants,
            match r {
                Ok(i) => (opcode == OpCode::Jump || opcode == OpCode::JumpIfFalse) && final(self).bytes@
                    == old(self).bytes@ + seq![opcode.spec_byte(), 0u8, 0u8] && i == old(self).bytes@.len() + 1
                    && final(self).newlines@ == synced(
                    old(self).newlines@,
                    (old(self).bytes@.len() + 1) as usize,
                    line as int,
                ),
                Err(e) => !(opcode == OpCode::Jump || opcode == OpCode::JumpIfFalse) && e@
                    == "Invalid opcode for write_jump"@ && *final(self) == *old(self),
            },
    {
        match opcode {
            OpCode::Jump => {},
            OpCode::JumpIfFalse => {},
            _ => {
                proof {
                    reveal_strlit("Invalid opcode for write_jump");
                }
                return Err("Invalid opcode for write_jump");
            },
        }
        self.write_op_u16(opcode, 0, line);
        assert(be16(0) =~= seq![0u8, 0u8]);
        assert(self.bytes@ =~= old(self).bytes@ + seq![opcode.spec_byte(), 0u8, 0u8]);
        Ok(self.bytes.len() - 2)
    }

    /// Sets the offset at `idx` to the distance from just after it to the end
    /// of the code; an offset past `u16::MAX` is refused.
    pub fn patch_jump(&mut self, idx: usize) -> (r: Result<(), &'static str>)
        requires
            idx + 2 <= old(self).bytes@.len(),
        ensures
            final(self).constants == old(self).constants,
            final(self).heap_constants == old(self).heap_constants,
            final(self).newlines == old(self).newlines,
            ({
                let jump = old(self).bytes@.len() - idx - 2;
                match r {
                    Ok(()) => jump <= u16::MAX && final(self).bytes@ == old(self).bytes@.update(
                        idx as int,
                        (jump / 256) as u8,
                    ).update(idx + 1, (jump % 256) as u8),
                    Err(e) => jump > u16::MAX && e@ == "Jump offset overflow"@ && *final(self) == *old(self),
                }
            }),
    {
        let jump = self.bytes.len() - idx - 2;
        if jump > 65535 {
            proof {
                reveal_strlit("Jump offset overflow");
            }
            return Err("Jump offset overflow");
        }
        self.bytes.set(idx, (jump / 256) as u8);
        self.bytes.set(idx + 1, (jump % 256) as u8);
        Ok(())
    }

    /// Builds an array of the top `num_elems` stack values.
    pub fn write_array(&mut self, num_elems: u16, line: usize) -> (r: Result<(), &'static str>)
        requires
            old(self).room(line),
        ensures
            r is Ok,
            final(self).bytes@ == old(self).bytes@ + seq![OpCode::Array.spec_byte()] + be16(num_elems),
            final(self).newlines@ == synced(old(self).newlines@, (old(self).bytes@.len() + 1) as usize, line as int),
            final(self).constants == old(self).constants,
            final(self).heap_constants == old(self).heap_constants,
    {
        self.write_op_u16(OpCode::Array, num_elems, line);
        Ok(())
    }

    /// Builds an array of the top `num_elems` heap values.
    pub fn write_array_array(&mut self, num_elems: u16, line: usize) -> (r: Result<(), &'static str>)
        requires
            old(self).room(line),
        ensures
            r is Ok,
            final(self).bytes@ == old(self).bytes@ + seq![OpCode::ArrayHeap.spec_byte()] + be16(num_elems),
            final(self).newlines@ == synced(old(self).newlines@, (old(self).bytes@.len() + 1) as usize, line as int),
            final(self).constants == old(self).constants,
            final(self).heap_constants == old(self).heap_constants,
    {
        self.write_op_u16(OpCode::ArrayHeap, num_elems, line);
        Ok(())
    }

    /// Reads the byte at `ip` and moves past it.
    pub fn read_u8(&self, ip: &mut usize) -> (r: u8)
        requires
            *old(ip) < self.bytes@.len(),
        ensures
            r == self.bytes@[*old(ip) as int],
            *final(ip) == *old(ip) + 1,
    {
        let n = self.bytes.len();
        let out = self.bytes[*ip];
        *ip = *ip + 1;
        out
    }

    /// Reads the big-endian 16-bit number at `ip` and moves past it.
    pub fn read_u16(&self, ip: &mut usize) -> (r: u16)
        requires
            *old(ip) + 2 <= self.bytes@.len(),
        ensures
            r == self.bytes@[*old(ip) as int] * 256 + self.bytes@[*old(ip) + 1],
            be16(r) == self.bytes@.subrange(*old(ip) as int, *old(ip) + 2),
            *final(ip) == *old(ip) + 2,
    {
        let n = self.bytes.len();
        let hi = self.bytes[*ip] as u16;
        let lo = self.bytes[*ip + 1] as u16;
        *ip = *ip + 2;
        let r = hi * 256 + lo;
        assert(be16(r) =~= self.bytes@.subrange(*old(ip) as int, *old(ip) + 2));
        r
    }

    /// Reads the index at `ip` and gives the 64-bit constant it names.
    pub fn read_constant(&self, ip: &mut usize) -> (r: u64)
        requires
            *old(ip) + 2 <= self.bytes@.len(),
            self.bytes@[*old(ip) as int] * 256 + self.bytes@[*old(ip) + 1] < self.constants@.len(),
        ensures
            r == self.constants@[self.bytes@[*old(ip) as int] * 256 + self.bytes@[*old(ip) + 1]],
            *final(ip) == *old(ip) + 2,
    {
        let index = self.read_u16(ip);
        self.constants[index as usize]
    }

    /// Reads the index at `ip` and gives the heap constant it names.
    pub fn read_heap_constant(&self, ip: &mut usize) -> (r: &HeapConstant)
        requires
            *old(ip) + 2 <= self.bytes@.len(),
            self.bytes@[*old(ip) as int] * 256 + self.bytes@[*old(ip) + 1] < self.heap_constants@.len(),
        ensures
            *r == self.heap_constants@[self.bytes@[*old(ip) as int] * 256 + self.bytes@[*old(ip) + 1]],
            *final(ip) == *old(ip) + 2,
    {
        let index = self.read_u16(ip);
        &self.heap_constants[index as usize]
    }

    /// The line of the byte at `index`.
    pub fn line_num(&self, index: usize) -> (n: usize)
        requires
            self.newlines@.len() < usize::MAX,
        ensures
            n == spec_line_num(self.newlines@, index),
    {
        let ghost nl = self.newlines@;
        let mut i: usize = 0;
        assert(nl.skip(0) =~= nl);
        while i < self.newlines.len()
            invariant
                0 <= i <= nl.len(),
                nl == self.newlines@,
                nl.len() < usize::MAX,
                spec_line_num(nl, index) == i + spec_line_num(nl.skip(i as int), index),
            decreases nl.len() - i,
        {
            assert(nl.skip(i as int).drop_first() =~= nl.skip(i + 1));
            if self.newlines[i] > index {
                return i + 1;
            }
            i = i + 1;
        }
        i + 1
    }
}

impl OpCode {
    /// The instruction's name as the disassembly writes it.
    pub open spec fn spec_name(self) -> Seq<char> {
        match self {
            OpCode::Return => "Return"@,
            OpCode::ReturnHeap => "ReturnHeap"@,
            OpCode::True => "True"@,
            OpCode::False => "False"@,
            OpCode::Constant => "Constant"@,
            OpCode::HeapConstant => "HeapConstant"@,
            OpCode::IntEqual => "IntEqual"@,
            OpCode::IntNotEqual => "IntNotEqual"@,
            OpCode::IntGreater => "IntGreater"@,
            OpCode::IntGreaterEqual => "IntGreaterEqual"@,
            OpCode::IntLess => "IntLess"@,
            OpCode::IntLessEqual => "IntLessEqual"@,
            OpCode::FloatEqual => "FloatEqual"@,
            OpCode::FloatNotEqual => "FloatNotEqual"@,
            OpCode::FloatGreater => "FloatGreater"@,
            OpCode::FloatGreaterEqual => "FloatGreaterEqual"@,
            OpCode::FloatLess => "FloatLess"@,
            OpCode::FloatLessEqual => "FloatLessEqual"@,
            OpCode::BoolEqual => "BoolEqual"@,
            OpCode::BoolNotEqual => "BoolNotEqual"@,
            OpCode::HeapEqual => "HeapEqual"@,
            OpCode::HeapNotEqual => "HeapNotEqual"@,
            OpCode::IntAdd => "IntAdd"@,
            OpCode::IntSubtract => "IntSubtract"@,
            OpCode::IntMultiply => "IntMultiply"@,
            OpCode::IntDivide => "IntDivide"@,
            OpCode::FloatAdd => "FloatAdd"@,
            OpCode::FloatSubtract => "FloatSubtract"@,
            OpCode::FloatMultiply => "FloatMultiply"@,
            OpCode::FloatDivide => "FloatDivide"@,
            OpCode::Concat => "Concat"@,
            OpCode::And => "And"@,
            OpCode::Or => "Or"@,
            OpCode::To => "To"@,
            OpCode::IntNegate => "IntNegate"@,
            OpCode::FloatNegate => "FloatNegate"@,
            OpCode::Not => "Not"@,
            OpCode::EndExpr => "EndExpr"@,
            OpCode::EndHeapExpr => "EndHeapExpr"@,
            OpCode::EndBlock => "EndBlock"@,
            OpCode::EndHeapBlock => "EndHeapBlock"@,
            OpCode::Jump => "Jump"@,
            OpCode::JumpIfFalse => "JumpIfFalse"@,
            OpCode::Call => "Call"@,
            OpCode::Array => "Array"@,
            OpCode::ArrayHeap => "ArrayHeap"@,
            OpCode::SetGlobal => "SetGlobal"@,
            OpCode::SetHeapGlobal => "SetHeapGlobal"@,
            OpCode::GetGlobal => "GetGlobal"@,
            OpCode::GetHeapGlobal => "GetHeapGlobal"@,
            OpCode::SetLocal => "SetLocal"@,
            OpCode::SetHeapLocal => "SetHeapLocal"@,
            OpCode::GetLocal => "GetLocal"@,
            OpCode::GetHeapLocal => "GetHeapLocal"@,
            OpCode::Closure => "Closure"@,
            OpCode::GetUpvalue => "GetUpvalue"@,
            OpCode::GetHeapUpvalue => "GetHeapUpvalue"@,
            OpCode::WrapSome => "WrapSome"@,
            OpCode::WrapHeapSome => "WrapHeapSome"@,
            OpCode::MapOp => "Map"@,
            OpCode::Reduce => "Reduce"@,
            OpCode::HeapReduce => "HeapReduce"@,
        }
    }

    /// The instruction's name as the disassembly writes it.
    pub fn name(&self) -> (r: &'static str)
        ensures
            r@ == self.spec_name(),
    {
        match self {
            OpCode::Return => "Return",
            OpCode::ReturnHeap => "ReturnHeap",
            OpCode::True => "True",
            OpCode::False => "False",
            OpCode::Constant => "Constant",
            OpCode::HeapConstant => "HeapConstant",
            OpCode::IntEqual => "IntEqual",
            OpCode::IntNotEqual => "IntNotEqual",
            OpCode::IntGreater => "IntGreater",
            OpCode::IntGreaterEqual => "IntGreaterEqual",
            OpCode::IntLess => "IntLess",
            OpCode::IntLessEqual => "IntLessEqual",
            OpCode::FloatEqual => "FloatEqual",
            OpCode::FloatNotEqual => "FloatNotEqual",
            OpCode::FloatGreater => "FloatGreater",
            OpCode::FloatGreaterEqual => "FloatGreaterEqual",
            OpCode::FloatLess => "FloatLess",
            OpCode::FloatLessEqual => "FloatLessEqual",
            OpCode::BoolEqual => "BoolEqual",
            OpCode::BoolNotEqual => "BoolNotEqual",
            OpCode::HeapEqual => "HeapEqual",
            OpCode::HeapNotEqual => "HeapNotEqual",
            OpCode::IntAdd => "IntAdd",
            OpCode::IntSubtract => "IntSubtract",
            OpCode::IntMultiply => "IntMultiply",
            OpCode::IntDivide => "IntDivide",
            OpCode::FloatAdd => "FloatAdd",
            OpCode::FloatSubtract => "FloatSubtract",
            OpCode::FloatMultiply => "FloatMultiply",
            OpCode::FloatDivide => "FloatDivide",
            OpCode::Concat => "Concat",
            OpCode::And => "And",
            OpCode::Or => "Or",
            OpCode::To => "To",
            OpCode::IntNegate => "IntNegate",
            OpCode::FloatNegate => "FloatNegate",
            OpCode::Not => "Not",
            OpCode::EndExpr => "EndExpr",
            OpCode::EndHeapExpr => "EndHeapExpr",
            OpCode::EndBlock => "EndBlock",
            OpCode::EndHeapBlock => "EndHeapBlock",
            OpCode::Jump => "Jump",
            OpCode::JumpIfFalse => "JumpIfFalse",
            OpCode::Call => "Call",
            OpCode::Array => "Array",
            OpCode::ArrayHeap => "ArrayHeap",
            OpCode::SetGlobal => "SetGlobal",
            OpCode::SetHeapGlobal => "SetHeapGlobal",
            OpCode::GetGlobal => "GetGlobal",
            OpCode::GetHeapGlobal => "GetHeapGlobal",
            OpCode::SetLocal => "SetLocal",
            OpCode::SetHeapLocal => "SetHeapLocal",
            OpCode::GetLocal => "GetLocal",
            OpCode::GetHeapLocal => "GetHeapLocal",
            OpCode::Closure => "Closure",
            OpCode::GetUpvalue => "GetUpvalue",
            OpCode::GetHeapUpvalue => "GetHeapUpvalue",
            OpCode::WrapSome => "WrapSome",
            OpCode::WrapHeapSome => "WrapHeapSome",
            OpCode::MapOp => "Map",
            OpCode::Reduce => "Reduce",
            OpCode::HeapReduce => "HeapReduce",
        }
    }
}


/// The character of a hexadecimal digit, in lower case.
pub open spec fn hex_char(d: nat) -> char {
    if d < 10 {
        digit_char(d)
    } else if d == 10 {
        'a'
    } else if d == 11 {
        'b'
    } else if d == 12 {
        'c'
    } else if d == 13 {
        'd'
    } else if d == 14 {
        'e'
    } else {
        'f'
    }
}

/// The hexadecimal digits of a number, without leading zeros.
pub open spec fn spec_hex(n: nat) -> Seq<char>
    decreases n,
{
    if n < 16 {
        seq![hex_char(n)]
    } else {
        spec_hex(n / 16) + seq![hex_char(n % 16)]
    }
}

/// A number in decimal, padded with zeros on the left to four digits.
pub open spec fn spec_pad4(n: nat) -> Seq<char> {
    let d = spec_decimal(n);
    if d.len() >= 4 {
        d
    } else {
        Seq::new((4 - d.len()) as nat, |i: int| '0') + d
    }
}

/// The big-endian 16-bit number at `i`.
pub open spec fn u16_at(b: Seq<u8>, i: int) -> nat {
    (b[i] * 256 + b[i + 1]) as nat
}

/// How a heap constant is shown: a string quoted and escaped, a function by
/// its name, captures, arities and code length.
pub open spec fn heap_debug(h: HeapConstant) -> Seq<char> {
    match h {
        HeapConstant::Str(s) => "String("@ + str_debug(s@) + ")"@,
        HeapConstant::Closure(f) => "Closure([]"@ + f.name@ + "["@ + spec_decimal(f.num_upvalues as nat) + "](<"@
            + spec_decimal(f.arity as nat) + "+"@ + spec_decimal(f.heap_arity as nat) + ">){"@ + spec_decimal(
            f.chunk.bytes@.len(),
        ) + "})"@,
    }
}

/// The lines that list the captures of a closure, `count` of them starting
/// at byte `start`.
pub open spec fn closure_lines(b: Seq<u8>, start: int, count: nat) -> Seq<char>
    decreases count,
{
    if count == 0 {
        Seq::empty()
    } else {
        let p = start + 3 * (count - 1);
        closure_lines(b, start, (count - 1) as nat) + "\n | local: "@ + (if b[p] == 1 { "true"@ } else { "false"@ })
            + ", idx: "@ + spec_decimal(u16_at(b, p + 1))
    }
}

impl Chunk {
    /// Whether the instruction at `ip` can be shown: it is a known
    /// instruction, its operands are there, and the constants they name exist
    /// and are of the kind the instruction expects.
    pub open spec fn shows_at(&self, ip: int) -> bool {
        let b = self.bytes@;
        &&& 0 <= ip < b.len()
        &&& b.len() < usize::MAX
        &&& b[ip] < 62
        &&& forall|op: OpCode| #[trigger] op.spec_byte() == b[ip] ==> match op {
            OpCode::Constant => ip + 3 <= b.len() && u16_at(b, ip + 1) < self.constants@.len(),
            OpCode::HeapConstant => ip + 3 <= b.len() && u16_at(b, ip + 1) < self.heap_constants@.len(),
            OpCode::EndBlock | OpCode::EndHeapBlock => ip + 5 <= b.len(),
            OpCode::Jump | OpCode::JumpIfFalse | OpCode::Array | OpCode::ArrayHeap | OpCode::SetLocal
            | OpCode::SetHeapLocal | OpCode::GetLocal | OpCode::GetHeapLocal => ip + 3 <= b.len(),
            OpCode::SetGlobal | OpCode::SetHeapGlobal | OpCode::GetGlobal | OpCode::GetHeapGlobal => {
                &&& ip + 3 <= b.len()
                &&& u16_at(b, ip + 1) < self.heap_constants@.len()
                &&& self.heap_constants@[u16_at(b, ip + 1) as int] is Str
            },
            OpCode::Closure => {
                &&& ip + 3 <= b.len()
                &&& u16_at(b, ip + 1) < self.heap_constants@.len()
                &&& self.heap_constants@[u16_at(b, ip + 1) as int] matches HeapConstant::Closure(f)
                    && ip + 3 + 3 * (f.num_upvalues + f.num_heap_upvalues) <= b.len()
            },
            _ => true,
        }
    }

    /// The text of the instruction at `ip` and where the next one starts.
    pub open spec fn spec_disassemble(&self, ip: int, op: OpCode) -> (Seq<char>, int) {
        let b = self.bytes@;
        let head = spec_pad4(ip as nat) + " "@ + op.spec_name();
        match op {
            OpCode::Constant => (
                head + " 0x"@ + spec_hex(self.constants@[u16_at(b, ip + 1) as int] as nat),
                ip + 3,
            ),
            OpCode::HeapConstant => (head + " "@ + heap_debug(self.heap_constants@[u16_at(b, ip + 1) as int]), ip + 3),
            OpCode::EndBlock | OpCode::EndHeapBlock => (
                head + " "@ + spec_decimal(u16_at(b, ip + 1)) + " "@ + spec_decimal(u16_at(b, ip + 3)),
                ip + 5,
            ),
            OpCode::Jump | OpCode::JumpIfFalse | OpCode::Array | OpCode::ArrayHeap | OpCode::SetLocal
            | OpCode::SetHeapLocal | OpCode::GetLocal | OpCode::GetHeapLocal => (
                head + " "@ + spec_decimal(u16_at(b, ip + 1)),
                ip + 3,
            ),
            OpCode::SetGlobal | OpCode::SetHeapGlobal | OpCode::GetGlobal | OpCode::GetHeapGlobal => match self.heap_constants@[u16_at(b, ip + 1) as int] {
                HeapConstant::Str(s) => (head + " "@ + s@, ip + 3),
                _ => (head, ip + 3),
            },
            OpCode::Closure => match self.heap_constants@[u16_at(b, ip + 1) as int] {
                HeapConstant::Closure(f) => {
                    let n = (f.num_upvalues + f.num_heap_upvalues) as nat;
                    (
                        head + " "@ + spec_decimal(f.num_upvalues as nat) + " "@ + spec_decimal(
                            f.num_heap_upvalues as nat,
                        ) + closure_lines(b, ip + 3, n),
                        ip + 3 + 3 * n,
                    )
                },
                _ => (head, ip + 3),
            },
            _ => (head, ip + 1),
        }
    }

    /// The text of the instruction at `ip`, one line for it and, for a
    /// closure, one more for each capture, and where the next instruction
    /// starts.
    pub fn disassemble_instruction(&self, ip: usize) -> (r: (String, usize))
        requires
            self.shows_at(ip as int),
        ensures
            (r.0@, r.1 as int) == self.spec_disassemble(ip as int, OpCode::spec_from_byte(self.bytes@[ip as int])->0),
            ip < r.1 <= self.bytes@.len(),
    {
        let ghost b = self.bytes@;
        let op = OpCode::from_byte(self.bytes[ip]).unwrap();
        assert(op.spec_byte() == b[ip as int]);
        let mut s = String::new();
        push_pad4(&mut s, ip);
        s.append(" ");
        s.append(op.name());
        let ghost head = s@;
        assert(head == spec_pad4(ip as nat) + " "@ + op.spec_name());
        let mut next: usize = ip + 1;
        match op {
            OpCode::Constant => {
                let v = self.constants[self.u16_at(ip + 1) as usize];
                s.append(" 0x");
                push_hex(&mut s, v);
                next = ip + 3;
            },
            OpCode::HeapConstant => {
                let h = &self.heap_constants[self.u16_at(ip + 1) as usize];
                s.append(" ");
                push_heap_debug(&mut s, h);
                next = ip + 3;
            },
            OpCode::EndBlock | OpCode::EndHeapBlock => {
                s.append(" ");
                push_decimal(&mut s, self.u16_at(ip + 1) as usize);
                s.append(" ");
                push_decimal(&mut s, self.u16_at(ip + 3) as usize);
                next = ip + 5;
            },
            OpCode::Jump | OpCode::JumpIfFalse | OpCode::Array | OpCode::ArrayHeap | OpCode::SetLocal
            | OpCode::SetHeapLocal | OpCode::GetLocal | OpCode::GetHeapLocal => {
                s.append(" ");
                push_decimal(&mut s, self.u16_at(ip + 1) as usize);
                next = ip + 3;
            },
            OpCode::SetGlobal | OpCode::SetHeapGlobal | OpCode::GetGlobal | OpCode::GetHeapGlobal => {
                match &self.heap_constants[self.u16_at(ip + 1) as usize] {
                    HeapConstant::Str(name) => {
                        s.append(" ");
                        s.append(name.as_str());
                    },
                    _ => {},
                }
                next = ip + 3;
            },
            OpCode::Closure => {
                match &self.heap_constants[self.u16_at(ip + 1) as usize] {
                    HeapConstant::Closure(f) => {
                        s.append(" ");
                        push_decimal(&mut s, f.num_upvalues as usize);
                        s.append(" ");
                        push_decimal(&mut s, f.num_heap_upvalues as usize);
                        let n: usize = f.num_upvalues as usize + f.num_heap_upvalues as usize;
                        let ghost s0 = s@;
                        let mut i: usize = 0;
                        while i < n
                            invariant
                                0 <= i <= n,
                                b == self.bytes@,
                                ip + 3 + 3 * n <= b.len(),
                                b.len() < usize::MAX,
                                s@ == s0 + closure_lines(b, ip + 3, i as nat),
                            decreases n - i,
                        {
                            let p = ip + 3 + 3 * i;
                            s.append("\n | local: ");
                            if self.bytes[p] == 1 {
                                s.append("true");
                            } else {
                                s.append("false");
                            }
                            s.append(", idx: ");
                            push_decimal(&mut s, self.u16_at(p + 1) as usize);
                            i = i + 1;
                        }
                        next = ip + 3 + 3 * n;
                    },
                    _ => {
                        next = ip + 3;
                    },
                }
            },
            _ => {},
        }
        (s, next)
    }

    /// Whether the instructions from `ip` on can all be shown, one after the
    /// other, up to the end of the code.
    pub open spec fn shows_from(&self, ip: int) -> bool
        decreases self.bytes@.len() - ip,
    {
        if ip >= self.bytes@.len() || ip < 0 {
            true
        } else {
            let next = self.spec_disassemble(ip, OpCode::spec_from_byte(self.bytes@[ip])->0).1;
            &&& self.shows_at(ip)
            &&& (ip < next <= self.bytes@.len() ==> self.shows_from(next))
        }
    }

    /// The text of the instructions from `ip` on, one entry each.
    pub open spec fn spec_disassemble_from(&self, ip: int) -> Seq<Seq<char>>
        decreases self.bytes@.len() - ip,
    {
        if ip >= self.bytes@.len() || ip < 0 {
            Seq::empty()
        } else {
            let (text, next) = self.spec_disassemble(ip, OpCode::spec_from_byte(self.bytes@[ip])->0);
            if ip < next <= self.bytes@.len() {
                seq![text] + self.spec_disassemble_from(next)
            } else {
                seq![text]
            }
        }
    }

    /// The text of every instruction of the chunk, in order.
    pub fn disassemble(&self) -> (r: Vec<String>)
        requires
            self.shows_from(0),
        ensures
            r@.map_values(|t: String| t@) == self.spec_disassemble_from(0),
    {
        let mut out: Vec<String> = Vec::new();
        let mut ip: usize = 0;
        while ip < self.bytes.len()
            invariant
                self.shows_from(ip as int),
                out@.map_values(|t: String| t@) + self.spec_disassemble_from(ip as int)
                    == self.spec_disassemble_from(0),
            decreases self.bytes@.len() - ip,
        {
            let (text, next) = self.disassemble_instruction(ip);
            proof {
                let ghost t = text@;
                assert(self.spec_disassemble_from(ip as int) == seq![t] + self.spec_disassemble_from(next as int));
                assert(out@.push(text).map_values(|t: String| t@) =~= out@.map_values(|t: String| t@).push(t));
                assert(out@.map_values(|t: String| t@).push(t) + self.spec_disassemble_from(next as int)
                    =~= out@.map_values(|t: String| t@) + (seq![t] + self.spec_disassemble_from(next as int)));
            }
            out.push(text);
            ip = next;
        }
        assert(self.spec_disassemble_from(ip as int) =~= Seq::<Seq<char>>::empty());
        assert(out@.map_values(|t: String| t@) + Seq::<Seq<char>>::empty() =~= out@.map_values(|t: String| t@));
        out
    }

    /// The big-endian 16-bit number at `i`.
    fn u16_at(&self, i: usize) -> (r: u16)
        requires
            i + 2 <= self.bytes@.len(),
        ensures
            r == u16_at(self.bytes@, i as int),
    {
        let n = self.bytes.len();
        self.bytes[i] as u16 * 256 + self.bytes[i + 1] as u16
    }
}

/// Appends a number in decimal, zero-padded to four digits.
fn push_pad4(s: &mut String, n: usize)
    ensures
        final(s)@ == old(s)@ + spec_pad4(n as nat),
{
    proof {
        lemma_decimal_len_bound(n as nat);
    }
    if n < 10 {
        s.append("000");
        assert("000"@ =~= Seq::new(3, |i: int| '0')) by {
            reveal_strlit("000");
        }
    } else if n < 100 {
        s.append("00");
        assert("00"@ =~= Seq::new(2, |i: int| '0')) by {
            reveal_strlit("00");
        }
    } else if n < 1000 {
        s.append("0");
        assert("0"@ =~= Seq::new(1, |i: int| '0')) by {
            reveal_strlit("0");
        }
    }
    push_decimal(s, n);
}

/// How many decimal digits small numbers have.
proof fn lemma_decimal_len_bound(n: nat)
    ensures
        n < 10 ==> spec_decimal(n).len() == 1,
        10 <= n < 100 ==> spec_decimal(n).len() == 2,
        100 <= n < 1000 ==> spec_decimal(n).len() == 3,
        n >= 1000 ==> spec_decimal(n).len() >= 4,
    decreases n,
{
    if n >= 10 {
        lemma_decimal_len_bound(n / 10);
    }
}

fn hex_digit(d: u64) -> (c: char)
    requires
        d < 16,
    ensures
        c == hex_char(d as nat),
{
    if d < 10 {
        digit(d as usize)
    } else if d == 10 {
        'a'
    } else if d == 11 {
        'b'
    } else if d == 12 {
        'c'
    } else if d == 13 {
        'd'
    } else if d == 14 {
        'e'
    } else {
        'f'
    }
}

/// Appends the hexadecimal digits of `n`.
fn push_hex(s: &mut String, n: u64)
    ensures
        final(s)@ == old(s)@ + spec_hex(n as nat),
    decreases n,
{
    if n >= 16 {
        push_hex(s, n / 16);
    }
    string_push(s, hex_digit(n % 16));
}

/// Appends how a heap constant is shown.
fn push_heap_debug(s: &mut String, h: &HeapConstant)
    ensures
        final(s)@ == old(s)@ + heap_debug(*h),
{
    match h {
        HeapConstant::Str(text) => {
            s.append("String(");
            let q = str_debug_string(text.as_str());
            s.append(q.as_str());
            s.append(")");
        },
        HeapConstant::Closure(f) => {
            s.append("Closure([]");
            s.append(f.name.as_str());
            s.append("[");
            push_decimal(s, f.num_upvalues as usize);
            s.append("](<");
            push_decimal(s, f.arity as usize);
            s.append("+");
            push_decimal(s, f.heap_arity as usize);
            s.append(">){");
            push_decimal(s, f.chunk.bytes.len());
            s.append("})");
        },
    }
}

} // verus!
