use vstd::prelude::*;

use crate::ast::Type;
use vstd::string::StringSliceAdditionalSpecFns;
use vstd::string::StrSliceExecFns;
use vstd::string::StringExecFns;

verus! {

/// Leading byte of a function type in the type section.
pub const FUNCTYPE: u8 = 0x60;

/// Identifiers of the sections of a WebAssembly module.
#[derive(Clone, Copy, Debug, PartialEq, Eq, Structural)]
pub enum SectionType {
    Type,
    Import,
    Function,
    Table,
    Memory,
    Global,
    Export,
    Element,
    Code,
    Data,
    DataCount,
}

impl SectionType {
    /// The section id of the binary format.
    pub open spec fn spec_byte(self) -> u8 {
        match self {
            SectionType::Type => 0x01,
            SectionType::Import => 0x02,
            SectionType::Function => 0x03,
            SectionType::Table => 0x04,
            SectionType::Memory => 0x05,
            SectionType::Global => 0x06,
            SectionType::Export => 0x07,
            SectionType::Element => 0x09,
            SectionType::Code => 0x0a,
            SectionType::Data => 0x0b,
            SectionType::DataCount => 0x0c,
        }
    }

    pub fn to_byte(self) -> (b: u8)
        ensures
            b == self.spec_byte(),
    {
        match self {
            SectionType::Type => 0x01,
            SectionType::Import => 0x02,
            SectionType::Function => 0x03,
            SectionType::Table => 0x04,
            SectionType::Memory => 0x05,
            SectionType::Global => 0x06,
            SectionType::Export => 0x07,
            SectionType::Element => 0x09,
            SectionType::Code => 0x0a,
            SectionType::Data => 0x0b,
            SectionType::DataCount => 0x0c,
        }
    }
}

/// Value types of WebAssembly, plus the empty block type.
#[derive(Clone, Copy, Debug, PartialEq, Eq, Structural)]
pub enum Numtype {
    Void,
    F32,
    I64,
    I32,
}

impl Numtype {
    /// The type's encoding in the binary format.
    pub open spec fn spec_byte(self) -> u8 {
        match self {
            Numtype::Void => 0x40,
            Numtype::F32 => 0x7d,
            Numtype::I64 => 0x7e,
            Numtype::I32 => 0x7f,
        }
    }

    pub fn to_byte(self) -> (b: u8)
        ensures
            b == self.spec_byte(),
    {
        match self {
            Numtype::Void => 0x40,
            Numtype::F32 => 0x7d,
            Numtype::I64 => 0x7e,
            Numtype::I32 => 0x7f,
        }
    }

    /// Number of bytes a value of this type takes in linear memory.
    pub open spec fn spec_size(self) -> u32 {
        match self {
            Numtype::Void => 0,
            Numtype::F32 => 4,
            Numtype::I64 => 8,
            Numtype::I32 => 4,
        }
    }

    pub fn size(self) -> (n: u32)
        ensures
            n == self.spec_size(),
    {
        match self {
            Numtype::Void => 0,
            Numtype::F32 => 4,
            Numtype::I64 => 8,
            Numtype::I32 => 4,
        }
    }

    /// The `const` instruction that pushes a value of this type.
    pub open spec fn spec_const_op(self) -> Opcode
        recommends
            self != Numtype::Void,
    {
        match self {
            Numtype::F32 => Opcode::F32Const,
            Numtype::I64 => Opcode::I64Const,
            _ => Opcode::I32Const,
        }
    }

    pub fn const_op(self) -> (op: Opcode)
        requires
            self != Numtype::Void,
        ensures
            op == self.spec_const_op(),
    {
        match self {
            Numtype::F32 => Opcode::F32Const,
            Numtype::I64 => Opcode::I64Const,
            _ => Opcode::I32Const,
        }
    }

    /// The instruction that loads a value of this type from memory.
    pub open spec fn spec_load_op(self) -> Opcode
        recommends
            self != Numtype::Void,
    {
        match self {
            Numtype::F32 => Opcode::F32Load,
            Numtype::I64 => Opcode::I64Load,
            _ => Opcode::I32Load,
        }
    }

    pub fn load_op(self) -> (op: Opcode)
        requires
            self != Numtype::Void,
        ensures
            op == self.spec_load_op(),
    {
        match self {
            Numtype::F32 => Opcode::F32Load,
            Numtype::I64 => Opcode::I64Load,
            _ => Opcode::I32Load,
        }
    }

    /// The instruction that stores a value of this type to memory.
    pub open spec fn spec_store_op(self) -> Opcode
        recommends
            self != Numtype::Void,
    {
        match self {
            Numtype::F32 => Opcode::F32Store,
            Numtype::I64 => Opcode::I64Store,
            _ => Opcode::I32Store,
        }
    }

    pub fn store_op(self) -> (op: Opcode)
        requires
            self != Numtype::Void,
        ensures
            op == self.spec_store_op(),
    {
        match self {
            Numtype::F32 => Opcode::F32Store,
            Numtype::I64 => Opcode::I64Store,
            _ => Opcode::I32Store,
        }
    }

    /// How a value of a language type is represented in WebAssembly:
    /// integers, booleans and function table indices as `i32`, floats as
    /// `f32`, and heap values (strings, arrays, iterators, optional values,
    /// objects) as a 64-bit fat pointer. Type definitions have no value type.
    /// Optional values are fat pointers because that is how the `unwrap` and
    /// `is_some` builtins take them (`define_builtin_unwrap`,
    /// `define_builtin_is_some`), and how `unwrap(some(1), 0)` passes one.
    pub open spec fn spec_from_ast_type(typ: Type) -> Option<Numtype> {
        match typ {
            Type::Int => Some(Numtype::I32),
            Type::Bool => Some(Numtype::I32),
            Type::Float => Some(Numtype::F32),
            Type::Func(..) => Some(Numtype::I32),
            Type::Arr(..) => Some(Numtype::I64),
            Type::Str => Some(Numtype::I64),
            Type::Iter(..) => Some(Numtype::I64),
            Type::Maybe(..) => Some(Numtype::I64),
            Type::Object(..) => Some(Numtype::I64),
            Type::TypeDef(..) => None,
        }
    }

    pub fn from_ast_type(typ: &Type) -> (r: Result<Numtype, String>)
        ensures
            match Self::spec_from_ast_type(*typ) {
                Some(n) => r == Ok::<Numtype, String>(n),
                None => r is Err && r->Err_0@ == numtype_error(*typ),
            },
    {
        match typ {
            Type::Int => Ok(Numtype::I32),
            Type::Bool => Ok(Numtype::I32),
            Type::Float => Ok(Numtype::F32),
            Type::Func(..) => Ok(Numtype::I32),
            Type::Arr(..) => Ok(Numtype::I64),
            Type::Str => Ok(Numtype::I64),
            Type::Iter(..) => Ok(Numtype::I64),
            Type::Maybe(..) => Ok(Numtype::I64),
            Type::Object(..) => Ok(Numtype::I64),
            Type::TypeDef(..) => {
                let mut msg = String::from_str("Cannot convert type ");
                let d = typ.debug_string();
                msg.append(d.as_str());
                msg.append(" to WASM Numtype");
                Err(msg)
            },
        }
    }
}

/// Kinds of exported values.
#[derive(Clone, Copy, Debug, PartialEq, Eq, Structural)]
pub enum ExportType {
    Func,
    Memory,
}

impl ExportType {
    pub open spec fn spec_byte(self) -> u8 {
        match self {
            ExportType::Func => 0x00,
            ExportType::Memory => 0x02,
        }
    }

    pub fn to_byte(self) -> (b: u8)
        ensures
            b == self.spec_byte(),
    {
        match self {
            ExportType::Func => 0x00,
            ExportType::Memory => 0x02,
        }
    }
}

/// The WebAssembly instructions the compiler emits.
#[derive(Clone, Copy, Debug, PartialEq, Eq, Structural)]
pub enum Opcode {
    Block,
    Loop,
    If,
    Else,
    End,
    Br,
    BrIf,
    Return,
    Call,
    CallIndirect,
    Drop,
    LocalGet,
    LocalSet,
    LocalTee,
    GlobalGet,
    GlobalSet,
    I32Load,
    I64Load,
    F32Load,
    I32Load8U,
    I32Store,
    I64Store,
    F32Store,
    MemorySize,
    MemoryGrow,
    I32Const,
    I64Const,
    F32Const,
    I32Eqz,
    I32Eq,
    I32Ne,
    I32LtS,
    I32LtU,
    I32GtS,
    I32GtU,
    I32LeS,
    I32LeU,
    I32GeS,
    I32GeU,
    F32Eq,
    F32Ne,
    F32Lt,
    F32Gt,
    F32Le,
    F32Ge,
    I32Add,
    I32Sub,
    I32Mul,
    I32DivS,
    I32DivU,
    I32RemS,
    I32RemU,
    I32And,
    I32Or,
    I32Xor,
    I32ShrS,
    I32ShrU,
    I64Add,
    I64Shl,
    I64ShrU,
    F32Abs,
    F32Neg,
    F32Sqrt,
    F32Add,
    F32Sub,
    F32Mul,
    F32Div,
    I32WrapI64,
    I32TruncF32S,
    I64ExtendI32U,
    F32ConvertI32S,
}

impl Opcode {
    /// The instruction's opcode byte in the binary format.
    pub open spec fn spec_byte(self) -> u8 {
        match self {
            Opcode::Block => 0x02,
            Opcode::Loop => 0x03,
            Opcode::If => 0x04,
            Opcode::Else => 0x05,
            Opcode::End => 0x0b,
            Opcode::Br => 0x0c,
            Opcode::BrIf => 0x0d,
            Opcode::Return => 0x0f,
            Opcode::Call => 0x10,
            Opcode::CallIndirect => 0x11,
            Opcode::Drop => 0x1a,
            Opcode::LocalGet => 0x20,
            Opcode::LocalSet => 0x21,
            Opcode::LocalTee => 0x22,
            Opcode::GlobalGet => 0x23,
            Opcode::GlobalSet => 0x24,
            Opcode::I32Load => 0x28,
            Opcode::I64Load => 0x29,
            Opcode::F32Load => 0x2a,
            Opcode::I32Load8U => 0x2d,
            Opcode::I32Store => 0x36,
            Opcode::I64Store => 0x37,
            Opcode::F32Store => 0x38,
            Opcode::MemorySize => 0x3f,
            Opcode::MemoryGrow => 0x40,
            Opcode::I32Const => 0x41,
            Opcode::I64Const => 0x42,
            Opcode::F32Const => 0x43,
            Opcode::I32Eqz => 0x45,
            Opcode::I32Eq => 0x46,
            Opcode::I32Ne => 0x47,
            Opcode::I32LtS => 0x48,
            Opcode::I32LtU => 0x49,
            Opcode::I32GtS => 0x4a,
            Opcode::I32GtU => 0x4b,
            Opcode::I32LeS => 0x4c,
            Opcode::I32LeU => 0x4d,
            Opcode::I32GeS => 0x4e,
            Opcode::I32GeU => 0x4f,
            Opcode::F32Eq => 0x5b,
            Opcode::F32Ne => 0x5c,
            Opcode::F32Lt => 0x5d,
            Opcode::F32Gt => 0x5e,
            Opcode::F32Le => 0x5f,
            Opcode::F32Ge => 0x60,
            Opcode::I32Add => 0x6a,
            Opcode::I32Sub => 0x6b,
            Opcode::I32Mul => 0x6c,
            Opcode::I32DivS => 0x6d,
            Opcode::I32DivU => 0x6e,
            Opcode::I32RemS => 0x6f,
            Opcode::I32RemU => 0x70,
            Opcode::I32And => 0x71,
            Opcode::I32Or => 0x72,
            Opcode::I32Xor => 0x73,
            Opcode::I32ShrS => 0x75,
            Opcode::I32ShrU => 0x76,
            Opcode::I64Add => 0x7c,
            Opcode::I64Shl => 0x86,
            Opcode::I64ShrU => 0x88,
            Opcode::F32Abs => 0x8b,
            Opcode::F32Neg => 0x8c,
            Opcode::F32Sqrt => 0x91,
            Opcode::F32Add => 0x92,
            Opcode::F32Sub => 0x93,
            Opcode::F32Mul => 0x94,
            Opcode::F32Div => 0x95,
            Opcode::I32WrapI64 => 0xa7,
            Opcode::I32TruncF32S => 0xa8,
            Opcode::I64ExtendI32U => 0xad,
            Opcode::F32ConvertI32S => 0xb2,
        }
    }

    pub fn to_byte(self) -> (b: u8)
        ensures
            b == self.spec_byte(),
    {
        match self {
            Opcode::Block => 0x02,
            Opcode::Loop => 0x03,
            Opcode::If => 0x04,
            Opcode::Else => 0x05,
            Opcode::End => 0x0b,
            Opcode::Br => 0x0c,
            Opcode::BrIf => 0x0d,
            Opcode::Return => 0x0f,
            Opcode::Call => 0x10,
            Opcode::CallIndirect => 0x11,
            Opcode::Drop => 0x1a,
            Opcode::LocalGet => 0x20,
            Opcode::LocalSet => 0x21,
            Opcode::LocalTee => 0x22,
            Opcode::GlobalGet => 0x23,
            Opcode::GlobalSet => 0x24,
            Opcode::I32Load => 0x28,
            Opcode::I64Load => 0x29,
            Opcode::F32Load => 0x2a,
            Opcode::I32Load8U => 0x2d,
            Opcode::I32Store => 0x36,
            Opcode::I64Store => 0x37,
            Opcode::F32Store => 0x38,
            Opcode::MemorySize => 0x3f,
            Opcode::MemoryGrow => 0x40,
            Opcode::I32Const => 0x41,
            Opcode::I64Const => 0x42,
            Opcode::F32Const => 0x43,
            Opcode::I32Eqz => 0x45,
            Opcode::I32Eq => 0x46,
            Opcode::I32Ne => 0x47,
            Opcode::I32LtS => 0x48,
            Opcode::I32LtU => 0x49,
            Opcode::I32GtS => 0x4a,
            Opcode::I32GtU => 0x4b,
            Opcode::I32LeS => 0x4c,
            Opcode::I32LeU => 0x4d,
            Opcode::I32GeS => 0x4e,
            Opcode::I32GeU => 0x4f,
            Opcode::F32Eq => 0x5b,
            Opcode::F32Ne => 0x5c,
            Opcode::F32Lt => 0x5d,
            Opcode::F32Gt => 0x5e,
            Opcode::F32Le => 0x5f,
            Opcode::F32Ge => 0x60,
            Opcode::I32Add => 0x6a,
            Opcode::I32Sub => 0x6b,
            Opcode::I32Mul => 0x6c,
            Opcode::I32DivS => 0x6d,
            Opcode::I32DivU => 0x6e,
            Opcode::I32RemS => 0x6f,
            Opcode::I32RemU => 0x70,
            Opcode::I32And => 0x71,
            Opcode::I32Or => 0x72,
            Opcode::I32Xor => 0x73,
            Opcode::I32ShrS => 0x75,
            Opcode::I32ShrU => 0x76,
            Opcode::I64Add => 0x7c,
            Opcode::I64Shl => 0x86,
            Opcode::I64ShrU => 0x88,
            Opcode::F32Abs => 0x8b,
            Opcode::F32Neg => 0x8c,
            Opcode::F32Sqrt => 0x91,
            Opcode::F32Add => 0x92,
            Opcode::F32Sub => 0x93,
            Opcode::F32Mul => 0x94,
            Opcode::F32Div => 0x95,
            Opcode::I32WrapI64 => 0xa7,
            Opcode::I32TruncF32S => 0xa8,
            Opcode::I64ExtendI32U => 0xad,
            Opcode::F32ConvertI32S => 0xb2,
        }
    }
}

/// The instruction the WebAssembly specification assigns to an opcode byte,
/// among those the code generator uses.
pub open spec fn instruction_of_byte(b: u8) -> Option<Opcode> {
    match b {
        0x02u8 => Some(Opcode::Block),
        0x03u8 => Some(Opcode::Loop),
        0x04u8 => Some(Opcode::If),
        0x05u8 => Some(Opcode::Else),
        0x0bu8 => Some(Opcode::End),
        0x0cu8 => Some(Opcode::Br),
        0x0du8 => Some(Opcode::BrIf),
        0x0fu8 => Some(Opcode::Return),
        0x10u8 => Some(Opcode::Call),
        0x11u8 => Some(Opcode::CallIndirect),
        0x1au8 => Some(Opcode::Drop),
        0x20u8 => Some(Opcode::LocalGet),
        0x21u8 => Some(Opcode::LocalSet),
        0x22u8 => Some(Opcode::LocalTee),
        0x23u8 => Some(Opcode::GlobalGet),
        0x24u8 => Some(Opcode::GlobalSet),
        0x28u8 => Some(Opcode::I32Load),
        0x29u8 => Some(Opcode::I64Load),
        0x2au8 => Some(Opcode::F32Load),
        0x2du8 => Some(Opcode::I32Load8U),
        0x36u8 => Some(Opcode::I32Store),
        0x37u8 => Some(Opcode::I64Store),
        0x38u8 => Some(Opcode::F32Store),
        0x3fu8 => Some(Opcode::MemorySize),
        0x40u8 => Some(Opcode::MemoryGrow),
        0x41u8 => Some(Opcode::I32Const),
        0x42u8 => Some(Opcode::I64Const),
        0x43u8 => Some(Opcode::F32Const),
        0x45u8 => Some(Opcode::I32Eqz),
        0x46u8 => Some(Opcode::I32Eq),
        0x47u8 => Some(Opcode::I32Ne),
        0x48u8 => Some(Opcode::I32LtS),
        0x49u8 => Some(Opcode::I32LtU),
        0x4au8 => Some(Opcode::I32GtS),
        0x4bu8 => Some(Opcode::I32GtU),
        0x4cu8 => Some(Opcode::I32LeS),
        0x4du8 => Some(Opcode::I32LeU),
        0x4eu8 => Some(Opcode::I32GeS),
        0x4fu8 => Some(Opcode::I32GeU),
        0x5bu8 => Some(Opcode::F32Eq),
        0x5cu8 => Some(Opcode::F32Ne),
        0x5du8 => Some(Opcode::F32Lt),
        0x5eu8 => Some(Opcode::F32Gt),
        0x5fu8 => Some(Opcode::F32Le),
        0x60u8 => Some(Opcode::F32Ge),
        0x6au8 => Some(Opcode::I32Add),
        0x6bu8 => Some(Opcode::I32Sub),
        0x6cu8 => Some(Opcode::I32Mul),
        0x6du8 => Some(Opcode::I32DivS),
        0x6eu8 => Some(Opcode::I32DivU),
        0x6fu8 => Some(Opcode::I32RemS),
        0x70u8 => Some(Opcode::I32RemU),
        0x71u8 => Some(Opcode::I32And),
        0x72u8 => Some(Opcode::I32Or),
        0x73u8 => Some(Opcode::I32Xor),
        0x75u8 => Some(Opcode::I32ShrS),
        0x76u8 => Some(Opcode::I32ShrU),
        0x7cu8 => Some(Opcode::I64Add),
        0x86u8 => Some(Opcode::I64Shl),
        0x88u8 => Some(Opcode::I64ShrU),
        0x8bu8 => Some(Opcode::F32Abs),
        0x8cu8 => Some(Opcode::F32Neg),
        0x91u8 => Some(Opcode::F32Sqrt),
        0x92u8 => Some(Opcode::F32Add),
        0x93u8 => Some(Opcode::F32Sub),
        0x94u8 => Some(Opcode::F32Mul),
        0x95u8 => Some(Opcode::F32Div),
        0xa7u8 => Some(Opcode::I32WrapI64),
        0xa8u8 => Some(Opcode::I32TruncF32S),
        0xadu8 => Some(Opcode::I64ExtendI32U),
        0xb2u8 => Some(Opcode::F32ConvertI32S),
        _ => None,
    }
}

/// Every instruction is written as the byte the WebAssembly specification
/// assigns to it, so reading a written byte gives back the instruction.
pub proof fn law_opcode_bytes_decode(o: Opcode)
    ensures
        instruction_of_byte(o.spec_byte()) == Some(o),
{
}

/// No two instructions share a byte.
pub proof fn law_opcode_bytes_distinct(a: Opcode, b: Opcode)
    ensures
        a.spec_byte() == b.spec_byte() ==> a == b,
{
    law_opcode_bytes_decode(a);
    law_opcode_bytes_decode(b);
}

/// The section a section id stands for in the WebAssembly binary format
/// (id 8, the start section, is not used here).
pub open spec fn section_of_id(b: u8) -> Option<SectionType> {
    match b {
        0x01u8 => Some(SectionType::Type),
        0x02u8 => Some(SectionType::Import),
        0x03u8 => Some(SectionType::Function),
        0x04u8 => Some(SectionType::Table),
        0x05u8 => Some(SectionType::Memory),
        0x06u8 => Some(SectionType::Global),
        0x07u8 => Some(SectionType::Export),
        0x09u8 => Some(SectionType::Element),
        0x0au8 => Some(SectionType::Code),
        0x0bu8 => Some(SectionType::Data),
        0x0cu8 => Some(SectionType::DataCount),
        _ => None,
    }
}

/// Every section is written with the id the WebAssembly specification gives
/// it, so reading the id gives back the section; no two sections share an id.
pub proof fn law_section_ids_decode(t: SectionType, u: SectionType)
    ensures
        section_of_id(t.spec_byte()) == Some(t),
        t.spec_byte() == u.spec_byte() ==> t == u,
{
}

/// The value type a byte stands for in the WebAssembly binary format (0x40
/// is the empty block type).
pub open spec fn valtype_of_byte(b: u8) -> Option<Numtype> {
    match b {
        0x40u8 => Some(Numtype::Void),
        0x7du8 => Some(Numtype::F32),
        0x7eu8 => Some(Numtype::I64),
        0x7fu8 => Some(Numtype::I32),
        _ => None,
    }
}

/// The bits of a value of the type: 32 for `i32` and `f32`, 64 for `i64`,
/// none for the empty type.
pub open spec fn bit_width(t: Numtype) -> nat {
    match t {
        Numtype::Void => 0,
        Numtype::F32 => 32,
        Numtype::I64 => 64,
        Numtype::I32 => 32,
    }
}

/// Every value type is written as the byte the WebAssembly specification
/// gives it (so no two types share a byte), and a value takes in linear
/// memory as many bytes as its type has bits divided by 8.
pub proof fn law_value_types_encode(t: Numtype, u: Numtype)
    ensures
        valtype_of_byte(t.spec_byte()) == Some(t),
        t.spec_byte() == u.spec_byte() ==> t == u,
        8 * t.spec_size() == bit_width(t),
{
}

/// The bulk-memory `memory.copy` instruction (memory 0 to memory 0).
pub open spec fn spec_memcopy() -> Seq<u8> {
    seq![0xfcu8, 0x0au8, 0x00u8, 0x00u8]
}

/// The `memory.init` instruction, without its immediates.
pub open spec fn spec_meminit() -> Seq<u8> {
    seq![0xfcu8, 0x08u8]
}

pub fn meminit() -> (v: Vec<u8>)
    ensures
        v@ == spec_meminit(),
{
    let mut v: Vec<u8> = Vec::new();
    v.push(0xfc);
    v.push(0x08);
    v
}

pub fn memcopy() -> (v: Vec<u8>)
    ensures
        v@ == spec_memcopy(),
{
    let mut v: Vec<u8> = Vec::new();
    v.push(0xfc);
    v.push(0x0a);
    v.push(0x00);
    v.push(0x00);
    v
}

/// The unsigned LEB128 encoding of `value`: seven bits per byte, least
/// significant group first, with the high bit set on every byte but the last.
pub open spec fn spec_uleb128(value: nat) -> Seq<u8>
    decreases value,
{
    if value < 128 {
        seq![value as u8]
    } else {
        seq![(value % 128 + 128) as u8] + spec_uleb128(value / 128)
    }
}

/// Reads back the number that an unsigned LEB128 byte sequence encodes;
/// reading stops at the first byte whose high bit is clear.
pub open spec fn spec_uleb128_decode(bytes: Seq<u8>) -> nat
    decreases bytes.len(),
{
    if bytes.len() == 0 {
        0
    } else if bytes[0] < 128 {
        bytes[0] as nat
    } else {
        (bytes[0] - 128) as nat + 128 * spec_uleb128_decode(bytes.drop_first())
    }
}

/// Encodes `value` as an unsigned LEB128 byte sequence.
pub fn unsigned_leb128(value: u32) -> (result: Vec<u8>)
    ensures
        result@ == spec_uleb128(value as nat),
{
    let mut result: Vec<u8> = Vec::new();
    let mut value: u32 = value;
    let ghost orig = value as nat;
    loop
        invariant_except_break
            spec_uleb128(orig) == result@ + spec_uleb128(value as nat),
        ensures
            result@ == spec_uleb128(orig),
        decreases value,
    {
        let low: u32 = value & 0x7f;
        let rest: u32 = value >> 7;
        assert(low == value % 128 && rest == value / 128) by (bit_vector)
            requires
                low == value & 0x7f,
                rest == value >> 7,
        ;
        if rest == 0 {
            result.push(low as u8);
            assert(result@ == spec_uleb128(orig));
            break;
        } else {
            result.push((low + 128) as u8);
            value = rest;
        }
    }
    result
}

/// Encodes a number from `i32::MIN` to `u32::MAX` as a signed LEB128 byte
/// sequence, as the immediate of `i64.const` expects it.
pub fn signed_leb128_wide(value: i64) -> (result: Vec<u8>)
    requires
        i32::MIN <= value <= u32::MAX,
    ensures
        result@ == spec_sleb128(value as int),
{
    let mut result: Vec<u8> = Vec::new();
    let mut w: i64 = value;
    let ghost orig = value as int;
    loop
        invariant_except_break
            i32::MIN <= w <= u32::MAX,
            spec_sleb128(orig) == result@ + spec_sleb128(w as int),
        ensures
            result@ == spec_sleb128(orig),
        decreases (if w < 0 { -(w as int) } else { w as int }),
    {
        let q: i64 = if w >= 0 { w / 128 } else { -((-w + 127) / 128) };
        assert(q == w as int / 128);
        let low: i64 = w - 128 * q;
        assert(low == w as int % 128);
        if -64 <= w && w < 64 {
            result.push(low as u8);
            assert(result@ == spec_sleb128(orig));
            break;
        } else {
            result.push((low + 128) as u8);
            w = q;
        }
    }
    result
}

/// The immediate of an `i32.const` for a 32-bit pattern given unsigned: the
/// signed LEB128 encoding of the same bits.
pub open spec fn const_imm(v: u32) -> Seq<u8> {
    spec_sleb128((v as i32) as int)
}

/// Encodes the immediate of an `i32.const` for a 32-bit pattern given
/// unsigned.
pub fn i32_const_imm(v: u32) -> (r: Vec<u8>)
    ensures
        r@ == const_imm(v),
{
    signed_leb128(v as i32)
}

/// The signed LEB128 encoding of `value`: seven bits per byte, least
/// significant group first, with the high bit set on every byte but the last;
/// the encoding stops at the first group after which only copies of the
/// sign bit (bit 6 of the last byte) would follow.
pub open spec fn spec_sleb128(value: int) -> Seq<u8>
    decreases (if value < 0 { -value } else { value }),
{
    if -64 <= value < 64 {
        seq![(value % 128) as u8]
    } else {
        seq![(value % 128 + 128) as u8] + spec_sleb128(value / 128)
    }
}

/// Reads back the number that a signed LEB128 byte sequence encodes; reading
/// stops at the first byte whose high bit is clear, and bit 6 of that byte is
/// the sign.
pub open spec fn spec_sleb128_decode(bytes: Seq<u8>) -> int
    decreases bytes.len(),
{
    if bytes.len() == 0 {
        0
    } else if bytes[0] < 128 {
        if bytes[0] < 64 {
            bytes[0] as int
        } else {
            bytes[0] - 128
        }
    } else {
        (bytes[0] - 128) + 128 * spec_sleb128_decode(bytes.drop_first())
    }
}

/// Whether every byte but the last has its high bit set and the last has it
/// clear: the shape of a LEB128 encoding.
pub open spec fn leb128_shaped(bytes: Seq<u8>) -> bool {
    &&& bytes.len() >= 1
    &&& bytes.last() < 128
    &&& forall|i: int| 0 <= i < bytes.len() - 1 ==> bytes[i] >= 128
}

/// Encodes a signed integer as a signed LEB128 byte sequence, as the
/// immediate of `i32.const` expects it.
pub fn signed_leb128(value: i32) -> (result: Vec<u8>)
    ensures
        result@ == spec_sleb128(value as int),
        spec_sleb128_decode(result@) == value,
        leb128_shaped(result@),
        1 <= result@.len() <= 5,
{
    let mut result: Vec<u8> = Vec::new();
    let mut w: i64 = value as i64;
    let ghost orig = value as int;
    loop
        invariant_except_break
            i32::MIN <= w <= i32::MAX,
            spec_sleb128(orig) == result@ + spec_sleb128(w as int),
        ensures
            result@ == spec_sleb128(orig),
        decreases (if w < 0 { -(w as int) } else { w as int }),
    {
        let q: i64 = if w >= 0 { w / 128 } else { -((-w + 127) / 128) };
        assert(q == w as int / 128);
        let low: i64 = w - 128 * q;
        assert(low == w as int % 128);
        if -64 <= w && w < 64 {
            result.push(low as u8);
            assert(result@ == spec_sleb128(orig));
            break;
        } else {
            result.push((low + 128) as u8);
            w = q;
        }
    }
    proof {
        lemma_sleb128_roundtrip(orig);
        lemma_sleb128_shape(orig);
        lemma_sleb128_len(orig);
    }
    result
}

/// A byte vector: its length in unsigned LEB128, then its contents.
pub open spec fn spec_vector(data: Seq<u8>) -> Seq<u8> {
    spec_uleb128((data.len() as u32) as nat) + data
}

pub fn vector(data: Vec<u8>) -> (result: Vec<u8>)
    ensures
        result@ == spec_vector(data@),
{
    let mut data = data;
    let mut result = unsigned_leb128(data.len() as u32);
    result.append(&mut data);
    result
}

/// A name in the binary format: the vector of its UTF-8 bytes.
pub fn encode_string(s: &str) -> (result: Vec<u8>)
    ensures
        result@ == spec_vector(s.spec_bytes()),
{
    vector(s.as_bytes_vec())
}

/// The bytes of all chunks, one after another.
pub open spec fn concat_chunks(chunks: Seq<Seq<u8>>) -> Seq<u8>
    decreases chunks.len(),
{
    if chunks.len() == 0 {
        Seq::empty()
    } else {
        concat_chunks(chunks.drop_last()) + chunks.last()
    }
}

/// The views of a list of byte vectors.
pub open spec fn chunk_views(chunks: Seq<Vec<u8>>) -> Seq<Seq<u8>> {
    chunks.map_values(|c: Vec<u8>| c@)
}

/// A section made of a count of entries and the entries' bytes.
pub open spec fn spec_section_from_chunks(section_type: SectionType, chunks: Seq<Seq<u8>>) -> Seq<u8> {
    seq![section_type.spec_byte()] + spec_vector(
        spec_uleb128((chunks.len() as u32) as nat) + concat_chunks(chunks),
    )
}

/// Concatenates byte vectors.
pub fn concat_all(chunks: &[Vec<u8>]) -> (result: Vec<u8>)
    ensures
        result@ == concat_chunks(chunk_views(chunks@)),
{
    let mut result: Vec<u8> = Vec::new();
    let mut i: usize = 0;
    while i < chunks.len()
        invariant
            0 <= i <= chunks@.len(),
            result@ == concat_chunks(chunk_views(chunks@).take(i as int)),
        decreases chunks@.len() - i,
    {
        let ghost prev = result@;
        let mut c = chunks[i].clone();
        assert(c@ == chunks@[i as int]@);
        result.append(&mut c);
        assert(chunk_views(chunks@).take(i + 1).drop_last() == chunk_views(chunks@).take(i as int));
        i = i + 1;
    }
    assert(chunk_views(chunks@).take(chunks@.len() as int) == chunk_views(chunks@));
    result
}

pub fn section_from_chunks(section_type: SectionType, chunks: &[Vec<u8>]) -> (result: Vec<u8>)
    ensures
        result@ == spec_section_from_chunks(section_type, chunk_views(chunks@)),
{
    let mut result: Vec<u8> = Vec::new();
    result.push(section_type.to_byte());
    let mut data = unsigned_leb128(chunks.len() as u32);
    let mut body = concat_all(chunks);
    data.append(&mut body);
    let mut v = vector(data);
    result.append(&mut v);
    result
}

/// The encodings of a list of numbers, one after another.
pub open spec fn concat_uleb128(values: Seq<u32>) -> Seq<u8>
    decreases values.len(),
{
    if values.len() == 0 {
        Seq::empty()
    } else {
        concat_uleb128(values.drop_last()) + spec_uleb128(values.last() as nat)
    }
}

/// A section whose entries are numbers.
pub open spec fn spec_section_from_values(section_type: SectionType, values: Seq<u32>) -> Seq<u8> {
    seq![section_type.spec_byte()] + spec_vector(
        spec_uleb128((values.len() as u32) as nat) + concat_uleb128(values),
    )
}

pub fn section_from_values(section_type: SectionType, values: &[u32]) -> (result: Vec<u8>)
    ensures
        result@ == spec_section_from_values(section_type, values@),
{
    let mut result: Vec<u8> = Vec::new();
    result.push(section_type.to_byte());
    let mut data = unsigned_leb128(values.len() as u32);
    let ghost head = data@;
    let mut i: usize = 0;
    while i < values.len()
        invariant
            0 <= i <= values@.len(),
            data@ == head + concat_uleb128(values@.take(i as int)),
        decreases values@.len() - i,
    {
        let mut enc = unsigned_leb128(values[i]);
        data.append(&mut enc);
        assert(values@.take(i + 1).drop_last() == values@.take(i as int));
        i = i + 1;
    }
    assert(values@.take(values@.len() as int) == values@);
    let mut v = vector(data);
    result.append(&mut v);
    result
}

/// A function type: the marker byte, then the vectors of argument and
/// result types.
pub open spec fn spec_function_type(args: Seq<u8>, ret: Seq<u8>) -> Seq<u8> {
    seq![FUNCTYPE] + spec_vector(args) + spec_vector(ret)
}

pub fn function_type(args: Vec<u8>, ret: Vec<u8>) -> (result: Vec<u8>)
    ensures
        result@ == spec_function_type(args@, ret@),
{
    let mut result: Vec<u8> = Vec::new();
    result.push(FUNCTYPE);
    let mut a = vector(args);
    result.append(&mut a);
    let mut r = vector(ret);
    result.append(&mut r);
    result
}

/// Local declarations, one local per entry: a count of one, then the type.
pub open spec fn spec_local_decls(local_types: Seq<u8>) -> Seq<u8>
    decreases local_types.len(),
{
    if local_types.len() == 0 {
        Seq::empty()
    } else {
        spec_local_decls(local_types.drop_last()) + seq![0x01u8, local_types.last()]
    }
}

/// A function body: the vector of its local declarations followed by its code.
pub open spec fn spec_function_body(local_types: Seq<u8>, code: Seq<u8>) -> Seq<u8> {
    spec_vector(
        spec_uleb128((local_types.len() as u32) as nat) + spec_local_decls(local_types) + code,
    )
}

pub fn function_body(local_types: Vec<u8>, code: Vec<u8>) -> (result: Vec<u8>)
    ensures
        result@ == spec_function_body(local_types@, code@),
{
    let mut code = code;
    let mut result = unsigned_leb128(local_types.len() as u32);
    let ghost head = result@;
    let mut i: usize = 0;
    while i < local_types.len()
        invariant
            0 <= i <= local_types@.len(),
            result@ == head + spec_local_decls(local_types@.take(i as int)),
        decreases local_types@.len() - i,
    {
        result.push(0x01);
        result.push(local_types[i]);
        assert(local_types@.take(i + 1).drop_last() == local_types@.take(i as int));
        i = i + 1;
    }
    assert(local_types@.take(local_types@.len() as int) == local_types@);
    result.append(&mut code);
    vector(result)
}

/// The encodings of a list of value types.
pub open spec fn numtype_bytes(types: Seq<Numtype>) -> Seq<u8> {
    types.map_values(|t: Numtype| t.spec_byte())
}

/// Why a type has no value type.
pub open spec fn numtype_error(t: Type) -> Seq<char> {
    "Cannot convert type "@ + t.view().debug() + " to WASM Numtype"@
}

/// The position of the first type without a value type.
pub open spec fn first_without_numtype(ts: Seq<Type>) -> Option<int>
    decreases ts.len(),
{
    if ts.len() == 0 {
        None
    } else if Numtype::spec_from_ast_type(ts[0]) is None {
        Some(0)
    } else {
        match first_without_numtype(ts.drop_first()) {
            Some(j) => Some(j + 1),
            None => None,
        }
    }
}

/// The first type without a value type is at `i` when all before it have
/// one and it has none.
proof fn lemma_first_without_numtype(ts: Seq<Type>, i: int)
    requires
        0 <= i < ts.len(),
        forall|j: int| 0 <= j < i ==> Numtype::spec_from_ast_type(#[trigger] ts[j]) is Some,
        Numtype::spec_from_ast_type(ts[i]) is None,
    ensures
        first_without_numtype(ts) == Some(i),
    decreases i,
{
    if i > 0 {
        assert(Numtype::spec_from_ast_type(ts[0]) is Some);
        let rest = ts.drop_first();
        assert forall|j: int| 0 <= j < i - 1 implies Numtype::spec_from_ast_type(#[trigger] rest[j]) is Some by {
            assert(rest[j] == ts[j + 1]);
        }
        lemma_first_without_numtype(rest, i - 1);
    }
}

/// No type lacks a value type when all have one.
proof fn lemma_all_have_numtype(ts: Seq<Type>)
    requires
        forall|j: int| 0 <= j < ts.len() ==> Numtype::spec_from_ast_type(#[trigger] ts[j]) is Some,
    ensures
        first_without_numtype(ts) is None,
    decreases ts.len(),
{
    if ts.len() > 0 {
        assert(Numtype::spec_from_ast_type(ts[0]) is Some);
        let rest = ts.drop_first();
        assert forall|j: int| 0 <= j < rest.len() implies Numtype::spec_from_ast_type(#[trigger] rest[j]) is Some by {
            assert(rest[j] == ts[j + 1]);
        }
        lemma_all_have_numtype(rest);
    }
}

/// Signature of a function: argument types and an optional result type.
#[derive(Clone, Debug)]
pub struct FuncTypeSignature {
    pub args: Vec<Numtype>,
    pub ret: Option<Numtype>,
}

impl Default for FuncTypeSignature {
    /// No arguments and no result.
    fn default() -> (s: FuncTypeSignature)
        ensures
            s.args@.len() == 0,
            s.ret is None,
    {
        FuncTypeSignature { args: Vec::new(), ret: None }
    }
}

impl FuncTypeSignature {
    pub open spec fn spec_functype(self) -> Seq<u8> {
        spec_function_type(
            numtype_bytes(self.args@),
            match self.ret {
                Some(t) => seq![t.spec_byte()],
                None => Seq::empty(),
            },
        )
    }

    pub fn new(args: Vec<Numtype>, ret: Option<Numtype>) -> (s: FuncTypeSignature)
        ensures
            s.args@ == args@,
            s.ret == ret,
    {
        FuncTypeSignature { args, ret }
    }

    /// A signature with the same argument and result types.
    pub fn duplicate(&self) -> (s: FuncTypeSignature)
        ensures
            s.args@ == self.args@,
            s.ret == self.ret,
    {
        let mut args: Vec<Numtype> = Vec::new();
        let mut i: usize = 0;
        while i < self.args.len()
            invariant
                0 <= i <= self.args@.len(),
                args@ == self.args@.take(i as int),
            decreases self.args@.len() - i,
        {
            args.push(self.args[i]);
            assert(self.args@.take(i + 1) =~= self.args@.take(i as int).push(self.args@[i as int]));
            i = i + 1;
        }
        assert(self.args@.take(self.args@.len() as int) =~= self.args@);
        FuncTypeSignature { args, ret: self.ret }
    }

    /// Two signatures are the same when they have the same argument types
    /// and the same result type.
    pub fn same_as(&self, other: &FuncTypeSignature) -> (r: bool)
        ensures
            r == (self.args@ == other.args@ && self.ret == other.ret),
    {
        if self.args.len() != other.args.len() || self.ret != other.ret {
            return false;
        }
        let mut i: usize = 0;
        while i < self.args.len()
            invariant
                self.args@.len() == other.args@.len(),
                0 <= i <= self.args@.len(),
                forall|j: int| 0 <= j < i ==> self.args@[j] == other.args@[j],
            decreases self.args@.len() - i,
        {
            if self.args[i] != other.args[i] {
                return false;
            }
            i = i + 1;
        }
        assert(self.args@ =~= other.args@);
        true
    }

    /// The signature of a language function type; its argument and result
    /// types must all have a value type.
    pub open spec fn spec_from_ast_type(typ: Type) -> Option<(Seq<Numtype>, Numtype)> {
        match typ {
            Type::Func(args, ret) => {
                if (forall|i: int| 0 <= i < args@.len() ==> #[trigger] Numtype::spec_from_ast_type(args@[i]) is Some)
                    && Numtype::spec_from_ast_type(*ret) is Some {
                    Some((
                        args@.map_values(|t: Type| Numtype::spec_from_ast_type(t)->0),
                        Numtype::spec_from_ast_type(*ret)->0,
                    ))
                } else {
                    None
                }
            },
            _ => None,
        }
    }

    /// Why a type has no signature: the first argument or else the result
    /// without a value type, or a type that is no function type.
    pub open spec fn spec_from_ast_type_error(typ: Type) -> Seq<char> {
        match typ {
            Type::Func(args, ret) => match first_without_numtype(args@) {
                Some(j) => numtype_error(args@[j]),
                None => numtype_error(*ret),
            },
            _ => "Cannot convert type "@ + typ.view().debug() + " to WASM FuncTypeSignature"@,
        }
    }

    pub fn from_ast_type(typ: &Type) -> (r: Result<FuncTypeSignature, String>)
        ensures
            match Self::spec_from_ast_type(*typ) {
                Some((args, ret)) => r is Ok && r->Ok_0.args@ == args && r->Ok_0.ret == Some(ret),
                None => r is Err && r->Err_0@ == Self::spec_from_ast_type_error(*typ),
            },
    {
        match typ {
            Type::Func(args, ret) => {
                let mut nts: Vec<Numtype> = Vec::new();
                let mut i: usize = 0;
                while i < args.len()
                    invariant
                        *typ == Type::Func(*args, *ret),
                        0 <= i <= args@.len(),
                        nts@.len() == i,
                        forall|j: int| 0 <= j < i ==> Numtype::spec_from_ast_type(#[trigger] args@[j]) == Some(nts@[j]),
                    decreases args@.len() - i,
                {
                    match Numtype::from_ast_type(&args[i]) {
                        Ok(n) => nts.push(n),
                        Err(e) => {
                            proof {
                                lemma_first_without_numtype(args@, i as int);
                            }
                            return Err(e);
                        },
                    }
                    i = i + 1;
                }
                proof {
                    lemma_all_have_numtype(args@);
                }
                let r = match Numtype::from_ast_type(ret) {
                    Ok(n) => n,
                    Err(e) => {
                        return Err(e);
                    },
                };
                assert(nts@ =~= args@.map_values(|t: Type| Numtype::spec_from_ast_type(t)->0));
                Ok(FuncTypeSignature { args: nts, ret: Some(r) })
            },
            _ => {
                let mut msg = String::from_str("Cannot convert type ");
                let d = typ.debug_string();
                msg.append(d.as_str());
                msg.append(" to WASM FuncTypeSignature");
                Err(msg)
            },
        }
    }

    /// The signature's entry in the type section.
    pub fn as_functype(&self) -> (result: Vec<u8>)
        ensures
            result@ == self.spec_functype(),
    {
        let mut ret: Vec<u8> = Vec::new();
        match self.ret {
            Some(t) => ret.push(t.to_byte()),
            None => {},
        }
        let mut args: Vec<u8> = Vec::new();
        let mut i: usize = 0;
        while i < self.args.len()
            invariant
                0 <= i <= self.args@.len(),
                args@ == numtype_bytes(self.args@.take(i as int)),
            decreases self.args@.len() - i,
        {
            args.push(self.args[i].to_byte());
            assert(numtype_bytes(self.args@.take(i + 1)) =~= numtype_bytes(self.args@.take(i as int)).push(self.args@[i as int].spec_byte()));
            i = i + 1;
        }
        assert(self.args@.take(self.args@.len() as int) == self.args@);
        assert(ret@ =~= match self.ret {
            Some(t) => seq![t.spec_byte()],
            None => Seq::<u8>::empty(),
        });
        function_type(args, ret)
    }
}

/// Decoding an unsigned LEB128 encoding gives back the encoded number.
pub proof fn lemma_uleb128_roundtrip(value: nat)
    ensures
        spec_uleb128_decode(spec_uleb128(value)) == value,
    decreases value,
{
    if value >= 128 {
        lemma_uleb128_roundtrip(value / 128);
        let s = spec_uleb128(value);
        assert(s.drop_first() == spec_uleb128(value / 128));
    }
}

/// In an unsigned LEB128 encoding, every byte but the last has its high bit
/// set and the last has it clear, so the encoding ends where a reader stops.
pub proof fn lemma_uleb128_shape(value: nat)
    ensures
        spec_uleb128(value).len() >= 1,
        spec_uleb128(value).last() < 128,
        forall|i: int| 0 <= i < spec_uleb128(value).len() - 1 ==> spec_uleb128(value)[i] >= 128,
    decreases value,
{
    if value >= 128 {
        lemma_uleb128_shape(value / 128);
    }
}

/// A 32-bit number takes at most five bytes, and a number below 128 one byte.
pub proof fn lemma_uleb128_len(value: nat)
    ensures
        value < 128 ==> spec_uleb128(value).len() == 1,
        value < 0x1_0000_0000 ==> spec_uleb128(value).len() <= 5,
    decreases value,
{
    if value >= 128 {
        lemma_uleb128_len(value / 128);
        if value < 0x1_0000_0000 {
            assert(value / 128 < 0x200_0000);
            if value / 128 >= 128 {
                lemma_uleb128_len(value / 128 / 128);
                if value / 128 / 128 >= 128 {
                    lemma_uleb128_len(value / 128 / 128 / 128);
                    if value / 128 / 128 / 128 >= 128 {
                        lemma_uleb128_len(value / 128 / 128 / 128 / 128);
                    }
                }
            }
        }
    }
}


/// Decoding a signed LEB128 encoding gives back the encoded number.
pub proof fn lemma_sleb128_roundtrip(value: int)
    ensures
        spec_sleb128_decode(spec_sleb128(value)) == value,
    decreases (if value < 0 { -value } else { value }),
{
    if !(-64 <= value < 64) {
        lemma_sleb128_roundtrip(value / 128);
        let s = spec_sleb128(value);
        assert(s.drop_first() == spec_sleb128(value / 128));
    }
}

/// A signed LEB128 encoding has the LEB128 shape.
pub proof fn lemma_sleb128_shape(value: int)
    ensures
        leb128_shaped(spec_sleb128(value)),
    decreases (if value < 0 { -value } else { value }),
{
    if !(-64 <= value < 64) {
        lemma_sleb128_shape(value / 128);
        let s = spec_sleb128(value);
        let t = spec_sleb128(value / 128);
        assert forall|i: int| 0 <= i < s.len() - 1 implies s[i] >= 128 by {
            if i > 0 {
                assert(s[i] == t[i - 1]);
            }
        }
    }
}

/// A number from -64 to 63 takes one byte, and a 32-bit number at most five.
pub proof fn lemma_sleb128_len(value: int)
    ensures
        (-64 <= value < 64) <==> spec_sleb128(value).len() == 1,
        i32::MIN <= value <= i32::MAX ==> spec_sleb128(value).len() <= 5,
    decreases (if value < 0 { -value } else { value }),
{
    if !(-64 <= value < 64) {
        lemma_sleb128_len(value / 128);
        if i32::MIN <= value <= i32::MAX {
            let v1 = value / 128;
            let v2 = v1 / 128;
            let v3 = v2 / 128;
            assert(-0x100_0000 <= v1 < 0x100_0000);
            assert(-0x2_0000 <= v2 < 0x2_0000);
            assert(-0x400 <= v3 < 0x400);
            assert(-8 <= v3 / 128 < 8);
            lemma_sleb128_len(v1);
            lemma_sleb128_len(v2);
            lemma_sleb128_len(v3);
            lemma_sleb128_len(v3 / 128);
        }
    }
}

/// The signed LEB128 encoding is the shortest: every byte sequence of the
/// LEB128 shape that decodes to `value` is at least as long.
pub proof fn lemma_sleb128_shortest(value: int, bytes: Seq<u8>)
    requires
        leb128_shaped(bytes),
        spec_sleb128_decode(bytes) == value,
    ensures
        spec_sleb128(value).len() <= bytes.len(),
    decreases bytes.len(),
{
    if bytes.len() == 1 {
        lemma_sleb128_len(value);
    } else {
        let rest = bytes.drop_first();
        assert(bytes[0] >= 128);
        assert(leb128_shaped(rest)) by {
            assert(rest.last() == bytes.last());
            assert forall|i: int| 0 <= i < rest.len() - 1 implies rest[i] >= 128 by {
                assert(rest[i] == bytes[i + 1]);
            }
        }
        let d = spec_sleb128_decode(rest);
        assert(value == (bytes[0] - 128) + 128 * d);
        assert(value / 128 == d);
        lemma_sleb128_shortest(d, rest);
    }
}

} // verus!
