use henrylang::ast::Type;
use henrylang::chunk::{Chunk, Function, HeapConstant, OpCode};
use henrylang::compiler::{Compiler, Upvalue};
use henrylang::token::TokenType;

#[test]
fn opcodes_round_trip_through_their_bytes() {
    for b in 0u8..62 {
        let op = OpCode::from_byte(b).unwrap();
        assert_eq!(op.byte(), b);
    }
    assert!(OpCode::from_byte(62).is_none());
    assert_eq!(OpCode::Return.byte(), 0);
    assert_eq!(OpCode::IntAdd.byte(), 22);
    assert_eq!(OpCode::HeapReduce.byte(), 61);
    assert_eq!(OpCode::MapOp.name(), "Map");
}

#[test]
fn constants_are_written_with_big_endian_indices() {
    let mut c = Chunk::new();
    c.write_constant(7, 0).unwrap();
    c.write_constant(8, 0).unwrap();
    assert_eq!(c.bytes, vec![OpCode::Constant.byte(), 0, 0, OpCode::Constant.byte(), 0, 1]);
    assert_eq!(c.constants, vec![7, 8]);
    let mut ip = 4;
    assert_eq!(c.read_u16(&mut ip), 1);
    assert_eq!(ip, 6);
}

#[test]
fn lines_are_recorded_where_they_start() {
    let mut c = Chunk::new();
    c.write_opcode(OpCode::True, 1);
    c.write_opcode(OpCode::False, 3);
    c.write_opcode(OpCode::Not, 3);
    assert_eq!(c.newlines, vec![2, 2]);
    // lines are brought up to date after the instruction is written, so the
    // new line starts at the byte after it
    assert_eq!(c.line_num(0), 1);
    assert_eq!(c.line_num(1), 1);
    assert_eq!(c.line_num(2), 3);
}

#[test]
fn jumps_are_patched_to_the_end_of_the_code() {
    let mut c = Chunk::new();
    let at = c.write_jump(OpCode::JumpIfFalse, 0).unwrap();
    assert_eq!(at, 1);
    c.write_opcode(OpCode::True, 0);
    c.write_opcode(OpCode::False, 0);
    c.patch_jump(at).unwrap();
    assert_eq!(c.bytes, vec![OpCode::JumpIfFalse.byte(), 0, 2, OpCode::True.byte(), OpCode::False.byte()]);
    assert_eq!(c.write_jump(OpCode::True, 0).unwrap_err(), "Invalid opcode for write_jump");
}

#[test]
fn long_jumps_are_refused() {
    let mut c = Chunk::new();
    let at = c.write_jump(OpCode::Jump, 0).unwrap();
    for _ in 0..65536 {
        c.write_opcode(OpCode::Not, 0);
    }
    assert_eq!(c.patch_jump(at).unwrap_err(), "Jump offset overflow");
}

#[test]
fn too_many_constants_are_refused() {
    let mut c = Chunk::new();
    for i in 0..65536u64 {
        c.create_constant(i).unwrap();
    }
    assert_eq!(c.write_constant(1, 0).unwrap_err(), "Too many constants in one chunk");
    assert!(c.bytes.is_empty());
}

#[test]
fn closures_list_their_captures() {
    let mut c = Chunk::new();
    let mut f = Function::new();
    f.name = "add".to_string();
    f.num_upvalues = 1;
    f.num_heap_upvalues = 1;
    f.arity = 2;
    let ups = vec![Upvalue { index: 3, is_local: true }];
    let heap_ups = vec![Upvalue { index: 258, is_local: false }];
    c.write_closure(f, &ups, &heap_ups, 0).unwrap();
    assert_eq!(c.bytes, vec![OpCode::Closure.byte(), 0, 0, 1, 0, 3, 0, 1, 2]);
    let (text, next) = c.disassemble_instruction(0);
    assert_eq!(text, "0000 Closure 1 1\n | local: true, idx: 3\n | local: false, idx: 258");
    assert_eq!(next, 9);
}

#[test]
fn instructions_are_disassembled() {
    let mut c = Chunk::new();
    c.write_constant(255, 0).unwrap();
    c.write_heap_constant(HeapConstant::Str("a\"b".to_string()), 0).unwrap();
    c.write_endblock(2, 1, false, 0).unwrap();
    c.write_get_global("x".to_string(), true, 0).unwrap();
    c.write_opcode(OpCode::IntAdd, 0);
    assert_eq!(c.disassemble_instruction(0), ("0000 Constant 0xff".to_string(), 3));
    assert_eq!(c.disassemble_instruction(3), ("0003 HeapConstant String(\"a\\\"b\")".to_string(), 6));
    assert_eq!(c.disassemble_instruction(6), ("0006 EndBlock 2 1".to_string(), 11));
    assert_eq!(c.disassemble_instruction(11), ("0011 GetHeapGlobal x".to_string(), 14));
    assert_eq!(c.disassemble_instruction(14), ("0014 IntAdd".to_string(), 15));
}

#[test]
fn globals_are_declared_at_depth_zero() {
    let mut c = Compiler::new(vec![]);
    c.begin_scope();
    let idx = c.create_variable("x".to_string(), &Type::Int).unwrap();
    assert_eq!(idx, Some(0));
    c.set_variable(idx, false).unwrap();
    assert_eq!(c.typecontext.len(), 1);
    assert_eq!(c.typecontext[0].name, "x");
    let again = c.create_variable("x".to_string(), &Type::Bool).unwrap();
    assert_eq!(again, Some(1));
    assert_eq!(c.typecontext.len(), 1);
    assert!(matches!(c.typecontext[0].typ, Type::Bool));
    let code = &c.frames[0].function.chunk.bytes;
    assert_eq!(code, &vec![OpCode::SetGlobal.byte(), 0, 0]);
}

#[test]
fn locals_shadow_and_scopes_pop_them() {
    let mut c = Compiler::new(vec![]);
    c.begin_scope();
    c.begin_scope();
    assert_eq!(c.create_variable("a".to_string(), &Type::Int).unwrap(), None);
    assert_eq!(c.create_variable("s".to_string(), &Type::Str).unwrap(), None);
    assert_eq!(c.create_variable("a".to_string(), &Type::Int).unwrap(), None);
    c.get_variable("a".to_string(), false).unwrap();
    c.get_variable("s".to_string(), true).unwrap();
    c.get_variable("g".to_string(), false).unwrap();
    c.end_scope(false).unwrap();
    let code = c.frames[0].function.chunk.bytes.clone();
    assert_eq!(
        code,
        vec![
            OpCode::GetLocal.byte(), 0, 1,
            OpCode::GetHeapLocal.byte(), 0, 0,
            OpCode::GetGlobal.byte(), 0, 0,
            OpCode::EndBlock.byte(), 0, 2, 0, 1,
        ]
    );
    assert!(c.frames[0].locals.locals.is_empty());
}

#[test]
fn closures_capture_through_enclosing_functions() {
    let mut c = Compiler::new(vec![]);
    c.begin_scope();
    c.begin_scope();
    c.create_variable("x".to_string(), &Type::Int).unwrap();
    c.new_from();
    c.begin_scope();
    c.new_from();
    c.begin_scope();
    c.get_variable("x".to_string(), false).unwrap();
    c.get_variable("x".to_string(), false).unwrap();
    // innermost captures the middle function's capture of x
    assert_eq!(c.frames[2].upvalues, vec![Upvalue { index: 0, is_local: false }]);
    assert_eq!(c.frames[1].upvalues, vec![Upvalue { index: 0, is_local: true }]);
    assert_eq!(c.frames[2].function.num_upvalues, 1);
    assert_eq!(c.frames[2].function.chunk.bytes, vec![OpCode::GetUpvalue.byte(), 0, 0, OpCode::GetUpvalue.byte(), 0, 0]);
    c.write_function().unwrap();
    assert_eq!(c.frames.len(), 2);
    assert_eq!(c.frames[1].function.chunk.bytes, vec![OpCode::Closure.byte(), 0, 0, 0, 0, 0]);
}

#[test]
fn binary_operators_pick_their_instruction() {
    let mut c = Compiler::new(vec![]);
    c.write_binary(TokenType::Plus, &Type::Int).unwrap();
    c.write_binary(TokenType::LEq, &Type::Float).unwrap();
    c.write_binary(TokenType::Or, &Type::Bool).unwrap();
    c.write_binary(TokenType::Plus, &Type::Str).unwrap();
    c.write_binary(TokenType::To, &Type::Int).unwrap();
    assert_eq!(
        c.frames[0].function.chunk.bytes,
        vec![
            OpCode::IntAdd.byte(),
            OpCode::FloatLessEqual.byte(),
            OpCode::Or.byte(),
            OpCode::Concat.byte(),
            OpCode::To.byte(),
        ]
    );
    assert_eq!(
        c.write_binary(TokenType::Star, &Type::Str).unwrap_err(),
        "Operator Star not supported for type Str"
    );
    assert_eq!(
        c.write_binary(TokenType::Minus, &Type::Arr(Box::new(Type::Int))).unwrap_err(),
        "Operator Minus not supported for type Int"
    );
    assert_eq!(
        c.write_binary(TokenType::Plus, &Type::Maybe(Box::new(Type::Int))).unwrap_err(),
        "Type Maybe(Int) not yet supported for binary operation"
    );
    assert_eq!(c.frames[0].function.chunk.bytes.len(), 5);
}

#[test]
fn binary_operands_must_agree() {
    assert!(Compiler::check_operands(TokenType::Plus, &Type::Int, &Type::Int).is_ok());
    assert_eq!(
        Compiler::check_operands(TokenType::Plus, &Type::Int, &Type::Float).unwrap_err(),
        "Operands for operator Plus must be of the same type; got Int and Float"
    );
}

#[test]
fn whole_chunks_are_disassembled() {
    let mut c = Chunk::new();
    c.write_opcode(OpCode::True, 0);
    let at = c.write_jump(OpCode::JumpIfFalse, 0).unwrap();
    c.write_get_local(1, false, 0).unwrap();
    c.patch_jump(at).unwrap();
    c.write_opcode(OpCode::MapOp, 0);
    assert_eq!(
        c.disassemble(),
        vec![
            "0000 True".to_string(),
            "0001 JumpIfFalse 3".to_string(),
            "0004 GetLocal 1".to_string(),
            "0007 Map".to_string(),
        ]
    );
}

#[test]
fn interpreter_errors_are_reported_by_kind() {
    use_error_kinds();
}

fn use_error_kinds() {
    let c = henrylang::vm::InterpreterError::CompileError("bad".to_string());
    let r = henrylang::vm::InterpreterError::RuntimeError("worse".to_string());
    assert_eq!(c.report(), "Compile error: bad");
    assert_eq!(r.report(), "Runtime error: worse");
}
