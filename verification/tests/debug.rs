use rs_lox::debug::{disassemble_chunk, disassemble_instruction, DisasmKind};
use rs_lox::{Chunk, OpCode, Value};

#[test]
fn disassemble_runs() {
    let mut chunk = Chunk::new();
    chunk.write_opcode(OpCode::Return, 1);
    let listing = disassemble_chunk(&chunk);
    assert_eq!(1, listing.len());
}

#[test]
fn return_only_chunk_lists_one_instruction_and_consumes_the_stream() {
    let mut chunk = Chunk::new();
    chunk.write_opcode(OpCode::Return, 1);
    let listing = disassemble_chunk(&chunk);
    assert_eq!(1, listing.len());
    assert_eq!(0, listing[0].offset);
    assert_eq!(1, listing[0].line);
    assert!(matches!(listing[0].kind, DisasmKind::Return));
    let (_, next) = disassemble_instruction(&chunk, 0);
    assert_eq!(chunk.bytes().len(), next);
}

#[test]
fn constant_instruction_decodes_index_and_value() {
    let mut chunk = Chunk::new();
    let v = Value::from_bits(1.2f64.to_bits());
    chunk.write_constant(v, 1);
    chunk.write_opcode(OpCode::Return, 2);
    let listing = disassemble_chunk(&chunk);
    assert_eq!(2, listing.len());
    assert_eq!(0, listing[0].offset);
    match listing[0].kind {
        DisasmKind::Constant { idx, value } => {
            assert_eq!(0, idx);
            assert_eq!(v, value);
        },
        _ => panic!("expected a constant instruction"),
    }
    assert_eq!(9, listing[1].offset);
    assert!(matches!(listing[1].kind, DisasmKind::Return));
}

#[test]
fn repeated_source_line_is_marked_for_elision() {
    let mut chunk = Chunk::new();
    chunk.write_constant(Value::from_bits(1.2f64.to_bits()), 1);
    chunk.write_opcode(OpCode::Return, 1);
    chunk.write_opcode(OpCode::Return, 2);
    let listing = disassemble_chunk(&chunk);
    assert_eq!(3, listing.len());
    // the first instruction of the listing never elides its line
    assert!(!listing[0].same_line);
    // same line as the previous instruction: marked
    assert!(listing[1].same_line);
    // a new source line is printed in full
    assert!(!listing[2].same_line);
}

#[test]
fn unknown_opcode_is_reported_and_walk_continues() {
    let mut chunk = Chunk::new();
    chunk.write(255, 1);
    chunk.write_opcode(OpCode::Return, 2);
    let listing = disassemble_chunk(&chunk);
    assert_eq!(2, listing.len());
    assert!(matches!(listing[0].kind, DisasmKind::Unknown { opcode: 255 }));
    assert!(matches!(listing[1].kind, DisasmKind::Return));
}

#[test]
fn truncated_operand_ends_the_walk() {
    let mut chunk = Chunk::new();
    chunk.write_opcode(OpCode::Constant, 1);
    let listing = disassemble_chunk(&chunk);
    assert_eq!(1, listing.len());
    assert!(matches!(listing[0].kind, DisasmKind::TruncatedOperand));
}

#[test]
fn constant_index_without_pool_entry_is_reported() {
    let mut chunk = Chunk::new();
    chunk.write_opcode(OpCode::Constant, 1);
    chunk.write_usize(7, 1);
    let listing = disassemble_chunk(&chunk);
    assert_eq!(1, listing.len());
    assert!(matches!(listing[0].kind, DisasmKind::InvalidConstant { idx: 7 }));
}
