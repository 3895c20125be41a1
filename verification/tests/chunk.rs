use rs_lox::{Chunk, OpCode, Value};

#[test]
fn write_byte() {
    let mut chunk = Chunk::new();
    chunk.write(OpCode::Return as u8, 1);
    assert_eq!(1, chunk.bytes()[0]);
    assert_eq!(1, chunk.lines[0]);
}

#[test]
fn write_opcode() {
    let mut chunk = Chunk::new();
    chunk.write_opcode(OpCode::Return, 1);
    assert_eq!(1, chunk.bytes()[0]);
}

#[test]
fn add_constant() {
    let mut chunk = Chunk::new();
    let idx = chunk.add_constant(Value::from_bits(23.0f64.to_bits()));
    assert_eq!(0, idx);
}

#[test]
fn write_usize() {
    let mut chunk = Chunk::new();
    let constant = chunk.add_constant(Value::from_bits(1.2f64.to_bits()));
    chunk.write_opcode(OpCode::Constant, 1);
    assert_eq!(1, chunk.bytes().len());

    chunk.write_usize(constant, 2);

    assert_eq!(9, chunk.bytes().len());
    assert_eq!(1, chunk.lines[0]);
    assert_eq!(2, chunk.lines[1]);
    assert_eq!(2, chunk.lines[8]);
}

#[test]
fn read_constant() {
    let mut chunk = Chunk::new();
    let const_offset = chunk.add_constant(Value::from_bits(1.2f64.to_bits()));
    chunk.write_opcode(OpCode::Constant, 1);
    chunk.write_usize(const_offset, 2);

    let actual = chunk.read_constant(0);
    assert_eq!(1.2, f64::from_bits(actual.bits()));
}

#[test]
fn code_and_lines_grow_in_lockstep() {
    let mut chunk = Chunk::new();
    assert_eq!(chunk.bytes().len(), chunk.lines.len());
    chunk.write(7, 1);
    assert_eq!(chunk.bytes().len(), chunk.lines.len());
    chunk.write_opcode(OpCode::Return, 2);
    assert_eq!(chunk.bytes().len(), chunk.lines.len());
    chunk.write_usize(3, 3);
    assert_eq!(chunk.bytes().len(), chunk.lines.len());
    chunk.write_constant(Value::from_bits(2.0f64.to_bits()), 4);
    assert_eq!(chunk.bytes().len(), chunk.lines.len());
    assert_eq!(19, chunk.bytes().len());
}

#[test]
fn add_constant_indices_increase_from_zero() {
    let mut chunk = Chunk::new();
    let a = Value::from_bits(1.0f64.to_bits());
    let b = Value::from_bits(2.0f64.to_bits());
    let c = Value::from_bits(1.0f64.to_bits());
    assert_eq!(0, chunk.add_constant(a));
    assert_eq!(1, chunk.add_constant(b));
    // equal values are not deduplicated: the pool is append-only
    assert_eq!(2, chunk.add_constant(c));
    assert_eq!(vec![a, b, c], chunk.constants);
}

#[test]
fn operand_round_trips_through_constant_idx() {
    for value in [0usize, 1, 8, 255, 256, 65_537, usize::MAX] {
        let mut chunk = Chunk::new();
        chunk.write_usize(value, 1);
        assert_eq!(Chunk::constant_idx_size(), chunk.bytes().len());
        assert_eq!(value, chunk.constant_idx(0));
    }
}

#[test]
fn operand_bytes_are_little_endian() {
    let mut chunk = Chunk::new();
    chunk.write_usize(0x0102, 1);
    assert_eq!(&vec![0x02u8, 0x01, 0, 0, 0, 0, 0, 0], chunk.bytes());
}

#[test]
fn write_constant_emits_opcode_operand_and_pool_entry() {
    let mut chunk = Chunk::new();
    let v = Value::from_bits(1.5f64.to_bits());
    chunk.write_constant(v, 3);
    assert_eq!(9, chunk.bytes().len());
    assert_eq!(OpCode::Constant as u8, chunk.bytes()[0]);
    assert_eq!(0, chunk.constant_idx(1));
    assert_eq!(vec![v], chunk.constants);
    assert_eq!(vec![3usize; 9], chunk.lines);
    assert_eq!(v, chunk.read_constant(1));
}

#[test]
fn constant_idx_size_is_eight() {
    assert_eq!(8, Chunk::constant_idx_size());
}

#[test]
fn iter_walks_the_code_bytes() {
    let mut chunk = Chunk::new();
    chunk.write(5, 1);
    chunk.write(6, 1);
    let collected: Vec<u8> = chunk.iter().copied().collect();
    assert_eq!(vec![5u8, 6u8], collected);
}

#[test]
fn value_bits_round_trip() {
    let v = Value::from_bits(1.2f64.to_bits());
    assert_eq!(1.2, f64::from_bits(v.bits()));
    assert_eq!(v, Value::from_bits(1.2f64.to_bits()));
    assert_ne!(v, Value::from_bits(2.4f64.to_bits()));
}
