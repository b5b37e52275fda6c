use j1::instruction::{decode, AluAttributes, Instruction, OpCode};

#[test]
fn op_code() {
    let op_t = OpCode::OpT as u16;
    let op_depth = OpCode::OpDepth as u16;
    assert_eq!((0u16, 14u16), (op_t, op_depth))
}

#[test]
fn alu_attributes() {
    assert_eq!(
        AluAttributes::default(),
        AluAttributes {
            opcode: OpCode::OpT,
            r2pc: false,
            t2n: false,
            t2r: false,
            n2_at_t: false,
            r_dir: 0,
            d_dir: 0
        }
    );
}

fn alu(
    opcode: OpCode,
    r2pc: bool,
    t2n: bool,
    t2r: bool,
    n2_at_t: bool,
    r_dir: i8,
    d_dir: i8,
) -> Instruction {
    Instruction::ALU(AluAttributes { opcode, r2pc, t2n, t2r, n2_at_t, r_dir, d_dir })
}

#[test]
fn instruction_decode() {
    let test_cases = [
        (0x0000, Instruction::Jump(0x0000)),
        (0x1fff, Instruction::Jump(0x1fff)),
        (0x2000, Instruction::Conditional(0x0000)),
        (0x3fff, Instruction::Conditional(0x1fff)),
        (0x4000, Instruction::Call(0x0000)),
        (0x5fff, Instruction::Call(0x1fff)),
        (0x8000, Instruction::Literal(0x0000)),
        (0xffff, Instruction::Literal(0x7fff)),
        (0x6000, alu(OpCode::OpT, false, false, false, false, 0, 0)),
        (0x6100, alu(OpCode::OpN, false, false, false, false, 0, 0)),
        (0x7000, alu(OpCode::OpT, true, false, false, false, 0, 0)),
        (0x6080, alu(OpCode::OpT, false, true, false, false, 0, 0)),
        (0x6040, alu(OpCode::OpT, false, false, true, false, 0, 0)),
        (0x6020, alu(OpCode::OpT, false, false, false, true, 0, 0)),
        (0x600c, alu(OpCode::OpT, false, false, false, false, -1, 0)),
        (0x6004, alu(OpCode::OpT, false, false, false, false, 1, 0)),
        (0x6003, alu(OpCode::OpT, false, false, false, false, 0, -1)),
        (0x6001, alu(OpCode::OpT, false, false, false, false, 0, 1)),
        (0x6f00, alu(OpCode::OpNuleT, false, false, false, false, 0, 0)),
        (0x70e5, alu(OpCode::OpT, true, true, true, true, 1, 1)),
        (0x7fef, alu(OpCode::OpNuleT, true, true, true, true, -1, -1)),
    ];
    for (bin, expected_instruction) in test_cases.iter() {
        let decoded = decode(*bin).unwrap();
        assert_eq!(decoded, *expected_instruction);
    }
}

#[test]
fn instruction_value_compile_show() {
    let test_cases = [
        (0x0000, 0, 0, "UBRANCH 0000".to_string()),
        (0x1fff, 8191, 8191, "UBRANCH 3ffe".to_string()),
        (0x2000, 0, 8192, "0BRANCH 0000".to_string()),
        (0x3fff, 8191, 16383, "0BRANCH 3ffe".to_string()),
        (0x4000, 0, 16384, "CALL    0000".to_string()),
        (0x5fff, 8191, 24575, "CALL    3ffe".to_string()),
        (0x8000, 0, 32768, "LIT     0000".to_string()),
        (0xffff, 32767, 65535, "LIT     7fff".to_string()),
        (0x6000, 0, 24576, "ALU     T".to_string()),
        (0x6100, 256, 24832, "ALU     N".to_string()),
        (0x7000, 4096, 28672, "ALU     T R→PC".to_string()),
        (0x6080, 128, 24704, "ALU     T T→N".to_string()),
        (0x6040, 64, 24640, "ALU     T T→R".to_string()),
        (0x6020, 32, 24608, "ALU     T N→[T]".to_string()),
        (0x600c, 12, 24588, "ALU     T r-1".to_string()),
        (0x6004, 4, 24580, "ALU     T r+1".to_string()),
        (0x6003, 3, 24579, "ALU     T d-1".to_string()),
        (0x6001, 1, 24577, "ALU     T d+1".to_string()),
        (0x6f00, 3840, 28416, "ALU     Nu<T".to_string()),
        (0x70e5, 4325, 28901, "ALU     T R→PC T→N T→R N→[T] r+1 d+1".to_string()),
        (0x7fef, 8175, 32751, "ALU     Nu<T R→PC T→N T→R N→[T] r-1 d-1".to_string()),
    ];
    for (bin, expected_value, expected_compile, expected_show) in test_cases.iter() {
        let decoded = decode(*bin).unwrap();

        let decoded_value = decoded.value();
        assert_eq!(decoded_value, *expected_value);

        let decoded_compile = decoded.compile();
        assert_eq!(decoded_compile, *expected_compile);

        let decoded_show = decoded.show();
        assert_eq!(decoded_show, *expected_show);
    }
}

#[test]
fn compile_inverts_decode() {
    // Every word without the unused ALU bit 4 comes back bit-for-bit.
    for w in [0x0000u16, 0x1fff, 0x2345, 0x4567, 0x6f0c, 0x7fef, 0x8000, 0xffff, 0xf00d] {
        assert_eq!(decode(w).unwrap().compile(), w);
    }
    // The unused bit 4 of an ALU word has no decoded field and is dropped.
    assert_eq!(decode(0x6010).unwrap().compile(), 0x6000);
}

#[test]
fn decode_inverts_compile() {
    let cases = [
        Instruction::Literal(0x7abc),
        Instruction::Jump(0x1234),
        Instruction::Conditional(0x0001),
        Instruction::Call(0x1fff),
        alu(OpCode::OpNrshiftT, false, true, false, true, -2, 1),
        alu(OpCode::OpDepth, true, false, true, false, 0, -1),
    ];
    for ins in cases.iter() {
        assert_eq!(decode(ins.compile()).unwrap(), *ins);
    }
}

#[test]
fn opcode_from_rejects_large_values() {
    assert_eq!(OpCode::from(15), Some(OpCode::OpNuleT));
    assert_eq!(OpCode::from(16), None);
    assert_eq!(OpCode::from(0xFFFF), None);
}

#[test]
fn instruction_display() {
    assert_eq!(decode(0x404E).unwrap().display(), "Instruction::Call(0x004E)");
    assert_eq!(
        decode(0x700C).unwrap().display(),
        "Instruction::ALU(AluAttributes { opcode: OpT, r2pc: true, t2n: false, t2r: false, \
         n2_at_t: false, r_dir: -1, d_dir: 0 })"
    );
}
