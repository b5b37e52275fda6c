use j1::cpu::CPU;
use j1::errors::J1Error;
use j1::instruction::Instruction::{Call, Conditional, Jump, Literal, ALU};
use j1::instruction::OpCode::{
    OpAtT, OpDepth, OpN, OpNeqT, OpNleT, OpNlshiftT, OpNotT, OpNrshiftT, OpNuleT, OpR, OpT,
    OpTandN, OpTminus1, OpTorN, OpTplusN, OpTxorN,
};
use j1::instruction::{AluAttributes, Instruction, OpCode};

#[test]
fn reset() {
    let mut cpu = CPU::new();

    cpu.pc = 100;
    cpu.st0 = 10;
    cpu.d.move_sp(10);
    cpu.r.move_sp(20);
    assert_eq!(140, cpu.pc + cpu.st0 + cpu.d.depth() as u16 + cpu.r.depth() as u16);

    cpu.reset();
    assert_eq!(0, cpu.pc + cpu.st0 + cpu.d.depth() as u16 + cpu.r.depth() as u16);
}

#[test]
fn load_bytes() {
    let mut cpu = CPU::new();

    let data = &mut vec![1, 2, 4, 8];
    cpu.load_bytes(data).unwrap();

    let xs = &cpu.memory[0..2];
    assert_eq!([0x0201, 0x0804], xs);
}

#[test]
fn new_st0_2() {
    let default_cpu = CPU::new();
    let mut test_cases: Vec<(OpCode, u16, CPU)> = vec![];

    let mut cpu = default_cpu.clone();
    cpu.st0 = 0x55;
    test_cases.push((OpT, 0x55, cpu.clone()));
    test_cases.push((OpTminus1, 0x54, cpu.clone()));
    test_cases.push((OpNotT, 0xffaa, cpu.clone()));

    cpu = default_cpu.clone();
    cpu.st0 = 0xff;
    cpu.d.push(0xaa);
    cpu.d.push(0xbb);
    test_cases.push((OpN, 0xbb, cpu.clone()));
    test_cases.push((OpTplusN, 0x01ba, cpu.clone()));
    test_cases.push((OpTandN, 0xbb, cpu.clone()));
    test_cases.push((OpTorN, 0xff, cpu.clone()));
    test_cases.push((OpTxorN, 0x44, cpu.clone()));
    test_cases.push((OpNeqT, 0x00, cpu.clone()));
    test_cases.push((OpNleT, 0xffff, cpu.clone()));
    test_cases.push((OpNuleT, 0xffff, cpu.clone()));

    cpu = default_cpu.clone();
    cpu.st0 = 0xff;
    cpu.d.push(0xaa);
    cpu.d.push(0xff);
    test_cases.push((OpNeqT, 0xffff, cpu.clone()));
    test_cases.push((OpNleT, 0x00, cpu.clone()));
    test_cases.push((OpNuleT, 0x00, cpu.clone()));

    cpu = default_cpu.clone();
    cpu.st0 = 0x02;
    cpu.d.push(0xaa);
    cpu.d.push(0xff);
    test_cases.push((OpNrshiftT, 0x3f, cpu.clone()));
    test_cases.push((OpNlshiftT, 0x3fc, cpu.clone()));

    cpu = default_cpu.clone();
    cpu.r.push(0x05);
    test_cases.push((OpR, 0x5, cpu.clone()));

    cpu = default_cpu.clone();
    cpu.st0 = 0x02;
    cpu.memory[0] = 0;
    cpu.memory[1] = 5;
    cpu.memory[2] = 10;
    test_cases.push((OpAtT, 0x5, cpu.clone()));

    for (opcode, expected_st0, cpu) in test_cases.iter() {
        let st0 = cpu.clone().new_st0(opcode);
        assert_eq!(*expected_st0, st0)
    }
}

#[test]
fn eval() {
    let cmp = |expected: &CPU, result: &CPU| {
        assert_eq!(expected.pc, result.pc);
        assert_eq!(expected.st0, result.st0);
        assert_eq!(expected.d.sp, result.d.sp);
        assert_eq!(expected.r.sp, result.r.sp);
        assert_eq!(expected.d.dump(), result.d.dump());
        assert_eq!(expected.r.dump(), result.r.dump());
    };
    let default_cpu = CPU::new();

    let mut test_cases: Vec<(Vec<Instruction>, CPU)> = vec![];

    // test 01
    let mut inss = vec![Jump(0xff)];
    let mut e_cpu = default_cpu.clone();
    e_cpu.pc = 0xff;
    test_cases.push((inss, e_cpu));

    // test 02
    inss = vec![Literal(1), Conditional(0xff)];
    e_cpu = default_cpu.clone();
    e_cpu.pc = 2;
    test_cases.push((inss, e_cpu));

    // test 03
    inss = vec![Literal(0), Conditional(0xff)];
    e_cpu = default_cpu.clone();
    e_cpu.pc = 0xff;
    test_cases.push((inss, e_cpu));

    // test 04
    inss = vec![Call(0xff)];
    e_cpu = default_cpu.clone();
    e_cpu.pc = 0xff;
    e_cpu.r.push(0x02);
    test_cases.push((inss, e_cpu));

    // test 05
    inss = vec![Literal(0xff)];
    e_cpu = default_cpu.clone();
    e_cpu.pc = 1;
    e_cpu.st0 = 0xff;
    e_cpu.d.sp = 1;
    test_cases.push((inss, e_cpu));

    // test 06
    inss = vec![Literal(0xff), Literal(0xfe)];
    e_cpu = default_cpu.clone();
    e_cpu.pc = 2;
    e_cpu.st0 = 0xfe;
    e_cpu.d.push(0x00);
    e_cpu.d.push(0xff);
    test_cases.push((inss, e_cpu));

    // test 07 - dup
    let mut alu = AluAttributes::default();
    alu.opcode = OpT;
    alu.t2n = true;
    alu.d_dir = 1;
    inss = vec![Literal(0xff), ALU(alu)];
    e_cpu = default_cpu.clone();
    e_cpu.pc = 2;
    e_cpu.st0 = 0xff;
    e_cpu.d.push(0x00);
    e_cpu.d.push(0xff);
    test_cases.push((inss, e_cpu));

    // test 08 - over
    alu = AluAttributes::default();
    alu.opcode = OpN;
    alu.t2n = true;
    alu.d_dir = 1;
    inss = vec![Literal(0xaa), Literal(0xbb), ALU(alu)];
    e_cpu = default_cpu.clone();
    e_cpu.pc = 3;
    e_cpu.st0 = 0xaa;
    e_cpu.d.push(0x00);
    e_cpu.d.push(0xaa);
    e_cpu.d.push(0xbb);
    test_cases.push((inss, e_cpu));

    // test 09 - invert
    alu = AluAttributes::default();
    alu.opcode = OpNotT;
    inss = vec![Literal(0x00ff), ALU(alu)];
    e_cpu = default_cpu.clone();
    e_cpu.pc = 2;
    e_cpu.st0 = 0xff00;
    e_cpu.d.sp = 1;
    test_cases.push((inss, e_cpu));

    // test 10 - plus
    alu = AluAttributes::default();
    alu.opcode = OpTplusN;
    alu.d_dir = -1;
    inss = vec![Literal(1), Literal(2), ALU(alu)];
    e_cpu = default_cpu.clone();
    e_cpu.pc = 3;
    e_cpu.st0 = 3;
    e_cpu.d.push(0);
    e_cpu.d.push(1);
    e_cpu.d.sp = 1;
    test_cases.push((inss, e_cpu));

    // test 11 - swap
    alu = AluAttributes::default();
    alu.opcode = OpN;
    alu.t2n = true;
    inss = vec![Literal(2), Literal(3), ALU(alu)];
    e_cpu = default_cpu.clone();
    e_cpu.pc = 3;
    e_cpu.st0 = 2;
    e_cpu.d.push(0);
    e_cpu.d.push(3);
    e_cpu.d.sp = 2;
    test_cases.push((inss, e_cpu));

    // test 12 - nip
    alu = AluAttributes::default();
    alu.opcode = OpT;
    alu.d_dir = -1;
    inss = vec![Literal(2), Literal(3), ALU(alu)];
    e_cpu = default_cpu.clone();
    e_cpu.pc = 3;
    e_cpu.st0 = 3;
    e_cpu.d.push(0);
    e_cpu.d.push(2);
    e_cpu.d.sp = 1;
    test_cases.push((inss, e_cpu));

    // test 13 - drop
    alu = AluAttributes::default();
    alu.opcode = OpN;
    alu.d_dir = -1;
    inss = vec![Literal(2), Literal(3), ALU(alu)];
    e_cpu = default_cpu.clone();
    e_cpu.pc = 3;
    e_cpu.st0 = 2;
    e_cpu.d.push(0);
    e_cpu.d.push(2);
    e_cpu.d.sp = 1;
    test_cases.push((inss, e_cpu));

    // test 14 - ;
    alu = AluAttributes::default();
    alu.opcode = OpT;
    alu.r_dir = -1;
    alu.r2pc = true;
    inss = vec![Call(10), Call(20), ALU(alu)];
    e_cpu = default_cpu.clone();
    e_cpu.pc = 11;
    e_cpu.r.push(2);
    e_cpu.r.push(22);
    e_cpu.r.sp = 1;
    test_cases.push((inss, e_cpu));

    // test 15 - >r
    alu = AluAttributes::default();
    alu.opcode = OpN;
    alu.r_dir = 1;
    alu.d_dir = -1;
    alu.t2r = true;
    inss = vec![Literal(10), ALU(alu)];
    e_cpu = default_cpu.clone();
    e_cpu.pc = 2;
    e_cpu.r.push(10);
    e_cpu.r.sp = 1;
    test_cases.push((inss, e_cpu));

    // test 16 - r>
    alu = AluAttributes::default();
    alu.opcode = OpR;
    alu.r_dir = -1;
    alu.d_dir = 1;
    alu.t2n = true;
    inss = vec![Literal(10), Call(20), ALU(alu)];
    e_cpu = default_cpu.clone();
    e_cpu.pc = 21;
    e_cpu.st0 = 4;
    e_cpu.d.push(0);
    e_cpu.d.push(10);
    e_cpu.d.sp = 2;
    e_cpu.r.push(10);
    e_cpu.r.push(4);
    e_cpu.r.sp = 0;
    test_cases.push((inss, e_cpu));

    // test 17 - r@
    alu = AluAttributes::default();
    alu.opcode = OpR;
    alu.r_dir = 0;
    alu.d_dir = 1;
    alu.t2n = true;
    inss = vec![Literal(10), ALU(alu)];
    e_cpu = default_cpu.clone();
    e_cpu.pc = 2;
    e_cpu.st0 = 0;
    e_cpu.d.push(0);
    e_cpu.d.push(10);
    e_cpu.d.sp = 2;
    e_cpu.r.push(10);
    e_cpu.r.sp = 0;
    test_cases.push((inss, e_cpu));

    // test 18 - r@
    alu = AluAttributes::default();
    alu.opcode = OpAtT;
    inss = vec![ALU(alu)];
    e_cpu = default_cpu.clone();
    e_cpu.pc = 1;
    test_cases.push((inss, e_cpu));

    // test 19 - !
    alu = AluAttributes::default();
    alu.opcode = OpN;
    alu.d_dir = -1;
    alu.n2_at_t = true;
    inss = vec![Literal(1), Literal(0), ALU(alu)];
    e_cpu = default_cpu.clone();
    e_cpu.pc = 3;
    e_cpu.st0 = 1;
    e_cpu.d.push(0);
    e_cpu.d.push(1);
    e_cpu.d.sp = 1;
    e_cpu.memory[0] = 1;
    test_cases.push((inss, e_cpu));

    for (inss, e_cpu) in test_cases.iter() {
        let mut cpu = default_cpu.clone();
        for ins in inss {
            let _ = cpu.execute(ins);
        }
        cmp(e_cpu, &cpu);
    }
}

#[test]
fn literal_cycle() {
    let mut cpu = CPU::new();
    cpu.execute(&Literal(0xFF)).unwrap();
    cpu.execute(&Literal(0xFE)).unwrap();
    assert_eq!(cpu.pc, 2);
    assert_eq!(cpu.st0, 0xFE);
    assert_eq!(cpu.d.sp, 2);
    assert_eq!(cpu.d.dump(), vec![0x00, 0xFF]);
}

#[test]
fn call_return() {
    let mut cpu = CPU::new();
    cpu.execute(&Call(10)).unwrap();
    cpu.execute(&Call(20)).unwrap();
    let mut alu = AluAttributes::default();
    alu.opcode = OpT;
    alu.r_dir = -1;
    alu.r2pc = true;
    cpu.execute(&ALU(alu)).unwrap();
    assert_eq!(cpu.pc, 11);
    assert_eq!(cpu.r.sp, 1);
    // dump covers slots 1..=sp; the popped return address stays in slot 2
    assert_eq!(cpu.r.dump(), vec![2]);
    assert_eq!(cpu.r.data[2], 22);
}

#[test]
fn store_word() {
    let mut cpu = CPU::new();
    cpu.execute(&Literal(1)).unwrap();
    cpu.execute(&Literal(0)).unwrap();
    let mut alu = AluAttributes::default();
    alu.opcode = OpN;
    alu.d_dir = -1;
    alu.n2_at_t = true;
    cpu.execute(&ALU(alu)).unwrap();
    assert_eq!(cpu.memory[0], 1);
    assert_eq!(cpu.st0, 1);
}

#[test]
fn halt_signal() {
    let mut cpu = CPU::new();
    cpu.st0 = 0x7002;
    let mut alu = AluAttributes::default();
    alu.opcode = OpT;
    alu.n2_at_t = true;
    let r = cpu.execute(&ALU(alu));
    assert_eq!(r, Err(J1Error::Halt));
}

#[test]
fn write_read_round_trip() {
    let mut cpu = CPU::new();
    cpu.write_at(0x0100, 0xBEEF).unwrap();
    assert_eq!(cpu.read_at(0x0100), 0xBEEF);
    // a port write must not touch RAM
    let before = cpu.memory.clone();
    cpu.write_at(0x7004, 0x1234).unwrap();
    assert_eq!(before, cpu.memory);
}

#[test]
fn console_ports() {
    let mut cpu = CPU::new();
    cpu.console.load(&mut b"1 2".to_vec());
    assert_eq!(cpu.read_at(0x7001), 1);
    assert_eq!(cpu.read_at(0x7000), '1' as u16);
    assert_eq!(cpu.read_at(0x7000), ' ' as u16);
    assert_eq!(cpu.read_at(0x7000), '2' as u16);
    assert_eq!(cpu.read_at(0x7001), 0);
    assert_eq!(cpu.read_at(0x7000), 0);
    // a write to the output port emits the low byte
    cpu.write_at(0x7000, b'H' as u16).unwrap();
    assert_eq!(cpu.console.get_log(), "H");
}

#[test]
fn load_bytes_rejects_bad_images() {
    let mut cpu = CPU::new();
    assert_eq!(cpu.load_bytes(&vec![1, 2, 3]), Err(J1Error::OddImageLength));
    let big = vec![0u8; 0x4000 * 2];
    assert_eq!(cpu.load_bytes(&big), Err(J1Error::ImageTooBig));
    // nothing was written
    assert!(cpu.memory.iter().all(|w| *w == 0));
}

#[test]
fn run_consumes_input() {
    // a three-word loop that reads the input port until the script is drained:
    //   0: LIT 7000, 1: ALU [T], 2: UBRANCH 0
    let image: Vec<u8> = vec![0x00, 0xF0, 0x00, 0x6C, 0x00, 0x00];
    let mut cpu = CPU::new();
    cpu.load_bytes(&image).unwrap();
    let r = cpu.run(b"AB".to_vec());
    assert_eq!(r, Ok(()));
    assert_eq!(cpu.console.pos, cpu.console.input.len());
    assert_eq!(cpu.console.input, b"AB ".to_vec());
}

#[test]
fn run_halts_on_bye_port() {
    // 0: LIT 0048 ('H'), 1: LIT 7000, 2: ALU N→[T]  (emit 'H'),
    // 3: LIT 0005, 4: LIT 7002, 5: ALU N→[T]        (halt)
    let image: Vec<u8> = vec![
        0x48, 0x80, 0x00, 0xF0, 0x20, 0x60, 0x05, 0x80, 0x02, 0xF0, 0x20, 0x60,
    ];
    let mut cpu = CPU::new();
    cpu.load_bytes(&image).unwrap();
    let r = cpu.run(Vec::new());
    assert_eq!(r, Err(J1Error::Halt));
    assert_eq!(cpu.console.get_log(), "H");
}

#[test]
fn dump_asm_rows() {
    let mut cpu = CPU::new();
    // words 0x700C and 0x404E at byte addresses 0 and 2
    cpu.load_bytes(&vec![0x0C, 0x70, 0x4E, 0x40]).unwrap();
    let xs = cpu.dump_asm(0x0000, 0x0002);
    let expected = vec![
        "Address,Value,Instruction",
        "0x0000,0x700C,ALU     T R→PC r-1",
        "0x0002,0x404E,CALL    009c",
    ];
    assert_eq!(expected, xs);
}

#[test]
fn dump_ast_rows() {
    let mut cpu = CPU::new();
    cpu.load_bytes(&vec![0x0C, 0x70, 0x4E, 0x40]).unwrap();
    let xs = cpu.dump_ast(0x0000, 0x0002);
    let expected = vec![
        "Address,Value,Instruction",
        "0x0000,0x700C,Instruction::ALU(AluAttributes { opcode: OpT, r2pc: true, t2n: false, \
         t2r: false, n2_at_t: false, r_dir: -1, d_dir: 0 })",
        "0x0002,0x404E,Instruction::Call(0x004E)",
    ];
    assert_eq!(expected, xs);
}

#[test]
fn pure_alu_keeps_stacks() {
    let mut cpu = CPU::new();
    cpu.execute(&Literal(5)).unwrap();
    cpu.execute(&Literal(7)).unwrap();
    let d_before = cpu.d.clone();
    let r_before = cpu.r.clone();
    let mut alu = AluAttributes::default();
    alu.opcode = OpTplusN;
    cpu.execute(&ALU(alu)).unwrap();
    assert_eq!(cpu.st0, 12);
    assert_eq!(cpu.d.data, d_before.data);
    assert_eq!(cpu.d.sp, d_before.sp);
    assert_eq!(cpu.r.data, r_before.data);
    assert_eq!(cpu.r.sp, r_before.sp);
}

#[test]
fn depth_packs_both_pointers() {
    let mut cpu = CPU::new();
    cpu.d.move_sp(3);
    cpu.r.move_sp(4);
    let v = cpu.new_st0(&OpDepth);
    assert_eq!(v, (4 << 8) | 3);
}
