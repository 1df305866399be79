use raven::instruction::{
    extract_a, extract_f, extract_i, extract_p, extract_s, extract_u, Instruction, Opcode,
};

#[test]
fn immediates() {
    let i: u32 =                0b1010_0101__1010_0101__1010_0101__1010_0101;

    assert_eq!(extract_u(i),    0b1010_0101__1010_0101__1010_0000__0000_0000);
    assert_eq!(extract_a(i),    0b1111_1111__1111_1111__1111_0100__1011_0100);
    assert_eq!(extract_s(i),    0b1111_1111__1111_1111__1111_0110__1001_1010);
    assert_eq!(extract_f(i),    0b1111_1111__1111_1101__0010_1101__0010_1100);
    assert_eq!(extract_i(i),    0b1_0100);
    assert_eq!(extract_p(i),    0b10_01);
}

#[test]
fn parse_1() {
    let iw: u32 = 0b000_00001_00010_00011_00100_00101_1000;
    let i = Instruction::from_iword(iw);

    assert_eq!(i.funct, 0b00001_000_00100);
    assert_eq!(i.rd.inner(), 0b00101);
    assert_eq!(i.rs1.inner(), 0b00011);
    assert_eq!(i.rs2.inner(), 0b00010);
    assert_eq!(i.rs3.inner(), 0b00001);
    assert_eq!(i.primary_immediate, extract_a(iw));
    assert_eq!(i.opcode, Opcode::Arith);
    assert!(!i.is_imm)
}

#[test]
fn decode_is_deterministic() {
    for iw in [0u32, 1, 0xffff_ffff, 0xa5a5_a5a5, 0x1234_5678, 0x8000_000e] {
        let a = Instruction::from_iword(iw);
        let b = Instruction::from_iword(iw);
        assert_eq!(a.opcode, b.opcode);
        assert_eq!(a.funct, b.funct);
        assert_eq!(a.is_imm, b.is_imm);
        assert_eq!(a.primary_immediate, b.primary_immediate);
        assert_eq!(a.rd, b.rd);
        assert_eq!(a.rs1, b.rs1);
        assert_eq!(a.rs2, b.rs2);
        assert_eq!(a.rs3, b.rs3);
        assert_eq!(a.p, b.p);
    }
}

#[test]
fn opcode_selection() {
    let ops = [
        Opcode::Comp,
        Opcode::Ld,
        Opcode::Func,
        Opcode::St,
        Opcode::Arith,
        Opcode::Io,
        Opcode::ArithSkip,
        Opcode::ImmUpper,
    ];
    for sel in 0..8u32 {
        let i = Instruction::from_iword(sel << 1);
        assert_eq!(i.opcode, ops[sel as usize]);
        assert_eq!(i.is_imm, sel == 7);
    }
}

#[test]
fn store_and_imm_upper_registers() {
    // store: no destination, split immediate
    let st = Instruction::from_iword(0b0110 | (5 << 4) | (7 << 14) | (3 << 19) | 1);
    assert_eq!(st.opcode, Opcode::St);
    assert_eq!(st.rd.inner(), 0);
    assert_eq!(st.rs1.inner(), 7);
    assert_eq!(st.primary_immediate, (3 << 5) | 5);
    // immediate-upper: reads and writes the same register, keeps 4 funct bits
    let iu = Instruction::from_iword(0b1110 | (9 << 4) | (0b11111 << 9) | (4 << 14) | 0xffff_e000);
    assert_eq!(iu.opcode, Opcode::ImmUpper);
    assert!(iu.is_imm);
    assert_eq!(iu.rs1.inner(), 9);
    assert_eq!(iu.rd.inner(), 9);
    assert_eq!(iu.funct, 0b1111);
    assert_eq!(iu.primary_immediate, 0xffff_e000);
}

#[test]
fn funct_fields() {
    // register-register arithmetic takes 13 bits: low 5, top 3, then bits 24-28
    let w = 0b1000 | (0b10101 << 9) | (0b011 << 29) | (0b00110 << 24);
    assert_eq!(Instruction::from_iword(w).funct, 0b00110_011_10101);
    // immediate arithmetic takes only the low 5
    assert_eq!(Instruction::from_iword(w | 1).funct, 0b10101);
    // I/O takes low 5 and top 3
    let io = 0b1010 | (0b00001 << 9) | (0b010 << 29);
    assert_eq!(Instruction::from_iword(io).funct, 0b010_00001);
    // function words keep one bit
    let f = 0b0100 | (0b10110 << 9);
    assert_eq!(Instruction::from_iword(f).funct, 0);
    // the function immediate is even
    assert_eq!(Instruction::from_iword(0b0100 | (1 << 13)).primary_immediate, 0);
    assert_eq!(Instruction::from_iword(0b0100 | (3 << 13)).primary_immediate, 2);
}

#[test]
fn select_source_2_by_mode() {
    let reg = Instruction::from_iword(0b1000 | (6 << 19));
    assert_eq!(reg.select_source_2(77), 77);
    let imm = Instruction::from_iword(0b1001 | (6 << 19));
    assert_eq!(imm.select_source_2(77), 6);
}
