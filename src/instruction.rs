use vstd::prelude::*;

use crate::utils::{asr, extract_5_bits, field5, shift_right_arith};
use crate::registers::RegisterSelector;

verus! {

/// The operation class of an instruction word.
#[derive(PartialEq, Eq, Debug, Clone, Copy, Structural)]
pub enum Opcode {
    Func,
    Arith,
    ArithSkip,
    Ld,
    St,
    Io,
    ImmUpper,
    Comp,
}

/// The opcode selected by bits 1 to 3 of `i`.
pub open spec fn opcode_of(i: u32) -> Opcode {
    let sel = (i >> 1) & 7;
    if sel == 0 {
        Opcode::Comp
    } else if sel == 1 {
        Opcode::Ld
    } else if sel == 2 {
        Opcode::Func
    } else if sel == 3 {
        Opcode::St
    } else if sel == 4 {
        Opcode::Arith
    } else if sel == 5 {
        Opcode::Io
    } else if sel == 6 {
        Opcode::ArithSkip
    } else {
        Opcode::ImmUpper
    }
}

/// Whether `i` takes its second operand from its immediate: bit 0, or always
/// for immediate-upper words.
pub open spec fn is_imm_of(i: u32) -> bool {
    i & 1 != 0 || (i >> 1) & 7 == 7
}

/// The upper immediate: the top 19 bits in place, the low 13 cleared.
pub open spec fn imm_u(i: u32) -> u32 {
    i & 0xffff_e000
}

/// The arithmetic immediate: bits 19 to 31, sign-extended.
pub open spec fn imm_a(i: u32) -> u32 {
    asr(i, 19)
}

/// The store immediate: bits 29 to 31 sign-extended above bits 19 to 23 and
/// bits 4 to 8.
pub open spec fn imm_s(i: u32) -> u32 {
    asr(i & 0xe000_0000, 19) | (field5(i, 19) << 5) | field5(i, 4)
}

/// The function immediate: bits 13 to 31, sign-extended, bit 0 cleared.
pub open spec fn imm_f(i: u32) -> u32 {
    asr(i, 13) & 0xffff_fffe
}

/// The I/O immediate: bits 19 to 23.
pub open spec fn imm_i(i: u32) -> u32 {
    field5(i, 19)
}

/// The auxiliary field: bits 10 to 13.
pub open spec fn p_of(i: u32) -> u32 {
    (i >> 10) & 0xf
}

/// The immediate that opcode `op` takes from `i`.
pub open spec fn immediate_of(op: Opcode, i: u32) -> u32 {
    match op {
        Opcode::ImmUpper => imm_u(i),
        Opcode::St => imm_s(i),
        Opcode::Func => imm_f(i),
        Opcode::Io => imm_i(i),
        _ => imm_a(i),
    }
}

/// The function code that opcode `op` takes from `i`: bits 9 to 13, for
/// register-register arithmetic with bits 29 to 31 above them and bits 24 to
/// 28 above those, for I/O with bits 29 to 31 above them; immediate-upper
/// keeps the low four bits, function words the low bit.
pub open spec fn funct_of(op: Opcode, i: u32, is_imm: bool) -> u32 {
    let low = field5(i, 9);
    let mid = (i >> 29) << 5;
    match op {
        Opcode::Arith => if is_imm {
            low
        } else {
            low | mid | (field5(i, 24) << 8)
        },
        Opcode::Io => low | mid,
        Opcode::ImmUpper => low & 0xf,
        Opcode::Func => low & 1,
        _ => low,
    }
}

/// A decoded instruction word.
pub struct Instruction {
    pub opcode: Opcode,
    pub funct: u32,
    pub is_imm: bool,
    pub rs1: RegisterSelector,
    pub rs2: RegisterSelector,
    pub rs3: RegisterSelector,
    pub rd: RegisterSelector,
    pub primary_immediate: u32,
    pub p: u32,
}

/// `ins` is what word `i` decodes to. Stores have no destination (register 0);
/// immediate-upper words read and write the same register.
pub open spec fn decodes_to(i: u32, ins: Instruction) -> bool {
    let op = opcode_of(i);
    let rd: u8 = if op == Opcode::St {
        0
    } else {
        field5(i, 4) as u8
    };
    &&& ins.opcode == op
    &&& ins.is_imm == is_imm_of(i)
    &&& ins.primary_immediate == immediate_of(op, i)
    &&& ins.p == p_of(i)
    &&& ins.rd@ == rd
    &&& ins.rs1@ == (if op == Opcode::ImmUpper {
        rd
    } else {
        field5(i, 14) as u8
    })
    &&& ins.rs2@ == field5(i, 19) as u8
    &&& ins.rs3@ == field5(i, 24) as u8
    &&& ins.funct == funct_of(op, i, is_imm_of(i))
}

/// The operand values of an instruction.
#[derive(Clone, Copy)]
pub struct InsData {
    pub s1: u32,
    pub s2: u32,
    pub s3: u32,
}

impl InsData {
    pub fn new(s1: u32, s2: u32, s3: u32) -> (r: Self)
        ensures
            r == (InsData { s1, s2, s3 }),
    {
        InsData { s1, s2, s3 }
    }
}

impl Instruction {
    /// The second operand: the immediate in immediate mode, else the value
    /// read from the second source register.
    pub fn select_source_2(&self, regv: u32) -> (r: u32)
        ensures
            r == (if self.is_imm {
                self.primary_immediate
            } else {
                regv
            }),
    {
        if self.is_imm {
            self.primary_immediate
        } else {
            regv
        }
    }

    /// Decodes an instruction word; every word decodes, whether or not it
    /// names a valid operation.
    pub fn from_iword(i: u32) -> (r: Instruction)
        ensures
            decodes_to(i, r),
    {
        let (opcode, is_imm) = Opcode::parse(i);
        let primary_immediate = opcode.select_immediate(i);
        let p = extract_p(i);
        let rd = if opcode == Opcode::St {
            RegisterSelector::zero()
        } else {
            RegisterSelector::rd(i)
        };
        let rs1 = if opcode == Opcode::ImmUpper {
            rd
        } else {
            RegisterSelector::rs1(i)
        };
        let rs2 = RegisterSelector::rs2(i);
        let rs3 = RegisterSelector::rs3(i);
        let funct = opcode.extract_funct(i, is_imm);
        assert(field5(i, 4) < 32 && field5(i, 14) < 32) by (bit_vector);
        Instruction { opcode, funct, is_imm, rs1, rs2, rs3, rd, primary_immediate, p }
    }
}

impl Opcode {
    /// The opcode of `i` and whether it is in immediate mode.
    fn parse(i: u32) -> (r: (Opcode, bool))
        ensures
            r.0 == opcode_of(i),
            r.1 == is_imm_of(i),
    {
        let mut is_imm = i & 1 != 0;
        let sel = (i >> 1) & 7;
        assert((i >> 1) & 7 <= 7) by (bit_vector);
        let opcode = if sel == 0 {
            Opcode::Comp
        } else if sel == 1 {
            Opcode::Ld
        } else if sel == 2 {
            Opcode::Func
        } else if sel == 3 {
            Opcode::St
        } else if sel == 4 {
            Opcode::Arith
        } else if sel == 5 {
            Opcode::Io
        } else if sel == 6 {
            Opcode::ArithSkip
        } else {
            is_imm = true;
            Opcode::ImmUpper
        };
        (opcode, is_imm)
    }

    /// The immediate this opcode takes from `i`.
    fn select_immediate(&self, i: u32) -> (r: u32)
        ensures
            r == immediate_of(*self, i),
    {
        match self {
            Opcode::ImmUpper => extract_u(i),
            Opcode::St => extract_s(i),
            Opcode::Func => extract_f(i),
            Opcode::Io => extract_i(i),
            _ => extract_a(i),
        }
    }

    /// The function code this opcode takes from `i`.
    fn extract_funct(&self, i: u32, is_imm: bool) -> (r: u32)
        ensures
            r == funct_of(*self, i, is_imm),
    {
        let funct5a = extract_5_bits(i, 9);
        let funct3 = (i >> 29) << 5;
        match self {
            Opcode::Arith => {
                if !is_imm {
                    let f5b = extract_5_bits(i, 24) << 8;
                    funct5a | funct3 | f5b
                } else {
                    funct5a
                }
            },
            Opcode::Io => funct5a | funct3,
            Opcode::ImmUpper => funct5a & 0b1111,
            Opcode::Func => funct5a & 1,
            _ => funct5a,
        }
    }
}

pub fn extract_u(i: u32) -> (r: u32)
    ensures
        r == imm_u(i),
{
    i & 0xffff_e000
}

pub fn extract_a(i: u32) -> (r: u32)
    ensures
        r == imm_a(i),
{
    shift_right_arith(i, 19)
}

pub fn extract_s(i: u32) -> (r: u32)
    ensures
        r == imm_s(i),
{
    let high_3 = i & 0xe000_0000;
    let high_3_sign_extended = shift_right_arith(high_3, 19);
    let mid_5 = extract_5_bits(i, 19) << 5;
    let low_5 = extract_5_bits(i, 4);
    high_3_sign_extended | mid_5 | low_5
}

pub fn extract_f(i: u32) -> (r: u32)
    ensures
        r == imm_f(i),
{
    shift_right_arith(i, 13) & 0xffff_fffe
}

pub fn extract_i(i: u32) -> (r: u32)
    ensures
        r == imm_i(i),
{
    extract_5_bits(i, 19)
}

pub fn extract_p(i: u32) -> (r: u32)
    ensures
        r == p_of(i),
{
    assert((i & (0b1111u32 << 10u32)) >> 10u32 == (i >> 10u32) & 0xf) by (bit_vector);
    (i & (0b1111 << 10)) >> 10
}

/// Decoding is a function of the word: two decodings of one word agree.
pub proof fn lemma_decode_deterministic(i: u32, a: Instruction, b: Instruction)
    requires
        decodes_to(i, a),
        decodes_to(i, b),
    ensures
        a == b,
{
    crate::registers::lemma_selector_eq(a.rd, b.rd);
    crate::registers::lemma_selector_eq(a.rs1, b.rs1);
    crate::registers::lemma_selector_eq(a.rs2, b.rs2);
    crate::registers::lemma_selector_eq(a.rs3, b.rs3);
}

} // verus!
