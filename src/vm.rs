use vstd::prelude::*;

use crate::arithmetic::{alu, arithmetic, word};
use crate::utils::field5;
use crate::immupper::{imm_upper, upper};
use crate::instruction::{
    funct_of, immediate_of, is_imm_of, opcode_of, InsData, Instruction, Opcode,
};
use crate::io::{IoError, IoHandler, IoView, WRITE_BYTE};
use crate::mem::{load, load_result, store, store_bytes, store_result, effective, LoadError, StoreError};
use crate::memory::{MemView, Memory, MemoryError};
use crate::registers::{RegisterSelector, Registers, RegsView};

verus! {

/// What executing one instruction produced.
#[derive(Debug, Clone, Copy, PartialEq, Eq, Structural)]
pub enum Exec {
    /// A value for the destination register.
    Normal(u32),
    /// A value, and the next instruction is skipped.
    Skip(u32),
    /// A call: the value saved for the return, and the target.
    Call(u32, u32),
    /// A return to the given target.
    Return(u32),
}

/// Why a cycle failed; a failed cycle changes nothing.
#[derive(Debug, Clone, Copy, PartialEq, Eq, Structural)]
pub enum VMError {
    Mem(MemoryError),
    /// Invalid arithmetic function code.
    Arith,
    /// Invalid immediate-upper function code.
    ImmUpper,
    /// Invalid load function code.
    Ld,
    /// Invalid store function code.
    St,
    /// Invalid I/O function code.
    IoFunct,
    /// A failed I/O operation.
    Io,
    /// Compressed instructions do not exist.
    Compressed,
    /// A return that would drop below the two frames the register file starts with.
    Underflow,
}

impl From<MemoryError> for VMError {
    fn from(value: MemoryError) -> (r: Self) {
        VMError::Mem(value)
    }
}

impl vstd::std_specs::convert::FromSpecImpl<MemoryError> for VMError {
    open spec fn obeys_from_spec() -> bool {
        true
    }

    open spec fn from_spec(v: MemoryError) -> VMError {
        VMError::Mem(v)
    }
}

/// The machine error for a load error.
pub open spec fn load_error(e: LoadError) -> VMError {
    match e {
        LoadError::Funct => VMError::Ld,
        LoadError::Mem(m) => VMError::Mem(m),
    }
}

/// The machine error for a store error.
pub open spec fn store_error(e: StoreError) -> VMError {
    match e {
        StoreError::Funct => VMError::St,
        StoreError::Mem(m) => VMError::Mem(m),
    }
}

impl From<LoadError> for VMError {
    fn from(value: LoadError) -> (r: Self) {
        match value {
            LoadError::Funct => VMError::Ld,
            LoadError::Mem(m) => VMError::Mem(m),
        }
    }
}

impl vstd::std_specs::convert::FromSpecImpl<LoadError> for VMError {
    open spec fn obeys_from_spec() -> bool {
        true
    }

    open spec fn from_spec(v: LoadError) -> VMError {
        load_error(v)
    }
}

impl From<StoreError> for VMError {
    fn from(value: StoreError) -> (r: Self) {
        match value {
            StoreError::Funct => VMError::St,
            StoreError::Mem(m) => VMError::Mem(m),
        }
    }
}

impl vstd::std_specs::convert::FromSpecImpl<StoreError> for VMError {
    open spec fn obeys_from_spec() -> bool {
        true
    }

    open spec fn from_spec(v: StoreError) -> VMError {
        store_error(v)
    }
}

impl From<IoError> for VMError {
    fn from(_value: IoError) -> (r: Self) {
        VMError::Io
    }
}

impl vstd::std_specs::convert::FromSpecImpl<IoError> for VMError {
    open spec fn obeys_from_spec() -> bool {
        true
    }

    open spec fn from_spec(v: IoError) -> VMError {
        VMError::Io
    }
}

/// What executing `opcode` (not I/O) with function code `funct` on operands
/// `d` at program counter `pc` produces against memory `m`. A call saves `pc`
/// and targets `pc + s2`; a return targets `s2`.
pub open spec fn exec_outcome(opcode: Opcode, d: InsData, funct: u32, pc: u32, m: MemView) -> Result<
    Exec,
    VMError,
> {
    match opcode {
        Opcode::Arith => match alu(d.s1, d.s2, funct) {
            Some(v) => Ok(Exec::Normal(v)),
            None => Err(VMError::Arith),
        },
        Opcode::ArithSkip => match alu(d.s1, d.s2, funct) {
            Some(v) => Ok(
                if v != 0 {
                    Exec::Skip(v)
                } else {
                    Exec::Normal(v)
                },
            ),
            None => Err(VMError::Arith),
        },
        Opcode::ImmUpper => match upper(d.s1, d.s2, funct) {
            Some(v) => Ok(Exec::Normal(v)),
            None => Err(VMError::ImmUpper),
        },
        Opcode::Ld => match load_result(m, d.s1, d.s2, funct) {
            Ok(v) => Ok(Exec::Normal(v)),
            Err(e) => Err(load_error(e)),
        },
        Opcode::St => match store_result(m, d.s1, d.s2, funct) {
            Ok(_) => Ok(Exec::Normal(0)),
            Err(e) => Err(store_error(e)),
        },
        Opcode::Func => if funct != 0 {
            Ok(Exec::Return(d.s2))
        } else {
            Ok(Exec::Call(pc, ((pc + d.s2) % word()) as u32))
        },
        _ => Err(VMError::Compressed),
    }
}

/// The byte address of the word the program counter `pc` points at.
pub open spec fn fetch_addr(pc: u32) -> u32 {
    ((pc * 4) % word()) as u32
}

/// The destination register of word `iw`.
pub open spec fn dest_of(iw: u32) -> u8 {
    if opcode_of(iw) == Opcode::St {
        0
    } else {
        field5(iw, 4) as u8
    }
}

/// The operands of word `iw` read from register file `regs`.
pub open spec fn operands_of(regs: RegsView, iw: u32) -> InsData {
    let op = opcode_of(iw);
    let r1: u8 = if op == Opcode::ImmUpper {
        dest_of(iw)
    } else {
        field5(iw, 14) as u8
    };
    InsData {
        s1: regs.read(r1),
        s2: if is_imm_of(iw) {
            immediate_of(op, iw)
        } else {
            regs.read(field5(iw, 19) as u8)
        },
        s3: regs.read(field5(iw, 24) as u8),
    }
}

/// The register file after outcome `out` of the instruction at `pc` with
/// destination `rd`. The window moves for a call or a return. The program
/// counter becomes one past `pc` (two past after a skip, one past the target
/// after a call or a return). Then the value is written to `rd`, plus one
/// where `rd` is the program counter.
pub open spec fn commit(regs: RegsView, out: Exec, pc: u32, rd: u8) -> RegsView {
    let shifted = match out {
        Exec::Call(_, _) => regs.call(),
        Exec::Return(_) => regs.ret(),
        _ => regs,
    };
    let next: u32 = match out {
        Exec::Normal(_) => pc,
        Exec::Skip(_) => ((pc + 1) % word()) as u32,
        Exec::Call(_, t) => t,
        Exec::Return(t) => t,
    };
    let value: u32 = match out {
        Exec::Normal(v) => v,
        Exec::Skip(v) => v,
        Exec::Call(ret, _) => ret,
        Exec::Return(_) => 0,
    };
    shifted.write(2, ((next + 1) % word()) as u32).write(
        rd,
        if rd == 2 {
            ((value + 1) % word()) as u32
        } else {
            value
        },
    )
}

/// What the instruction word `iw` produces with register file `regs`, memory
/// `m` and streams `io`, before anything is written back.
pub open spec fn step_outcome(regs: RegsView, m: MemView, io: IoView, iw: u32) -> Result<
    Exec,
    VMError,
> {
    let op = opcode_of(iw);
    let funct = funct_of(op, iw, is_imm_of(iw));
    let d = operands_of(regs, iw);
    if op == Opcode::Io {
        if funct != WRITE_BYTE {
            Err(VMError::IoFunct)
        } else {
            match io.io(funct, d).0 {
                Ok(v) => Ok(Exec::Normal(v)),
                Err(_) => Err(VMError::Io),
            }
        }
    } else {
        match exec_outcome(op, d, funct, regs.read(2), m) {
            Ok(Exec::Return(t)) => if regs.depth() <= 2 {
                Err(VMError::Underflow)
            } else {
                Ok(Exec::Return(t))
            },
            other => other,
        }
    }
}

/// One processor core's state: its register file. Memory and streams are
/// handed to each cycle.
pub struct VM {
    registers: Registers,
}

impl View for VM {
    type V = RegsView;

    closed spec fn view(&self) -> RegsView {
        self.registers@
    }
}

impl VM {
    /// A core with all registers zero, two frames deep.
    pub fn new() -> (r: Self)
        ensures
            r@ == Registers::new_view(),
            r@.wf(),
    {
        VM { registers: Registers::new() }
    }

    /// The register file.
    pub fn registers(&self) -> (r: &Registers)
        ensures
            r@ == self@,
    {
        &self.registers
    }

    /// Executes one instruction of class `opcode`, which is not I/O.
    pub fn exec_instruction<M: Memory>(
        opcode: Opcode,
        d: InsData,
        funct: u32,
        pc: u32,
        memory: &mut M,
    ) -> (r: Result<Exec, VMError>)
        requires
            opcode != Opcode::Io,
        ensures
            r == exec_outcome(opcode, d, funct, pc, old(memory).mem()),
            (opcode == Opcode::St && r is Ok) ==> final(memory).mem().stored(
                old(memory).mem(),
                effective(d.s1, d.s2),
                store_bytes(d.s3, funct),
            ),
            !(opcode == Opcode::St && r is Ok) ==> *final(memory) == *old(memory),
    {
        match opcode {
            Opcode::Arith => match arithmetic(d.s1, d.s2, funct) {
                Some(v) => Ok(Exec::Normal(v)),
                None => Err(VMError::Arith),
            },
            Opcode::ArithSkip => match arithmetic(d.s1, d.s2, funct) {
                Some(v) => {
                    if v != 0 {
                        Ok(Exec::Skip(v))
                    } else {
                        Ok(Exec::Normal(v))
                    }
                },
                None => Err(VMError::Arith),
            },
            Opcode::ImmUpper => match imm_upper(d.s1, d.s2, funct) {
                Some(v) => Ok(Exec::Normal(v)),
                None => Err(VMError::ImmUpper),
            },
            Opcode::Ld => match load(d.s1, d.s2, funct, memory) {
                Ok(v) => Ok(Exec::Normal(v)),
                Err(e) => Err(VMError::from(e)),
            },
            Opcode::St => match store(d.s1, d.s2, d.s3, funct, memory) {
                Ok(()) => Ok(Exec::Normal(0)),
                Err(e) => Err(VMError::from(e)),
            },
            Opcode::Func => {
                if funct != 0 {
                    Ok(Exec::Return(d.s2))
                } else {
                    Ok(Exec::Call(pc, pc.wrapping_add(d.s2)))
                }
            },
            _ => Err(VMError::Compressed),
        }
    }

    /// Runs one cycle: fetches the word the program counter points at,
    /// decodes it, executes it, moves the window on a call or a return, and
    /// writes the program counter and the destination. A failed cycle changes
    /// nothing. Returns whether the program asked to exit.
    #[verifier::rlimit(60)]
    pub fn cycle<M: Memory>(&mut self, io: &mut IoHandler, memory: &mut M) -> (r: Result<
        bool,
        VMError,
    >)
        requires
            old(self)@.wf(),
        ensures
            final(self)@.wf(),
            ({
                let regs = old(self)@;
                let pc = regs.read(2);
                match old(memory).mem().read_u32(fetch_addr(pc)) {
                    Err(e) => r == Err::<bool, VMError>(VMError::Mem(e)) && final(self)@ == regs
                        && *final(memory) == *old(memory) && final(io)@ == old(io)@,
                    Ok(iw) => match step_outcome(regs, old(memory).mem(), old(io)@, iw) {
                        Err(e) => r == Err::<bool, VMError>(e) && final(self)@ == regs
                            && *final(memory) == *old(memory) && final(io)@ == old(io)@,
                        Ok(out) => {
                            let op = opcode_of(iw);
                            let d = operands_of(regs, iw);
                            let funct = funct_of(op, iw, is_imm_of(iw));
                            &&& r == Ok::<bool, VMError>(false)
                            &&& final(self)@ == commit(regs, out, pc, dest_of(iw))
                            &&& op == Opcode::St ==> final(memory).mem().stored(
                                old(memory).mem(),
                                effective(d.s1, d.s2),
                                store_bytes(d.s3, funct),
                            )
                            &&& op != Opcode::St ==> *final(memory) == *old(memory)
                            &&& final(io)@ == (if op == Opcode::Io {
                                old(io)@.io(funct, d).1
                            } else {
                                old(io)@
                            })
                        },
                    },
                }
            }),
    {
        let pc = self.registers.read(RegisterSelector::pc());
        let iw = match memory.read_u32(pc.wrapping_mul(4)) {
            Ok(w) => w,
            Err(e) => return Err(VMError::Mem(e)),
        };
        let i = Instruction::from_iword(iw);
        let s1 = self.registers.read(i.rs1);
        let s2 = i.select_source_2(self.registers.read(i.rs2));
        let s3 = self.registers.read(i.rs3);
        let idata = InsData::new(s1, s2, s3);
        assert(idata == operands_of(self@, iw));

        // one less than the next instruction's address: the increment below moves it on
        let mut next_pc = pc;
        let mut exec_result: u32 = 0;
        if i.opcode == Opcode::Io {
            if i.funct != WRITE_BYTE {
                return Err(VMError::IoFunct);
            }
            match io.io(i.funct, idata, memory) {
                Ok(v) => {
                    exec_result = v;
                },
                Err(e) => return Err(VMError::from(e)),
            }
        } else {
            let res = match Self::exec_instruction(i.opcode, idata, i.funct, pc, memory) {
                Ok(x) => x,
                Err(e) => return Err(e),
            };
            match res {
                Exec::Normal(v) => {
                    exec_result = v;
                },
                Exec::Skip(v) => {
                    exec_result = v;
                    next_pc = next_pc.wrapping_add(1);
                },
                Exec::Call(ret, target) => {
                    // the saved value is written after the window moves
                    self.registers.call();
                    exec_result = ret;
                    next_pc = target;
                },
                Exec::Return(target) => {
                    // the operands were read before the window moves
                    if self.registers.depth() <= 2 {
                        return Err(VMError::Underflow);
                    }
                    self.registers.ret();
                    next_pc = target;
                },
            }
        }
        self.registers.write(RegisterSelector::pc(), next_pc.wrapping_add(1));
        if i.rd.inner() == 2 {
            exec_result = exec_result.wrapping_add(1);
        }
        // the destination is written after the program counter, so that
        // arithmetic on it can jump
        self.registers.write(i.rd, exec_result);
        Ok(false)
    }
}

/// A skipping arithmetic instruction whose result is not zero moves the
/// program counter two words on; one whose result is zero moves it one.
pub proof fn lemma_skip(regs: RegsView, d: InsData, funct: u32, pc: u32, m: MemView, rd: u8)
    requires
        regs.wf(),
        rd != 2,
        rd < 32,
        alu(d.s1, d.s2, funct) is Some,
    ensures
        ({
            let v = alu(d.s1, d.s2, funct)->Some_0;
            let out = exec_outcome(Opcode::ArithSkip, d, funct, pc, m)->Ok_0;
            &&& exec_outcome(Opcode::ArithSkip, d, funct, pc, m) is Ok
            &&& v != 0 ==> commit(regs, out, pc, rd).read(2) == ((pc + 2) % word()) as u32
            &&& v == 0 ==> commit(regs, out, pc, rd).read(2) == ((pc + 1) % word()) as u32
        }),
{
}

/// A call saves the program counter, targets `pc + s2`, and deepens the
/// window stack by one frame when committed.
pub proof fn lemma_call(regs: RegsView, d: InsData, pc: u32, m: MemView, rd: u8)
    requires
        regs.wf(),
    ensures
        exec_outcome(Opcode::Func, d, 0, pc, m) == Ok::<Exec, VMError>(
            Exec::Call(pc, ((pc + d.s2) % word()) as u32),
        ),
        commit(regs, Exec::Call(pc, ((pc + d.s2) % word()) as u32), pc, rd).depth() == regs.depth()
            + 1,
{
}

} // verus!
