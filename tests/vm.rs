use raven::arithmetic::arithmetic;
use raven::immupper::imm_upper;
use raven::instruction::{InsData, Opcode};
use raven::io::{IoError, IoHandler};
use raven::mem::{load, store, LoadError, StoreError};
use raven::memory::{MainMemory, Memory, MemoryError};
use raven::registers::RegisterSelector;
use raven::vm::{Exec, VMError, VM};

#[test]
fn sanity() {}

#[test]
fn test_exec_isolated() {
    let mut mem = vec![0, 1, 2, 3, 4, 5, 6, 7];

    let idata = InsData::new(0, 4, 0x80);
    assert_eq!(VM::exec_instruction(Opcode::Arith, idata, 0, 0, &mut mem), Ok(Exec::Normal(4)));
    assert_eq!(VM::exec_instruction(Opcode::ArithSkip, idata, 0, 0, &mut mem), Ok(Exec::Skip(4)));

    assert_eq!(VM::exec_instruction(Opcode::Ld, idata, 0, 0, &mut mem), Ok(Exec::Normal(0x0706_0504)));
    assert_eq!(VM::exec_instruction(Opcode::St, idata, 2, 0, &mut mem), Ok(Exec::Normal(0)));
    assert_eq!(mem[4], 0x80);
    assert_eq!(VM::exec_instruction(Opcode::Ld, idata, 0, 0, &mut mem), Ok(Exec::Normal(0x0706_0580)));

    assert_eq!(VM::exec_instruction(Opcode::Func, idata, 0, 0, &mut mem), Ok(Exec::Call(0, 4)));
}

#[test]
fn mem_instructions() {
    let mut mem = MainMemory::new(vec![]).unwrap();

    store(100, 4, 1234, 0, &mut mem).unwrap();
    assert_eq!(load(104, 0, 0, &mut mem), Ok(1234));
    assert_eq!(load(108, -4i32 as u32, 0, &mut mem), Ok(1234));
    assert_eq!(load(104, 0, 3, &mut mem), Ok(1234 & 0xff));
    assert_eq!(load(104, 0, 4, &mut mem), Ok(-46i32 as u32));
}

#[test]
fn load_store_errors() {
    let mut mem: Vec<u8> = vec![0xff, 0x80, 0, 0];
    assert_eq!(load(0, 0, 5, &mem), Err(LoadError::Funct));
    assert_eq!(load(1, 0, 0, &mem), Err(LoadError::Mem(MemoryError::Unaligned)));
    assert_eq!(load(4, 0, 3, &mem), Err(LoadError::Mem(MemoryError::OutOfBounds)));
    assert_eq!(load(0, 0, 1, &mem), Ok(0x80ff));
    assert_eq!(load(0, 0, 2, &mem), Ok(0xffff_80ff));
    assert_eq!(load(0, 0, 4, &mem), Ok(0xffff_ffff));
    assert_eq!(store(0, 0, 1, 3, &mut mem), Err(StoreError::Funct));
    assert_eq!(store(0, 2, 0xaabb_ccdd, 1, &mut mem), Ok(()));
    assert_eq!(mem, vec![0xff, 0x80, 0xdd, 0xcc]);
    assert_eq!(store(2, 0, 1, 0, &mut mem), Err(StoreError::Mem(MemoryError::Unaligned)));
    assert_eq!(store(8, 0, 1, 2, &mut mem), Err(StoreError::Mem(MemoryError::OutOfBounds)));
}

#[test]
fn alu_operations() {
    assert_eq!(arithmetic(u32::MAX, 2, 0), Some(1));
    assert_eq!(arithmetic(3, 10, 2), Some(7));
    assert_eq!(arithmetic(10, 3, 2), Some(0xffff_fff9));
    assert_eq!(arithmetic(0b1100, 0b1010, 4), Some(0b1000));
    assert_eq!(arithmetic(0b1100, 0b1010, 5), Some(0b1110));
    assert_eq!(arithmetic(0b1100, 0b1010, 6), Some(0b0110));
    assert_eq!(arithmetic(0, 99, 7), Some(u32::MAX));
    assert_eq!(arithmetic(0x1_0000, 0x1_0000, 8), Some(0));
    assert_eq!(arithmetic(0x1_0000, 0x1_0000, 9), Some(1));
    assert_eq!(arithmetic(-3i32 as u32, 5, 10), Some(-15i32 as u32));
    assert_eq!(arithmetic(-3i32 as u32, 5, 11), Some(u32::MAX));
    assert_eq!(arithmetic(0x4000_0000, 4, 11), Some(1));
    assert_eq!(arithmetic(-0x4000_0000i32 as u32, 4, 11), Some(u32::MAX));
    assert_eq!(arithmetic(i32::MIN as u32, i32::MIN as u32, 11), Some(0x4000_0000));
    assert_eq!(arithmetic(7, 2, 12), Some(3));
    assert_eq!(arithmetic(7, 0, 12), Some(u32::MAX));
    assert_eq!(arithmetic(7, 2, 13), Some(1));
    assert_eq!(arithmetic(7, 0, 13), Some(7));
    assert_eq!(arithmetic(-7i32 as u32, 2, 14), Some(-3i32 as u32));
    assert_eq!(arithmetic(7, 0, 14), Some(u32::MAX));
    assert_eq!(arithmetic(i32::MIN as u32, -1i32 as u32, 14), Some(u32::MAX));
    assert_eq!(arithmetic(-7i32 as u32, 2, 15), Some(-1i32 as u32));
    assert_eq!(arithmetic(-7i32 as u32, 0, 15), Some(-7i32 as u32));
    assert_eq!(arithmetic(1, 4, 16), Some(16));
    assert_eq!(arithmetic(1, 33, 16), Some(2));
    assert_eq!(arithmetic(0x8000_0000, 4, 17), Some(0x0800_0000));
    assert_eq!(arithmetic(3, 1, 18), Some(6));
    assert_eq!(arithmetic(0x8000_0000, 4, 19), Some(0xf800_0000));
    assert_eq!(arithmetic(0x4000_0000, 4, 19), Some(0x0400_0000));
    assert_eq!(arithmetic(0x8000_0001, 1, 20), Some(3));
    assert_eq!(arithmetic(0x8000_0001, 1, 21), Some(0xc000_0000));
    assert_eq!(arithmetic(5, 32, 20), Some(5));
    assert_eq!(arithmetic(5, 5, 22), Some(1));
    assert_eq!(arithmetic(5, 5, 23), Some(0));
    assert_eq!(arithmetic(u32::MAX, 1, 24), Some(1));
    assert_eq!(arithmetic(1, 1, 25), Some(1));
    assert_eq!(arithmetic(u32::MAX, 1, 26), Some(0));
    assert_eq!(arithmetic(u32::MAX, u32::MAX, 27), Some(1));
    assert_eq!(arithmetic(1, u32::MAX, 28), Some(1));
    assert_eq!(arithmetic(2, 1, 29), Some(0));
    assert_eq!(arithmetic(u32::MAX, 1, 30), Some(1));
    assert_eq!(arithmetic(1, u32::MAX, 31), Some(0));
    assert_eq!(arithmetic(1, 1, 1), None);
    assert_eq!(arithmetic(1, 1, 3), None);
    assert_eq!(arithmetic(1, 1, 32), None);
}

#[test]
fn imm_upper_operations() {
    assert_eq!(imm_upper(u32::MAX, 1, 0), Some(0));
    assert_eq!(imm_upper(0, 1, 1), Some(u32::MAX));
    assert_eq!(imm_upper(0b110, 0b011, 4), Some(0b010));
    assert_eq!(imm_upper(0b110, 0b011, 5), Some(0b111));
    assert_eq!(imm_upper(0b110, 0b011, 6), Some(0b101));
    assert_eq!(imm_upper(0xffff_ffff, 0x1234_e000, 7), Some(0x1234_ffff));
    assert_eq!(imm_upper(0x0000_0abc, 0xabcd_e000, 7), Some(0xabcd_eabc));
    assert_eq!(imm_upper(1, 1, 2), None);
    assert_eq!(imm_upper(1, 1, 8), None);
}

#[test]
fn exec_errors() {
    let mut mem: Vec<u8> = vec![0; 8];
    let d = InsData::new(1, 2, 3);
    assert_eq!(VM::exec_instruction(Opcode::Arith, d, 1, 0, &mut mem), Err(VMError::Arith));
    assert_eq!(VM::exec_instruction(Opcode::ArithSkip, d, 40, 0, &mut mem), Err(VMError::Arith));
    assert_eq!(VM::exec_instruction(Opcode::ImmUpper, d, 3, 0, &mut mem), Err(VMError::ImmUpper));
    assert_eq!(VM::exec_instruction(Opcode::Ld, d, 9, 0, &mut mem), Err(VMError::Ld));
    assert_eq!(VM::exec_instruction(Opcode::St, d, 9, 0, &mut mem), Err(VMError::St));
    assert_eq!(
        VM::exec_instruction(Opcode::Ld, d, 0, 0, &mut mem),
        Err(VMError::Mem(MemoryError::Unaligned))
    );
    assert_eq!(VM::exec_instruction(Opcode::Comp, d, 0, 0, &mut mem), Err(VMError::Compressed));
    assert_eq!(VM::exec_instruction(Opcode::Func, d, 1, 0, &mut mem), Ok(Exec::Return(2)));
    assert_eq!(
        VM::exec_instruction(Opcode::ArithSkip, InsData::new(3, 3, 0), 2, 0, &mut mem),
        Ok(Exec::Normal(0))
    );
    assert_eq!(VM::exec_instruction(Opcode::Func, d, 0, u32::MAX, &mut mem), Ok(Exec::Call(u32::MAX, 1)));
}

// instruction words
fn arith_imm(rd: u32, rs1: u32, funct: u32, imm: u32) -> u32 {
    0b1001 | (rd << 4) | (funct << 9) | (rs1 << 14) | (imm << 19)
}

fn skip_imm(rd: u32, rs1: u32, funct: u32, imm: u32) -> u32 {
    0b1101 | (rd << 4) | (funct << 9) | (rs1 << 14) | (imm << 19)
}

fn write_byte(rs1: u32, fd: u32) -> u32 {
    0b1011 | (rs1 << 14) | (fd << 19) | (0b010 << 29)
}

fn image(words: &[u32]) -> Vec<u8> {
    let mut v = Vec::new();
    for w in words {
        v.extend_from_slice(&w.to_le_bytes());
    }
    v
}

fn pc(vm: &VM) -> u32 {
    vm.registers().read(RegisterSelector::pc())
}

#[test]
fn cycle_runs_a_program() {
    let words = [arith_imm(8, 0, 0, 65), write_byte(8, 1), write_byte(8, 2)];
    let mut mem = MainMemory::new(image(&words)).unwrap();
    let mut io = IoHandler::new();
    let mut vm = VM::new();
    assert_eq!(vm.cycle(&mut io, &mut mem), Ok(false));
    assert_eq!(vm.registers().read(RegisterSelector::new(8).unwrap()), 65);
    assert_eq!(pc(&vm), 1);
    assert_eq!(vm.cycle(&mut io, &mut mem), Ok(false));
    assert_eq!(vm.cycle(&mut io, &mut mem), Ok(false));
    assert_eq!(io.stdout().iter().copied().collect::<Vec<u8>>(), vec![65]);
    assert_eq!(io.stderr().iter().copied().collect::<Vec<u8>>(), vec![65]);
    assert_eq!(pc(&vm), 3);
    // the word past the image was never written
    assert_eq!(vm.cycle(&mut io, &mut mem), Err(VMError::Mem(MemoryError::Uninit)));
    assert_eq!(pc(&vm), 3);
}

#[test]
fn skip_moves_two() {
    // r8 = 0 + 1, nonzero: skip
    let mut mem = MainMemory::new(image(&[skip_imm(8, 0, 0, 1), 0, 0, 0])).unwrap();
    let mut io = IoHandler::new();
    let mut vm = VM::new();
    vm.cycle(&mut io, &mut mem).unwrap();
    assert_eq!(pc(&vm), 2);
    // r9 = 0 + 0, zero: no skip
    let mut mem = MainMemory::new(image(&[skip_imm(9, 0, 0, 0), 0])).unwrap();
    let mut vm = VM::new();
    vm.cycle(&mut io, &mut mem).unwrap();
    assert_eq!(pc(&vm), 1);
}

#[test]
fn call_and_return() {
    // call at 0 with displacement 4 into r8; at 5 return to the saved value
    let call = 0b0101 | (8 << 4) | (4 << 13);
    let ret = 0b0100 | (1 << 9) | (8 << 19);
    let mut words = vec![call, 0, 0, 0, 0, ret];
    words.push(0);
    let mut mem = MainMemory::new(image(&words)).unwrap();
    let mut io = IoHandler::new();
    let mut vm = VM::new();
    vm.cycle(&mut io, &mut mem).unwrap();
    assert_eq!(vm.registers().depth(), 3);
    assert_eq!(pc(&vm), 5);
    assert_eq!(vm.registers().read(RegisterSelector::new(8).unwrap()), 0);
    vm.cycle(&mut io, &mut mem).unwrap();
    assert_eq!(vm.registers().depth(), 2);
    assert_eq!(pc(&vm), 1);
}

#[test]
fn return_at_the_floor_fails() {
    let ret = 0b0100 | (1 << 9);
    let mut mem = MainMemory::new(image(&[ret])).unwrap();
    let mut io = IoHandler::new();
    let mut vm = VM::new();
    assert_eq!(vm.cycle(&mut io, &mut mem), Err(VMError::Underflow));
    assert_eq!(vm.registers().depth(), 2);
    assert_eq!(pc(&vm), 0);
}

#[test]
fn io_errors() {
    let mut io = IoHandler::new();
    let mut mem: Vec<u8> = vec![];
    assert_eq!(io.io(64, InsData::new(1, 3, 0), &mut mem), Err(IoError::BadFd));
    assert_eq!(io.io(64, InsData::new(1, 40, 0), &mut mem), Err(IoError::NotFound));
    assert_eq!(io.io(65, InsData::new(1, 1, 0), &mut mem), Err(IoError::InvalidParams));
    assert_eq!(io.io(64, InsData::new(0x141, 1, 0), &mut mem), Ok(0));
    assert_eq!(io.stdout().iter().copied().collect::<Vec<u8>>(), vec![0x41]);

    let mut mmem = MainMemory::new(image(&[write_byte(0, 3)])).unwrap();
    let mut vm = VM::new();
    assert_eq!(vm.cycle(&mut io, &mut mmem), Err(VMError::Io));
    let bad_funct = 0b1011 | (1 << 19) | (0b011 << 29);
    let mut mmem = MainMemory::new(image(&[bad_funct])).unwrap();
    assert_eq!(vm.cycle(&mut io, &mut mmem), Err(VMError::IoFunct));
    let comp = 0u32;
    let mut mmem = MainMemory::new(image(&[comp])).unwrap();
    assert_eq!(vm.cycle(&mut io, &mut mmem), Err(VMError::Compressed));
    assert_eq!(pc(&vm), 0);
}

#[test]
fn writing_the_pc_jumps() {
    // r2 = r0 + 7: the program counter becomes 8 (the written value plus one)
    let mut words = vec![arith_imm(2, 0, 0, 7)];
    words.extend([0u32; 8]);
    let mut mem = MainMemory::new(image(&words)).unwrap();
    let mut io = IoHandler::new();
    let mut vm = VM::new();
    vm.cycle(&mut io, &mut mem).unwrap();
    assert_eq!(pc(&vm), 8);
    let _ = mem.read_u32(0);
}
