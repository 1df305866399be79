use raven::registers::{RegisterSelector, Registers};
use raven::utils::{extract_5_bits, ResultInner};

fn r(n: u8) -> RegisterSelector {
    RegisterSelector::new(n).unwrap()
}

#[test]
fn selector_range() {
    assert!(RegisterSelector::new(31).is_some());
    assert!(RegisterSelector::new(32).is_none());
    assert_eq!(r(17).inner(), 17);
    assert_eq!(RegisterSelector::rd(0b1_0110_0000).inner(), 0b10110);
    assert_eq!(RegisterSelector::rs3(0x1f00_0000).inner(), 31);
}

#[test]
fn zero_register_reads_zero() {
    let mut regs = Registers::new();
    for v in [1u32, 0xffff_ffff, 42] {
        regs.write(r(0), v);
        assert_eq!(regs.read(r(0)), 0);
    }
}

#[test]
fn globals_and_pc() {
    let mut regs = Registers::new();
    regs.write(RegisterSelector::pc(), 12);
    assert_eq!(regs.read(r(2)), 12);
    regs.write(r(7), 3);
    assert_eq!(regs.read(r(7)), 3);
}

#[test]
fn windows_shift_on_call() {
    let mut regs = Registers::new();
    regs.write(r(8), 111);
    regs.write(r(16), 222);
    regs.write(r(24), 333);
    regs.write(r(5), 5);
    assert_eq!(regs.depth(), 2);
    regs.call();
    assert_eq!(regs.depth(), 3);
    // the former top frame's shared slots are now seen at 24-31
    assert_eq!(regs.read(r(24)), 111);
    assert_eq!(regs.read(r(8)), 0);
    assert_eq!(regs.read(r(16)), 0);
    assert_eq!(regs.read(r(5)), 5);
    regs.write(r(8), 9);
    regs.ret();
    assert_eq!(regs.depth(), 2);
    assert_eq!(regs.read(r(8)), 111);
    assert_eq!(regs.read(r(16)), 222);
    assert_eq!(regs.read(r(24)), 333);
    assert_eq!(regs.read(r(31)), 0);
}

#[test]
fn call_then_return_restores() {
    let mut regs = Registers::new();
    for n in 1..32u8 {
        regs.write(r(n), n as u32 * 10);
    }
    regs.call();
    regs.ret();
    assert_eq!(regs.depth(), 2);
    for n in 1..32u8 {
        assert_eq!(regs.read(r(n)), n as u32 * 10);
    }
}

#[test]
fn result_inner_takes_either_side() {
    let ok: Result<u32, u32> = Ok(3);
    let err: Result<u32, u32> = Err(4);
    assert_eq!(ok.inner(), 3);
    assert_eq!(err.inner(), 4);
    assert_eq!(extract_5_bits(0b1011_0110_0000, 5), 0b11011);
    assert_eq!(extract_5_bits(0xffff_ffff, 30), 0b11);
}
