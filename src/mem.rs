use vstd::prelude::*;

use crate::arithmetic::word;
use crate::memory::{MemView, Memory, MemoryError};

verus! {

/// Why a load failed.
#[derive(Debug, Clone, Copy, PartialEq, Eq, Structural)]
pub enum LoadError {
    Mem(MemoryError),
    /// The function code names no load.
    Funct,
}

impl From<MemoryError> for LoadError {
    fn from(value: MemoryError) -> (r: Self) {
        LoadError::Mem(value)
    }
}

impl vstd::std_specs::convert::FromSpecImpl<MemoryError> for LoadError {
    open spec fn obeys_from_spec() -> bool {
        true
    }

    open spec fn from_spec(v: MemoryError) -> LoadError {
        LoadError::Mem(v)
    }
}

/// Why a store failed.
#[derive(Debug, Clone, Copy, PartialEq, Eq, Structural)]
pub enum StoreError {
    Mem(MemoryError),
    /// The function code names no store.
    Funct,
}

impl From<MemoryError> for StoreError {
    fn from(value: MemoryError) -> (r: Self) {
        StoreError::Mem(value)
    }
}

impl vstd::std_specs::convert::FromSpecImpl<MemoryError> for StoreError {
    open spec fn obeys_from_spec() -> bool {
        true
    }

    open spec fn from_spec(v: MemoryError) -> StoreError {
        StoreError::Mem(v)
    }
}

/// The effective address `s1 + s2`, wrapping.
pub open spec fn effective(s1: u32, s2: u32) -> u32 {
    ((s1 + s2) % word()) as u32
}

/// A halfword sign-extended to a word.
pub open spec fn sext16(h: u16) -> u32 {
    if h < 0x8000 {
        h as u32
    } else {
        (h + 0xffff_0000) as u32
    }
}

/// A byte sign-extended to a word.
pub open spec fn sext8(b: u8) -> u32 {
    if b < 0x80 {
        b as u32
    } else {
        (b + 0xffff_ff00) as u32
    }
}

/// What a load with `funct` at `s1 + s2` returns from memory `m`: a word, an
/// unsigned or a signed halfword, an unsigned or a signed byte.
pub open spec fn load_result(m: MemView, s1: u32, s2: u32, funct: u32) -> Result<u32, LoadError> {
    let addr = effective(s1, s2);
    if funct == 0 {
        match m.read_u32(addr) {
            Ok(v) => Ok(v),
            Err(e) => Err(LoadError::Mem(e)),
        }
    } else if funct == 1 || funct == 2 {
        match m.read_u16(addr) {
            Ok(v) => Ok(
                if funct == 1 {
                    v as u32
                } else {
                    sext16(v)
                },
            ),
            Err(e) => Err(LoadError::Mem(e)),
        }
    } else if funct == 3 || funct == 4 {
        match (m.cell)(addr) {
            Ok(v) => Ok(
                if funct == 3 {
                    v as u32
                } else {
                    sext8(v)
                },
            ),
            Err(e) => Err(LoadError::Mem(e)),
        }
    } else {
        Err(LoadError::Funct)
    }
}

/// The load unit: `load_result` on the memory's view.
pub fn load<M: Memory>(s1: u32, s2: u32, funct: u32, mem: &M) -> (r: Result<u32, LoadError>)
    ensures
        r == load_result(mem.mem(), s1, s2, funct),
{
    let addr = s1.wrapping_add(s2);
    if funct == 0 {
        match mem.read_u32(addr) {
            Ok(v) => Ok(v),
            Err(e) => Err(LoadError::Mem(e)),
        }
    } else if funct == 1 || funct == 2 {
        match mem.read_u16(addr) {
            Ok(v) => {
                if funct == 1 {
                    Ok(v as u32)
                } else if v < 0x8000 {
                    Ok(v as u32)
                } else {
                    Ok(v as u32 + 0xffff_0000)
                }
            },
            Err(e) => Err(LoadError::Mem(e)),
        }
    } else if funct == 3 || funct == 4 {
        match mem.read_u8(addr) {
            Ok(v) => {
                if funct == 3 {
                    Ok(v as u32)
                } else if v < 0x80 {
                    Ok(v as u32)
                } else {
                    Ok(v as u32 + 0xffff_ff00)
                }
            },
            Err(e) => Err(LoadError::Mem(e)),
        }
    } else {
        Err(LoadError::Funct)
    }
}

/// Whether a store with `funct` at `s1 + s2` succeeds on memory `m`: a word,
/// a halfword or a byte.
pub open spec fn store_result(m: MemView, s1: u32, s2: u32, funct: u32) -> Result<(), StoreError> {
    let addr = effective(s1, s2);
    if funct > 2 {
        Err(StoreError::Funct)
    } else {
        let width: nat = if funct == 0 {
            4
        } else if funct == 1 {
            2
        } else {
            1
        };
        match m.write_check(addr, width) {
            Ok(_) => Ok(()),
            Err(e) => Err(StoreError::Mem(e)),
        }
    }
}

/// The bytes a store with `funct` writes from `s3`: all four, the low two, or
/// the low one, least significant first.
pub open spec fn store_bytes(s3: u32, funct: u32) -> Seq<u8> {
    if funct == 0 {
        crate::memory::bytes32(s3)
    } else if funct == 1 {
        crate::memory::bytes16(s3 as u16)
    } else {
        crate::memory::bytes8(s3 as u8)
    }
}

/// The store unit: checks `funct` before it touches memory, then writes the
/// low bytes of `s3` at `s1 + s2`.
pub fn store<M: Memory>(s1: u32, s2: u32, s3: u32, funct: u32, mem: &mut M) -> (r: Result<
    (),
    StoreError,
>)
    ensures
        r == store_result(old(mem).mem(), s1, s2, funct),
        r is Err ==> *final(mem) == *old(mem),
        r is Ok ==> final(mem).mem().stored(old(mem).mem(), effective(s1, s2), store_bytes(s3, funct)),
{
    let addr = s1.wrapping_add(s2);
    let res = if funct == 0 {
        mem.write_u32(addr, s3)
    } else if funct == 1 {
        mem.write_u16(addr, s3 as u16)
    } else if funct == 2 {
        mem.write_u8(addr, s3 as u8)
    } else {
        return Err(StoreError::Funct);
    };
    match res {
        Ok(()) => Ok(()),
        Err(e) => Err(StoreError::Mem(e)),
    }
}

} // verus!
