use vstd::prelude::*;

use crate::arithmetic::word;

verus! {

/// What the immediate-upper unit computes for `funct` on `s1` and `s2`, or
/// `None` where `funct` names no operation. Merge keeps the low 13 bits of
/// `s1` and takes the bits above them from `s2`.
pub open spec fn upper(s1: u32, s2: u32, funct: u32) -> Option<u32> {
    if funct == 0 {
        Some(((s1 + s2) % word()) as u32)
    } else if funct == 1 {
        Some(((s1 - s2) % word()) as u32)
    } else if funct == 4 {
        Some(s1 & s2)
    } else if funct == 5 {
        Some(s1 | s2)
    } else if funct == 6 {
        Some(s1 ^ s2)
    } else if funct == 7 {
        Some((s1 & 0x1fff) | (s2 & 0xffff_e000))
    } else {
        None
    }
}

/// The immediate-upper unit: `upper(s1, s2, funct)`.
pub fn imm_upper(s1: u32, s2: u32, funct: u32) -> (r: Option<u32>)
    ensures
        r == upper(s1, s2, funct),
{
    if funct == 0 {
        Some(s1.wrapping_add(s2))
    } else if funct == 1 {
        Some(s1.wrapping_sub(s2))
    } else if funct == 4 {
        Some(s1 & s2)
    } else if funct == 5 {
        Some(s1 | s2)
    } else if funct == 6 {
        Some(s1 ^ s2)
    } else if funct == 7 {
        Some((s1 & 0x1fff) | (s2 & 0xffff_e000))
    } else {
        None
    }
}

} // verus!
