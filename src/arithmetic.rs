use vstd::prelude::*;

use crate::utils::{asr, shift_right_arith};

verus! {

/// Two to the 32nd.
pub open spec fn word() -> int {
    0x1_0000_0000
}

/// The signed value of a word read as two's complement.
pub open spec fn sx(x: u32) -> int {
    if x < 0x8000_0000 {
        x as int
    } else {
        x - word()
    }
}

/// A word reinterpreted as a signed 32-bit integer.
pub open spec fn as_signed(x: u32) -> i32 {
    #[verifier::truncate]
    (x as i32)
}

/// A signed 32-bit integer reinterpreted as a word.
pub open spec fn as_unsigned(x: i32) -> u32 {
    #[verifier::truncate]
    (x as u32)
}

/// Reinterpreting keeps the two's complement value.
pub proof fn lemma_as_signed(x: u32)
    ensures
        as_signed(x) as int == sx(x),
        as_unsigned(as_signed(x)) == x,
{
    assert(#[verifier::truncate] (x as i32) as int == if x < 0x8000_0000 {
        x as int
    } else {
        x - 0x1_0000_0000
    }) by (bit_vector);
    assert(#[verifier::truncate] ((#[verifier::truncate] (x as i32)) as u32) == x) by (bit_vector);
}

/// `x` rotated left by `n` places (modulo 32).
pub open spec fn rotl(x: u32, n: u32) -> u32 {
    let k = n % 32;
    if k == 0 {
        x
    } else {
        (x << k) | (x >> (32 - k) as u32)
    }
}

/// `x` rotated right by `n` places (modulo 32).
pub open spec fn rotr(x: u32, n: u32) -> u32 {
    let k = n % 32;
    if k == 0 {
        x
    } else {
        (x >> k) | (x << (32 - k) as u32)
    }
}

/// 1 for true, 0 for false.
pub open spec fn flag(b: bool) -> u32 {
    if b {
        1
    } else {
        0
    }
}

/// What the arithmetic unit computes for `funct` on `s1` and `s2`, or `None`
/// where `funct` names no operation. Sums, differences and products wrap;
/// shift and rotate amounts are taken modulo 32.
pub open spec fn alu(s1: u32, s2: u32, funct: u32) -> Option<u32> {
    if funct == 0 {
        Some(((s1 + s2) % word()) as u32)
    } else if funct == 2 {
        Some(((s2 - s1) % word()) as u32)
    } else if funct == 4 {
        Some(s1 & s2)
    } else if funct == 5 {
        Some(s1 | s2)
    } else if funct == 6 {
        Some(s1 ^ s2)
    } else if funct == 7 {
        Some(!s1)
    } else if funct == 8 {
        Some(((s1 * s2) % word()) as u32)
    } else if funct == 9 {
        Some(((s1 * s2) / word()) as u32)
    } else if funct == 10 {
        Some(((sx(s1) * sx(s2)) % word()) as u32)
    } else if funct == 11 {
        Some((((sx(s1) * sx(s2)) / word()) % word()) as u32)
    } else if funct == 12 {
        Some(
            if s2 == 0 {
                0xffff_ffffu32
            } else {
                (s1 / s2) as u32
            },
        )
    } else if funct == 13 {
        Some(
            if s2 == 0 {
                s1
            } else {
                (s1 % s2) as u32
            },
        )
    } else if funct == 14 {
        Some(
            match as_signed(s1).checked_div(as_signed(s2)) {
                Some(q) => as_unsigned(q),
                None => 0xffff_ffffu32,
            },
        )
    } else if funct == 15 {
        Some(
            match as_signed(s1).checked_rem(as_signed(s2)) {
                Some(q) => as_unsigned(q),
                None => s1,
            },
        )
    } else if funct == 16 || funct == 18 {
        Some(s1 << (s2 % 32))
    } else if funct == 17 {
        Some(s1 >> (s2 % 32))
    } else if funct == 19 {
        Some(asr(s1, s2 % 32))
    } else if funct == 20 {
        Some(rotl(s1, s2))
    } else if funct == 21 {
        Some(rotr(s1, s2))
    } else if funct == 22 {
        Some(flag(s1 == s2))
    } else if funct == 23 {
        Some(flag(s1 != s2))
    } else if funct == 24 {
        Some(flag(s1 > s2))
    } else if funct == 25 {
        Some(flag(s1 >= s2))
    } else if funct == 26 {
        Some(flag(sx(s1) > sx(s2)))
    } else if funct == 27 {
        Some(flag(sx(s1) >= sx(s2)))
    } else if funct == 28 {
        Some(flag(s1 < s2))
    } else if funct == 29 {
        Some(flag(s1 <= s2))
    } else if funct == 30 {
        Some(flag(sx(s1) < sx(s2)))
    } else if funct == 31 {
        Some(flag(sx(s1) <= sx(s2)))
    } else {
        None
    }
}

/// The low word of the signed product equals the low word of the unsigned one.
proof fn lemma_signed_low(s1: u32, s2: u32)
    ensures
        (sx(s1) * sx(s2)) % word() == (s1 * s2) % word(),
{
    let a: int = if s1 >= 0x8000_0000 { 1 } else { 0 };
    let b: int = if s2 >= 0x8000_0000 { 1 } else { 0 };
    assert(sx(s1) == s1 - a * word());
    assert(sx(s2) == s2 - b * word());
    assert(sx(s1) * sx(s2) == s1 * s2 + word() * (a * b * word() - a * s2 - b * s1))
        by (nonlinear_arith)
        requires
            sx(s1) == s1 - a * word(),
            sx(s2) == s2 - b * word(),
    ;
    vstd::arithmetic::div_mod::lemma_mod_multiples_vanish(
        a * b * word() - a * s2 - b * s1,
        s1 * s2,
        word(),
    );
}

/// The high word of the signed 64-bit product.
fn mul_high_signed(s1: u32, s2: u32) -> (r: u32)
    ensures
        r == (((sx(s1) * sx(s2)) / word()) % word()) as u32,
{
    proof {
        lemma_as_signed(s1);
        lemma_as_signed(s2);
    }
    let x: i64 = (#[verifier::truncate] (s1 as i32)) as i64;
    let y: i64 = (#[verifier::truncate] (s2 as i32)) as i64;
    assert(-0x4000_0000_0000_0000 <= x * y <= 0x4000_0000_0000_0000) by (nonlinear_arith)
        requires
            -0x8000_0000 <= x <= 0x8000_0000,
            -0x8000_0000 <= y <= 0x8000_0000,
    ;
    let p: i64 = x * y;
    let q: u64 = #[verifier::truncate] (p as u64);
    assert(#[verifier::truncate] (p as u64) as int == if p >= 0 {
        p as int
    } else {
        p + 0x1_0000_0000_0000_0000
    }) by (bit_vector);
    let h: u64 = q >> 32u64;
    assert(q >> 32u64 == q / 0x1_0000_0000) by (bit_vector);
    assert(h == ((p as int) / word()) % word()) by (nonlinear_arith)
        requires
            h == q / 0x1_0000_0000,
            q == if p >= 0 {
                p as int
            } else {
                p + 0x1_0000_0000_0000_0000
            },
            -0x4000_0000_0000_0000 <= p <= 0x4000_0000_0000_0000,
    ;
    h as u32
}

/// The arithmetic unit: `alu(s1, s2, funct)`.
pub fn arithmetic(s1: u32, s2: u32, funct: u32) -> (r: Option<u32>)
    ensures
        r == alu(s1, s2, funct),
{
    proof {
        lemma_as_signed(s1);
        lemma_as_signed(s2);
    }
    if funct == 0 {
        Some(s1.wrapping_add(s2))
    } else if funct == 2 {
        Some(s2.wrapping_sub(s1))
    } else if funct == 4 {
        Some(s1 & s2)
    } else if funct == 5 {
        Some(s1 | s2)
    } else if funct == 6 {
        Some(s1 ^ s2)
    } else if funct == 7 {
        Some(!s1)
    } else if funct == 8 {
        Some(s1.wrapping_mul(s2))
    } else if funct == 9 {
        assert((s1 as u64) * (s2 as u64) <= u64::MAX) by (nonlinear_arith);
        let p: u64 = (s1 as u64) * (s2 as u64);
        assert(p >> 32u64 == p / 0x1_0000_0000) by (bit_vector);
        assert(p / 0x1_0000_0000 < 0x1_0000_0000);
        Some((p >> 32u64) as u32)
    } else if funct == 10 {
        proof {
            lemma_signed_low(s1, s2);
        }
        Some(s1.wrapping_mul(s2))
    } else if funct == 11 {
        Some(mul_high_signed(s1, s2))
    } else if funct == 12 {
        if s2 == 0 {
            Some(0xffff_ffffu32)
        } else {
            Some(s1 / s2)
        }
    } else if funct == 13 {
        if s2 == 0 {
            Some(s1)
        } else {
            Some(s1 % s2)
        }
    } else if funct == 14 {
        match (#[verifier::truncate] (s1 as i32)).checked_div(#[verifier::truncate] (s2 as i32)) {
            Some(q) => Some(#[verifier::truncate] (q as u32)),
            None => Some(0xffff_ffffu32),
        }
    } else if funct == 15 {
        match (#[verifier::truncate] (s1 as i32)).checked_rem(#[verifier::truncate] (s2 as i32)) {
            Some(q) => Some(#[verifier::truncate] (q as u32)),
            None => {
                proof {
                    lemma_as_signed(s1);
                }
                Some(s1)
            },
        }
    } else if funct == 16 || funct == 18 {
        Some(s1 << (s2 % 32))
    } else if funct == 17 {
        Some(s1 >> (s2 % 32))
    } else if funct == 19 {
        Some(shift_right_arith(s1, s2 % 32))
    } else if funct == 20 {
        let k = s2 % 32;
        if k == 0 {
            Some(s1)
        } else {
            Some((s1 << k) | (s1 >> (32 - k)))
        }
    } else if funct == 21 {
        let k = s2 % 32;
        if k == 0 {
            Some(s1)
        } else {
            Some((s1 >> k) | (s1 << (32 - k)))
        }
    } else if funct == 22 {
        Some(if s1 == s2 { 1 } else { 0 })
    } else if funct == 23 {
        Some(if s1 != s2 { 1 } else { 0 })
    } else if funct == 24 {
        Some(if s1 > s2 { 1 } else { 0 })
    } else if funct == 25 {
        Some(if s1 >= s2 { 1 } else { 0 })
    } else if funct == 26 {
        Some(if (#[verifier::truncate] (s1 as i32)) > (#[verifier::truncate] (s2 as i32)) { 1 } else { 0 })
    } else if funct == 27 {
        Some(if (#[verifier::truncate] (s1 as i32)) >= (#[verifier::truncate] (s2 as i32)) { 1 } else { 0 })
    } else if funct == 28 {
        Some(if s1 < s2 { 1 } else { 0 })
    } else if funct == 29 {
        Some(if s1 <= s2 { 1 } else { 0 })
    } else if funct == 30 {
        Some(if (#[verifier::truncate] (s1 as i32)) < (#[verifier::truncate] (s2 as i32)) { 1 } else { 0 })
    } else if funct == 31 {
        Some(if (#[verifier::truncate] (s1 as i32)) <= (#[verifier::truncate] (s2 as i32)) { 1 } else { 0 })
    } else {
        None
    }
}

} // verus!
