use vstd::prelude::*;

verus! {

/// The 5-bit field of `i` that starts at bit `idx`.
pub open spec fn field5(i: u32, idx: u32) -> u32 {
    (i >> idx) & 0x1f
}

/// Arithmetic (sign-filling) right shift of a 32-bit word by `n` places.
pub open spec fn asr(x: u32, n: u32) -> u32 {
    if x & 0x8000_0000 == 0 {
        x >> n
    } else {
        !((!x) >> n)
    }
}

/// Extracts the 5-bit field of `i` that starts at bit `idx`.
pub fn extract_5_bits(i: u32, idx: u32) -> (r: u32)
    requires
        idx < 32,
    ensures
        r == field5(i, idx),
        r < 32,
{
    proof {
        assert((i & (0x1fu32 << idx)) >> idx == (i >> idx) & 0x1f) by (bit_vector)
            requires
                idx < 32,
        ;
        assert((i >> idx) & 0x1f < 32) by (bit_vector);
    }
    (i & (0x1fu32 << idx)) >> idx
}

/// Arithmetic right shift: the vacated high bits are copies of bit 31.
pub fn shift_right_arith(x: u32, n: u32) -> (r: u32)
    requires
        n < 32,
    ensures
        r == asr(x, n),
{
    if x & 0x8000_0000 == 0 {
        x >> n
    } else {
        !((!x) >> n)
    }
}

/// Collapses a result whose two sides have the same type.
pub trait ResultInner<T>: Sized {
    spec fn inner_spec(self) -> T;

    fn inner(self) -> (r: T)
        ensures
            r == self.inner_spec(),
    ;
}

impl<T> ResultInner<T> for Result<T, T> {
    /// The value on whichever side it stands.
    open spec fn inner_spec(self) -> T {
        match self {
            Ok(t) => t,
            Err(e) => e,
        }
    }

    fn inner(self) -> (r: T) {
        match self {
            Ok(t) => t,
            Err(e) => e,
        }
    }
}

} // verus!
