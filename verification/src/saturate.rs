//! Bringing the result of a sum into the range of the type that holds it.
//! Sums are taken exactly; a result that does not fit is replaced by the
//! nearest value that does.
use vstd::prelude::*;

verus! {

/// The 32-bit signed value nearest to `x`.
pub open spec fn clamp_i32(x: int) -> int {
    if x < i32::MIN {
        i32::MIN as int
    } else if x > i32::MAX {
        i32::MAX as int
    } else {
        x
    }
}

/// The 32-bit unsigned value nearest to a natural number.
pub open spec fn clamp_u32(x: nat) -> nat {
    if x > u32::MAX {
        u32::MAX as nat
    } else {
        x
    }
}

/// Brings a number into the range of 32 signed bits.
pub fn narrow_i32(x: i128) -> (r: i32)
    ensures
        r == clamp_i32(x as int),
{
    if x < -2147483648i128 {
        -2147483648i32
    } else if x > 2147483647i128 {
        2147483647i32
    } else {
        x as i32
    }
}

/// Brings a number into the range of 32 unsigned bits.
pub fn narrow_u32(x: u64) -> (r: u32)
    ensures
        r == clamp_u32(x as nat),
{
    if x > 4294967295u64 {
        4294967295u32
    } else {
        x as u32
    }
}

} // verus!
