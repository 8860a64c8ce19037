use vstd::prelude::*;

verus! {

/// Denominator of basis-point rates.
pub const BPS_DENOMINATOR: u128 = 10000;

/// `amount` scaled by a basis-point `rate`, rounded down.
pub open spec fn bps_of(amount: u64, rate: int) -> int {
    (amount as int * rate) / 10000
}

/// Integer division rounding toward zero.
pub open spec fn trunc_div(a: int, d: int) -> int {
    if a >= 0 {
        a / d
    } else {
        -((-a) / d)
    }
}

/// Whether an integer can be stored in a `u64`.
pub open spec fn fits_u64(x: int) -> bool {
    0 <= x <= u64::MAX
}

/// `amount * rate / 10000`, rounded down, in a type wide enough to hold it.
pub fn bps_amount(amount: u64, rate: u16) -> (r: u128)
    ensures
        r as int == bps_of(amount, rate as int),
        r as int <= amount as int * 7,
{
    let a = amount as u128;
    let b = rate as u128;
    proof {
        assert(a * b <= 0xFFFF_FFFF_FFFF_FFFFu128 * 0xFFFF) by (nonlinear_arith)
            requires
                a <= 0xFFFF_FFFF_FFFF_FFFFu128,
                b <= 0xFFFF,
        ;
        assert((a * b) / 10000 <= a * 7) by (nonlinear_arith)
            requires
                b <= 0xFFFF,
                a >= 0,
        ;
    }
    a * b / BPS_DENOMINATOR
}

} // verus!
