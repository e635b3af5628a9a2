use vstd::prelude::*;

verus! {

/// Parameters of the fee formula.
#[derive(Clone, Copy, Debug, PartialEq, Eq, Structural)]
pub struct FeeParams {
    pub base_fee: u64,
    pub per_byte_fee: u64,
    pub per_weight_fee: u64,
    pub fee_multiplier: u64,
}

/// How the fee multiplier follows block fullness.
#[derive(Clone, Copy, Debug, PartialEq, Eq, Structural)]
pub struct MultiplierConfig {
    /// Target fullness, in percent of the block weight limit.
    pub target_percent: u64,
    /// The multiplier moves by `current / damping` (at least 1) per block.
    pub damping: u64,
    pub min_multiplier: u64,
    pub max_multiplier: u64,
}

/// `baseFee + length*perByteFee + weight*perWeightFee*feeMultiplier`, unbounded.
pub open spec fn fee_formula(p: FeeParams, length: u64, weight: u64) -> int {
    p.base_fee + length * p.per_byte_fee + weight * p.per_weight_fee * p.fee_multiplier
}

pub open spec fn min_int(a: int, b: int) -> int {
    if a <= b { a } else { b }
}

pub open spec fn max_int(a: int, b: int) -> int {
    if a >= b { a } else { b }
}

/// The fee charged: the formula, saturated at the largest balance.
pub open spec fn fee_of(p: FeeParams, length: u64, weight: u64) -> int {
    min_int(fee_formula(p, length, weight), u128::MAX as int)
}

/// Computes the fee of an extrinsic of `length` bytes and `weight` units.
pub fn compute_fee(p: FeeParams, length: u64, weight: u64) -> (r: u128)
    ensures
        r == fee_of(p, length, weight),
{
    proof {
        lemma_product_fits(length, p.per_byte_fee);
        lemma_product_fits(weight, p.per_weight_fee);
    }
    let len_part: u128 = (length as u128) * (p.per_byte_fee as u128);
    let w1: u128 = (weight as u128) * (p.per_weight_fee as u128);
    assert(len_part == length * p.per_byte_fee) by (nonlinear_arith)
        requires len_part == (length as u128) * (p.per_byte_fee as u128);
    proof {
        assert(0 <= length * p.per_byte_fee <= u64::MAX * u64::MAX) by (nonlinear_arith);
        assert(0 <= weight * p.per_weight_fee <= u64::MAX * u64::MAX) by (nonlinear_arith);
        assert(0 <= weight * p.per_weight_fee * p.fee_multiplier) by (nonlinear_arith);
    }
    let base_len: u128 = (p.base_fee as u128) + len_part;
    let weight_part = w1.checked_mul(p.fee_multiplier as u128);
    match weight_part {
        Some(wp) => {
            let total = base_len.checked_add(wp);
            match total {
                Some(t) => t,
                None => u128::MAX,
            }
        },
        None => {
            proof {
                assert(w1 * p.fee_multiplier > u128::MAX);
            }
            u128::MAX
        },
    }
}

proof fn lemma_product_fits(a: u64, b: u64)
    ensures
        0 <= a * b <= u64::MAX * u64::MAX,
        u64::MAX * u64::MAX + u64::MAX <= u128::MAX,
{
    assert(0 <= a * b <= u64::MAX * u64::MAX) by (nonlinear_arith);
}

pub open spec fn clamp(x: int, lo: int, hi: int) -> int {
    if x > hi {
        hi
    } else if x < lo {
        lo
    } else {
        x
    }
}

/// The multiplier for the next block, after a block that used `used` of
/// `limit`: one damped step toward the target fullness, clamped to the bounds.
pub open spec fn next_multiplier_spec(current: u64, used: u64, limit: u64, c: MultiplierConfig) -> int {
    let target = limit * c.target_percent / 100;
    let step = max_int((current / c.damping) as int, 1);
    let moved = if used > target {
        current + step
    } else if used < target {
        max_int(current - step, 0)
    } else {
        current as int
    };
    clamp(moved, c.min_multiplier as int, c.max_multiplier as int)
}

/// Damped, bounded update of the fee multiplier toward the target fullness.
pub fn next_fee_multiplier(current: u64, used: u64, limit: u64, c: MultiplierConfig) -> (r: u64)
    requires
        c.damping > 0,
    ensures
        r == next_multiplier_spec(current, used, limit, c),
        c.min_multiplier <= c.max_multiplier ==> c.min_multiplier <= r <= c.max_multiplier,
{
    proof {
        lemma_product_fits(limit, c.target_percent);
    }
    let prod: u128 = (limit as u128) * (c.target_percent as u128);
    let target: u128 = prod / 100;
    let q = current / c.damping;
    let step: u64 = if q >= 1 { q } else { 1 };
    let moved: u128 = if (used as u128) > target {
        (current as u128) + (step as u128)
    } else if (used as u128) < target {
        if current < step { 0 } else { (current - step) as u128 }
    } else {
        current as u128
    };
    if moved > c.max_multiplier as u128 {
        c.max_multiplier
    } else if moved < c.min_multiplier as u128 {
        c.min_multiplier
    } else {
        moved as u64
    }
}

} // verus!
