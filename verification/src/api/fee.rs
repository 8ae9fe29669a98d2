//! The base fee of the next block, as EIP-1559 has it.

use vstd::prelude::*;

verus! {

/// How many times its target the gas of a block may reach.
pub const ELASTICITY_MULTIPLIER: u64 = 2;

/// The base fee changes by at most one part in this many from a full or empty block.
pub const MAX_CHANGE_DENOMINATOR: u64 = 8;

/// The gas that a block with the limit `gas_limit` is to use.
pub open spec fn gas_target(gas_limit: u64) -> int {
    gas_limit as int / ELASTICITY_MULTIPLIER as int
}

/// The part of the base fee that corresponds to `distance` from the target.
pub open spec fn fee_step(base_fee: u64, distance: int, target: int) -> int {
    base_fee * distance / (target * MAX_CHANGE_DENOMINATOR)
}

/// The base fee after a block: it rises, by one at least, where the block used more gas
/// than its target, and falls where it used less. Without a target it stays.
pub open spec fn base_fee_after(gas_used: u64, gas_limit: u64, base_fee: u64) -> int {
    let target = gas_target(gas_limit);
    if target == 0 || gas_used == target {
        base_fee as int
    } else if gas_used > target {
        let step = fee_step(base_fee, gas_used - target, target);
        if step < 1 {
            base_fee + 1
        } else {
            base_fee + step
        }
    } else {
        base_fee - fee_step(base_fee, target - gas_used, target)
    }
}

/// A fall takes no more than there is.
proof fn falling_step(base_fee: u64, distance: int, target: int)
    requires
        0 < distance <= target,
    ensures
        0 <= fee_step(base_fee, distance, target) <= base_fee,
{
    let b = base_fee as int;
    assert(0 <= b * distance / (target * 8) <= b) by (nonlinear_arith)
        requires
            0 <= b,
            0 < distance <= target,
    ;
}

/// The base fee of the block after one that used `gas_used` of `gas_limit` at
/// `base_fee`. A fee that 64 bits do not hold wraps; no block comes near that.
pub fn next_base_fee(gas_used: u64, gas_limit: u64, base_fee: u64) -> (fee: u64)
    ensures
        fee as int == base_fee_after(gas_used, gas_limit, base_fee) % 0x1_0000_0000_0000_0000,
        base_fee_after(gas_used, gas_limit, base_fee) <= u64::MAX ==> fee == base_fee_after(
            gas_used,
            gas_limit,
            base_fee,
        ),
{
    let target: u64 = gas_limit / ELASTICITY_MULTIPLIER;
    if target == 0 || gas_used == target {
        return base_fee;
    }
    let distance: u64 = if gas_used > target {
        gas_used - target
    } else {
        target - gas_used
    };
    assert(base_fee * distance <= u128::MAX) by (nonlinear_arith)
        requires
            0 <= base_fee <= u64::MAX,
            0 <= distance <= u64::MAX,
    ;
    let step: u128 = base_fee as u128 * distance as u128 / (target as u128
        * MAX_CHANGE_DENOMINATOR as u128);
    assert(step == fee_step(base_fee, distance as int, target as int));
    if gas_used > target {
        let rise: u128 = if step < 1 {
            1
        } else {
            step
        };
        let fee: u128 = (base_fee as u128 + rise % 0x1_0000_0000_0000_0000)
            % 0x1_0000_0000_0000_0000;
        assert(fee == (base_fee + rise) % 0x1_0000_0000_0000_0000);
        fee as u64
    } else {
        proof {
            falling_step(base_fee, distance as int, target as int);
        }
        base_fee - step as u64
    }
}

/// The fee follows demand: it does not fall after a block at or over its target, and
/// does not rise after one at or under it.
pub proof fn fee_follows_demand(gas_used: u64, gas_limit: u64, base_fee: u64)
    ensures
        gas_used >= gas_target(gas_limit) ==> base_fee_after(gas_used, gas_limit, base_fee)
            >= base_fee,
        gas_used <= gas_target(gas_limit) ==> 0 <= base_fee_after(gas_used, gas_limit, base_fee)
            <= base_fee,
{
    let target = gas_target(gas_limit);
    if target > 0 && gas_used < target {
        falling_step(base_fee, target - gas_used, target);
    }
}

proof fn quotient_bounds(a: int, b: int)
    requires
        0 <= a,
        0 < b,
    ensures
        0 <= a / b,
        (a / b) * b <= a < (a / b + 1) * b,
{
    assert((a / b) * b <= a < (a / b + 1) * b && 0 <= a / b) by (nonlinear_arith)
        requires
            0 <= a,
            0 < b,
    ;
}

/// How far the fee moves, as EIP-1559 has it. With half the gas limit as the target, the fee
/// moves by an eighth of itself for every target's worth of gas over or under it, rounded
/// down; after a block over its target it rises by one at least. At the target, and without
/// one, it stays.
pub proof fn fee_moves_by_an_eighth(gas_used: u64, gas_limit: u64, base_fee: u64)
    ensures
        ({
            let target = gas_limit as int / 2;
            let moved = base_fee_after(gas_used, gas_limit, base_fee) - base_fee;
            &&& target == 0 || gas_used == target ==> moved == 0
            &&& target > 0 && gas_used > target ==> {
                let due = base_fee * (gas_used - target);
                &&& moved >= 1
                &&& moved == 1 || moved * (target * 8) <= due
                &&& due < (moved + 1) * (target * 8)
            }
            &&& target > 0 && gas_used < target ==> {
                let due = base_fee * (target - gas_used);
                &&& moved <= 0
                &&& (-moved) * (target * 8) <= due < (1 - moved) * (target * 8)
            }
        }),
{
    let target = gas_limit as int / 2;
    let b = base_fee as int;
    if target > 0 && gas_used > target {
        let d = gas_used - target;
        assert(0 <= b * d) by (nonlinear_arith)
            requires
                0 <= b,
                0 <= d,
        ;
        quotient_bounds(b * d, target * 8);
        let step = (b * d) / (target * 8);
        if step < 1 {
            assert((0int + 1) * (target * 8) <= (1int + 1) * (target * 8)) by (nonlinear_arith)
                requires
                    0 < target,
            ;
        }
    } else if target > 0 && gas_used < target {
        let d = target - gas_used;
        assert(0 <= b * d) by (nonlinear_arith)
            requires
                0 <= b,
                0 <= d,
        ;
        quotient_bounds(b * d, target * 8);
    }
}

} // verus!
