//! The reward formulas.

use crate::types::{Error, Params};
use vstd::prelude::*;

verus! {

/// The bonus a miner earns for each whole multiple of the required
/// quantum-security level.
pub const POW_QUANTUM_BONUS: u128 = 10;

/// The bonus offered to the validator for each whole multiple of the required
/// quantum-security level.
pub const POS_QUANTUM_BONUS: u128 = 5;

/// `base_reward * difficulty + (quantum_security / required_level) * bonus`,
/// the reward before the multiplier is applied. The quotient is truncated.
pub open spec fn reward_base(
    base_reward: u128,
    difficulty: u32,
    quantum_security: u32,
    required_level: u32,
    bonus: u128,
) -> int {
    base_reward * difficulty + (quantum_security as int / required_level as int) * bonus
}

/// The reward in 128-bit unsigned arithmetic: `reward_base(..) * multiplier`,
/// or `None` where the required level is zero or a step of the computation
/// exceeds 128 bits.
pub open spec fn reward(
    base_reward: u128,
    difficulty: u32,
    quantum_security: u32,
    required_level: u32,
    bonus: u128,
    multiplier: u32,
) -> Option<u128> {
    let base = reward_base(base_reward, difficulty, quantum_security, required_level, bonus);
    if required_level == 0 || base > u128::MAX || base * multiplier > u128::MAX {
        None
    } else {
        Some((base * multiplier) as u128)
    }
}

/// The reward credited to the miner of a discovery.
pub open spec fn pow_reward(params: Params, difficulty: u32, quantum_security: u32) -> Option<u128> {
    reward(
        params.base_reward,
        difficulty,
        quantum_security,
        params.quantum_security_level,
        POW_QUANTUM_BONUS,
        params.pow_reward_multiplier,
    )
}

/// The reward a discovery offers for its validation.
pub open spec fn pos_reward(params: Params, difficulty: u32, quantum_security: u32) -> Option<u128> {
    reward(
        params.base_reward,
        difficulty,
        quantum_security,
        params.quantum_security_level,
        POS_QUANTUM_BONUS,
        params.pos_reward_multiplier,
    )
}

/// The share of a discovery's validation reward that a validator earns:
/// `pos_reward * stake / min_stake`, truncated, or `None` where the minimum
/// stake is zero or the product exceeds 128 bits.
pub open spec fn validation_share(pos_reward: u128, stake: u128, min_stake: u128) -> Option<u128> {
    if min_stake == 0 || pos_reward * stake > u128::MAX {
        None
    } else {
        Some(((pos_reward * stake) / (min_stake as int)) as u128)
    }
}

fn checked_reward(
    base_reward: u128,
    difficulty: u32,
    quantum_security: u32,
    required_level: u32,
    bonus: u128,
    multiplier: u32,
) -> (r: Option<u128>)
    ensures
        r == reward(base_reward, difficulty, quantum_security, required_level, bonus, multiplier),
{
    if required_level == 0 {
        return None;
    }
    let steps: u32 = quantum_security / required_level;
    let scaled = match base_reward.checked_mul(difficulty as u128) {
        Some(v) => v,
        None => { return None; },
    };
    let extra = match (steps as u128).checked_mul(bonus) {
        Some(v) => v,
        None => { return None; },
    };
    let base = match scaled.checked_add(extra) {
        Some(v) => v,
        None => { return None; },
    };
    base.checked_mul(multiplier as u128)
}

/// Computes the reward of the miner of a discovery.
pub fn calculate_pow_reward(params: &Params, difficulty: u32, quantum_security: u32) -> (r: Result<
    u128,
    Error,
>)
    ensures
        r == match pow_reward(*params, difficulty, quantum_security) {
            Some(v) => Ok::<u128, Error>(v),
            None => Err(Error::ArithmeticOverflow),
        },
{
    match checked_reward(
        params.base_reward,
        difficulty,
        quantum_security,
        params.quantum_security_level,
        POW_QUANTUM_BONUS,
        params.pow_reward_multiplier,
    ) {
        Some(v) => Ok(v),
        None => Err(Error::ArithmeticOverflow),
    }
}

/// Computes the reward a discovery offers for its validation.
pub fn calculate_pos_reward(params: &Params, difficulty: u32, quantum_security: u32) -> (r: Result<
    u128,
    Error,
>)
    ensures
        r == match pos_reward(*params, difficulty, quantum_security) {
            Some(v) => Ok::<u128, Error>(v),
            None => Err(Error::ArithmeticOverflow),
        },
{
    match checked_reward(
        params.base_reward,
        difficulty,
        quantum_security,
        params.quantum_security_level,
        POS_QUANTUM_BONUS,
        params.pos_reward_multiplier,
    ) {
        Some(v) => Ok(v),
        None => Err(Error::ArithmeticOverflow),
    }
}

/// Computes the share of a validation reward that a stake earns.
pub fn validation_reward(pos_reward: u128, stake: u128, min_stake: u128) -> (r: Result<u128, Error>)
    ensures
        r == match validation_share(pos_reward, stake, min_stake) {
            Some(v) => Ok::<u128, Error>(v),
            None => Err(Error::ArithmeticOverflow),
        },
{
    if min_stake == 0 {
        return Err(Error::ArithmeticOverflow);
    }
    match pos_reward.checked_mul(stake) {
        Some(product) => Ok(product / min_stake),
        None => Err(Error::ArithmeticOverflow),
    }
}

/// A larger stake never earns less: where the share of the larger stake has
/// a value, so has that of the smaller, and it is no greater.
pub proof fn validation_share_monotonic(pos_reward: u128, s1: u128, s2: u128, min_stake: u128)
    requires
        s1 <= s2,
        validation_share(pos_reward, s2, min_stake) is Some,
    ensures
        validation_share(pos_reward, s1, min_stake) is Some,
        validation_share(pos_reward, s1, min_stake)->0 <= validation_share(
            pos_reward,
            s2,
            min_stake,
        )->0,
{
    let p: int = pos_reward as int;
    assert(p * s1 <= p * s2) by (nonlinear_arith)
        requires
            0 <= p,
            s1 <= s2,
    ;
    assert(0 <= p * s1) by (nonlinear_arith)
        requires
            0 <= p,
            0 <= s1,
    ;
    vstd::arithmetic::div_mod::lemma_div_is_ordered(p * s1, p * s2, min_stake as int);
    vstd::arithmetic::div_mod::lemma_div_pos_is_pos(p * s1, min_stake as int);
    vstd::arithmetic::div_mod::lemma_div_is_ordered_by_denominator(p * s2, 1, min_stake as int);
}

} // verus!
