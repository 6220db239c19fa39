use productive_miner::{
    calculate_pos_reward, calculate_pow_reward, validation_reward, Error, Ledger, Params,
};

fn params() -> Params {
    Params {
        max_difficulty: 1_000_000,
        base_reward: 100,
        block_time: 6000,
        quantum_security_level: 256,
        min_stake_amount: 1000,
        pow_reward_multiplier: 2,
        pos_reward_multiplier: 3,
    }
}

#[test]
fn pow_reward_matches_formula() {
    // (100 * 5 + (256 / 256) * 10) * 2
    assert_eq!(calculate_pow_reward(&params(), 5, 256), Ok(1020));
}

#[test]
fn pos_reward_matches_formula() {
    // (100 * 5 + (256 / 256) * 5) * 3
    assert_eq!(calculate_pos_reward(&params(), 5, 256), Ok(1515));
}

#[test]
fn rewards_match_formula_over_a_grid() {
    let p = params();
    for difficulty in [0u32, 1, 2, 7, 1000, 1_000_000, u32::MAX] {
        for quantum_security in [0u32, 1, 255, 256, 257, 511, 512, 100_000, u32::MAX] {
            let base = 100u128 * difficulty as u128;
            let steps = (quantum_security / 256) as u128;
            assert_eq!(
                calculate_pow_reward(&p, difficulty, quantum_security),
                Ok((base + steps * 10) * 2)
            );
            assert_eq!(
                calculate_pos_reward(&p, difficulty, quantum_security),
                Ok((base + steps * 5) * 3)
            );
        }
    }
}

#[test]
fn quantum_bonus_counts_whole_multiples_only() {
    let p = params();
    assert_eq!(calculate_pow_reward(&p, 1, 255), Ok(200));
    assert_eq!(calculate_pow_reward(&p, 1, 256), Ok(220));
    assert_eq!(calculate_pow_reward(&p, 1, 511), Ok(220));
    assert_eq!(calculate_pow_reward(&p, 1, 512), Ok(240));
    assert_eq!(calculate_pos_reward(&p, 1, 511), Ok(315));
    assert_eq!(calculate_pos_reward(&p, 1, 512), Ok(330));
}

#[test]
fn reward_fails_when_required_level_is_zero() {
    let p = Params { quantum_security_level: 0, ..params() };
    assert_eq!(calculate_pow_reward(&p, 5, 256), Err(Error::ArithmeticOverflow));
    assert_eq!(calculate_pos_reward(&p, 5, 0), Err(Error::ArithmeticOverflow));
}

#[test]
fn reward_fails_on_overflow() {
    let p = Params { base_reward: u128::MAX, ..params() };
    assert_eq!(calculate_pow_reward(&p, 2, 256), Err(Error::ArithmeticOverflow));
    assert_eq!(calculate_pos_reward(&p, 2, 256), Err(Error::ArithmeticOverflow));
    // The product fits, the sum with the bonus does not.
    assert_eq!(calculate_pow_reward(&p, 1, 256), Err(Error::ArithmeticOverflow));
    // The sum fits, the multiple does not.
    assert_eq!(calculate_pow_reward(&p, 1, 0), Err(Error::ArithmeticOverflow));
    let q = Params { pow_reward_multiplier: 1, pos_reward_multiplier: 1, ..p };
    assert_eq!(calculate_pow_reward(&q, 1, 0), Ok(u128::MAX));
    assert_eq!(calculate_pos_reward(&q, 1, 255), Ok(u128::MAX));
}

#[test]
fn reward_fails_on_overflow_of_a_step_even_with_multiplier_zero() {
    let p = Params {
        base_reward: u128::MAX,
        pow_reward_multiplier: 0,
        pos_reward_multiplier: 0,
        ..params()
    };
    assert_eq!(calculate_pow_reward(&p, 2, 0), Err(Error::ArithmeticOverflow));
    assert_eq!(calculate_pos_reward(&p, 2, 0), Err(Error::ArithmeticOverflow));
    assert_eq!(calculate_pow_reward(&p, 1, 0), Ok(0));
}

#[test]
fn validation_reward_is_share_of_stake() {
    // 1515 * 500 / 1000, truncated
    assert_eq!(validation_reward(1515, 500, 1000), Ok(757));
    assert_eq!(validation_reward(1515, 1000, 1000), Ok(1515));
    assert_eq!(validation_reward(1515, 2500, 1000), Ok(3787));
    assert_eq!(validation_reward(1515, 0, 1000), Ok(0));
    assert_eq!(validation_reward(0, 500, 1000), Ok(0));
}

#[test]
fn validation_reward_fails_when_minimum_stake_is_zero() {
    assert_eq!(validation_reward(1515, 500, 0), Err(Error::ArithmeticOverflow));
}

#[test]
fn validation_reward_fails_on_overflow() {
    assert_eq!(validation_reward(u128::MAX, 2, 1000), Err(Error::ArithmeticOverflow));
    assert_eq!(validation_reward(u128::MAX, 1, 1), Ok(u128::MAX));
}

#[test]
fn validation_reward_grows_with_stake() {
    let stakes = [0u128, 1, 499, 500, 501, 999, 1000, 1001, 5000, 1 << 64];
    for pos_reward in [0u128, 1, 7, 1515, 1 << 40] {
        for min_stake in [1u128, 3, 1000, 1 << 70] {
            for pair in stakes.windows(2) {
                let low = validation_reward(pos_reward, pair[0], min_stake).unwrap();
                let high = validation_reward(pos_reward, pair[1], min_stake).unwrap();
                assert!(low <= high);
            }
        }
    }
}

#[test]
fn ledger_calculates_rewards_from_its_parameters() {
    let ledger = Ledger::new(params());
    assert_eq!(ledger.calculate_pow_reward(5, 256), Ok(1020));
    assert_eq!(ledger.calculate_pos_reward(5, 256), Ok(1515));
    let broken = Ledger::new(Params { quantum_security_level: 0, ..params() });
    assert_eq!(broken.calculate_pow_reward(5, 256), Err(Error::ArithmeticOverflow));
}

#[test]
fn ledger_reports_its_parameters() {
    let ledger = Ledger::new(params());
    assert_eq!(ledger.params(), params());
    assert_eq!(ledger.max_difficulty(), 1_000_000);
    assert_eq!(ledger.base_reward(), 100);
    assert_eq!(ledger.block_time(), 6000);
    assert_eq!(ledger.quantum_security_level(), 256);
    assert_eq!(ledger.min_stake_amount(), 1000);
    assert_eq!(ledger.pow_reward_multiplier(), 2);
    assert_eq!(ledger.pos_reward_multiplier(), 3);
}
