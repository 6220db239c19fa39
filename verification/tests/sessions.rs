use productive_miner::{
    AccountId, Config, Error, Event, InsufficientFunds, Ledger, MiningSession, Params, Reservation,
};
use std::collections::HashMap;

/// A currency kept in memory, in 64-bit units.
struct Bank {
    free: HashMap<AccountId, u64>,
    reserved: HashMap<AccountId, u64>,
    calls: u32,
}

impl Bank {
    fn with(accounts: &[(AccountId, u64)]) -> Bank {
        Bank { free: accounts.iter().copied().collect(), reserved: HashMap::new(), calls: 0 }
    }

    fn free(&self, who: AccountId) -> u64 {
        self.free.get(&who).copied().unwrap_or(0)
    }

    fn reserved(&self, who: AccountId) -> u64 {
        self.reserved.get(&who).copied().unwrap_or(0)
    }
}

impl Config for Bank {
    type Balance = u64;

    fn to_balance(&self, amount: u128) -> Option<u64> {
        u64::try_from(amount).ok()
    }

    fn reserve(&mut self, who: AccountId, amount: u64) -> Result<(), InsufficientFunds> {
        self.calls += 1;
        let free = self.free(who);
        if free < amount {
            return Err(InsufficientFunds);
        }
        self.free.insert(who, free - amount);
        let reserved = self.reserved(who);
        self.reserved.insert(who, reserved + amount);
        Ok(())
    }

    fn unreserve(&mut self, who: AccountId, amount: u64) {
        self.calls += 1;
        let reserved = self.reserved(who);
        let moved = amount.min(reserved);
        self.reserved.insert(who, reserved - moved);
        let free = self.free(who);
        self.free.insert(who, free + moved);
    }
}

const WORK: &[u8] = b"Riemann Zero Computation";

fn seeded() -> Ledger {
    let mut ledger = Ledger::new(Params {
        max_difficulty: 1_000_000,
        base_reward: 100,
        block_time: 6000,
        quantum_security_level: 256,
        min_stake_amount: 1000,
        pow_reward_multiplier: 2,
        pos_reward_multiplier: 3,
    });
    ledger.initialize_work_types();
    ledger
}

fn session(start: u64, end: Option<u64>, stake: u128) -> MiningSession {
    MiningSession {
        miner: 3,
        work_type: WORK.to_vec(),
        difficulty: 40,
        start_time: start,
        end_time: end,
        progress: if end.is_some() { 100 } else { 0 },
        active: end.is_none(),
        stake_amount: stake,
    }
}

#[test]
fn start_mining_session_reserves_stake_and_files_session() {
    let mut ledger = seeded();
    let mut bank = Bank::with(&[(3, 5000)]);
    let event = ledger.start_mining_session(&mut bank, 3, WORK.to_vec(), 40, 1500, 20);
    assert_eq!(event, Ok(Event::MiningSessionStarted(3, WORK.to_vec(), 40, 1500)));
    assert_eq!(ledger.session_count(3), 1);
    assert_eq!(ledger.mining_sessions(3, 0), Some(&session(20, None, 1500)));
    assert!(ledger.mining_sessions(3, 1).is_none());
    assert!(ledger.mining_sessions(4, 0).is_none());
    assert_eq!(bank.free(3), 3500);
    assert_eq!(bank.reserved(3), 1500);
    // A session is no stake record.
    assert_eq!(ledger.stakes(3), None);
    assert!(!ledger.validators(3));
}

#[test]
fn session_indices_count_up_per_miner() {
    let mut ledger = seeded();
    let mut bank = Bank::with(&[(3, 50_000), (4, 50_000)]);
    ledger.start_mining_session(&mut bank, 3, WORK.to_vec(), 40, 1000, 20).unwrap();
    ledger.start_mining_session(&mut bank, 4, WORK.to_vec(), 41, 1000, 21).unwrap();
    ledger.start_mining_session(&mut bank, 3, WORK.to_vec(), 40, 2000, 22).unwrap();
    ledger.complete_mining_session(3, 0, 23).unwrap();
    ledger.start_mining_session(&mut bank, 3, WORK.to_vec(), 40, 3000, 24).unwrap();
    assert_eq!(ledger.session_count(3), 3);
    assert_eq!(ledger.session_count(4), 1);
    assert_eq!(ledger.mining_sessions(3, 0), Some(&session(20, Some(23), 1000)));
    assert_eq!(ledger.mining_sessions(3, 1), Some(&session(22, None, 2000)));
    assert_eq!(ledger.mining_sessions(3, 2), Some(&session(24, None, 3000)));
    assert_eq!(ledger.mining_sessions(4, 0).unwrap().difficulty, 41);
    assert_eq!(bank.reserved(3), 6000);
}

#[test]
fn start_with_unregistered_work_type_fails() {
    let mut ledger = seeded();
    let mut bank = Bank::with(&[(3, 5000)]);
    let r = ledger.start_mining_session(&mut bank, 3, b"Collatz Orbits".to_vec(), 40, 1500, 20);
    assert_eq!(r, Err(Error::WorkTypeNotSupported));
    assert_eq!(ledger.session_count(3), 0);
    assert_eq!(bank.calls, 0);
}

#[test]
fn start_with_difficulty_above_maximum_fails() {
    let mut ledger = seeded();
    let mut bank = Bank::with(&[(3, 5000)]);
    let r = ledger.start_mining_session(&mut bank, 3, WORK.to_vec(), 1_000_001, 1500, 20);
    assert_eq!(r, Err(Error::DifficultyTooHigh));
    assert_eq!(ledger.session_count(3), 0);
    assert_eq!(bank.calls, 0);
    assert!(ledger.start_mining_session(&mut bank, 3, WORK.to_vec(), 1_000_000, 1500, 20).is_ok());
}

#[test]
fn start_with_stake_below_minimum_fails() {
    let mut ledger = seeded();
    let mut bank = Bank::with(&[(3, 5000)]);
    let r = ledger.start_mining_session(&mut bank, 3, WORK.to_vec(), 40, 999, 20);
    assert_eq!(r, Err(Error::StakeTooLow));
    assert_eq!(ledger.session_count(3), 0);
    assert_eq!(bank.calls, 0);
    assert_eq!(ledger.check_mining_session(3, &WORK.to_vec(), 40, 999), Err(Error::StakeTooLow));
    assert_eq!(ledger.check_mining_session(3, &WORK.to_vec(), 40, 1000), Ok(()));
}

#[test]
fn start_without_funds_fails() {
    let mut ledger = seeded();
    let mut bank = Bank::with(&[(3, 1499)]);
    let r = ledger.start_mining_session(&mut bank, 3, WORK.to_vec(), 40, 1500, 20);
    assert_eq!(r, Err(Error::InsufficientFunds));
    assert_eq!(ledger.session_count(3), 0);
    assert!(ledger.mining_sessions(3, 0).is_none());
    assert_eq!(bank.free(3), 1499);
    assert_eq!(bank.reserved(3), 0);
}

#[test]
fn start_fails_when_the_currency_cannot_hold_the_stake() {
    let mut ledger = seeded();
    let mut bank = Bank::with(&[(3, u64::MAX)]);
    let r = ledger.start_mining_session(&mut bank, 3, WORK.to_vec(), 40, 1 << 64, 20);
    assert_eq!(r, Err(Error::StakeTooLow));
    assert_eq!(ledger.session_count(3), 0);
    assert_eq!(bank.calls, 0);
}

#[test]
fn record_mining_session_follows_the_reservation() {
    let mut ledger = seeded();
    let refused =
        ledger.record_mining_session(3, WORK.to_vec(), 40, 1500, 20, Reservation::Refused);
    assert_eq!(refused, Err(Error::InsufficientFunds));
    let unrepresentable =
        ledger.record_mining_session(3, WORK.to_vec(), 40, 1500, 20, Reservation::Unrepresentable);
    assert_eq!(unrepresentable, Err(Error::StakeTooLow));
    let rejected = ledger.record_mining_session(
        3,
        b"Collatz Orbits".to_vec(),
        40,
        1500,
        20,
        Reservation::Reserved,
    );
    assert_eq!(rejected, Err(Error::WorkTypeNotSupported));
    assert_eq!(ledger.session_count(3), 0);
    let filed = ledger.record_mining_session(3, WORK.to_vec(), 40, 1500, 20, Reservation::Reserved);
    assert_eq!(filed, Ok(Event::MiningSessionStarted(3, WORK.to_vec(), 40, 1500)));
    assert_eq!(ledger.mining_sessions(3, 0), Some(&session(20, None, 1500)));
}

#[test]
fn complete_mining_session_ends_the_session() {
    let mut ledger = seeded();
    let mut bank = Bank::with(&[(3, 5000)]);
    ledger.start_mining_session(&mut bank, 3, WORK.to_vec(), 40, 1500, 20).unwrap();
    assert_eq!(
        ledger.complete_mining_session(3, 0, 35),
        Ok(Event::MiningSessionCompleted(3, WORK.to_vec(), 40))
    );
    assert_eq!(ledger.mining_sessions(3, 0), Some(&session(20, Some(35), 1500)));
    assert_eq!(ledger.session_count(3), 1);
    // Completion releases nothing.
    assert_eq!(bank.reserved(3), 1500);
    assert_eq!(bank.free(3), 3500);
}

#[test]
fn complete_twice_fails() {
    let mut ledger = seeded();
    let mut bank = Bank::with(&[(3, 5000)]);
    ledger.start_mining_session(&mut bank, 3, WORK.to_vec(), 40, 1500, 20).unwrap();
    ledger.complete_mining_session(3, 0, 35).unwrap();
    assert_eq!(ledger.complete_mining_session(3, 0, 36), Err(Error::MiningSessionNotFound));
    assert_eq!(ledger.mining_sessions(3, 0), Some(&session(20, Some(35), 1500)));
}

#[test]
fn complete_a_session_that_does_not_exist_fails() {
    let mut ledger = seeded();
    let mut bank = Bank::with(&[(3, 5000)]);
    assert_eq!(ledger.complete_mining_session(3, 0, 35), Err(Error::MiningSessionNotFound));
    ledger.start_mining_session(&mut bank, 3, WORK.to_vec(), 40, 1500, 20).unwrap();
    assert_eq!(ledger.complete_mining_session(3, 1, 35), Err(Error::MiningSessionNotFound));
    assert_eq!(ledger.complete_mining_session(3, u32::MAX, 35), Err(Error::MiningSessionNotFound));
    assert_eq!(ledger.complete_mining_session(4, 0, 35), Err(Error::MiningSessionNotFound));
    assert_eq!(ledger.mining_sessions(3, 0), Some(&session(20, None, 1500)));
}
