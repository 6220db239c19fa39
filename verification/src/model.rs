//! The ledger as a mathematical value, and each command as a function from
//! the ledger before it to the ledger after it.

use crate::reward::{pos_reward, pow_reward, validation_share};
use crate::types::{
    AccountId, BlockNumber, DiscoveryView, Error, EventView, MiningSessionView, Params,
    Reservation, StakeInfo,
};
use vstd::prelude::*;

verus! {

/// The state of the ledger.
#[verifier::ext_equal]
pub struct LedgerView {
    /// The protocol parameters.
    pub params: Params,
    /// The permitted work types.
    pub work_types: Set<Seq<u8>>,
    /// The discoveries, by identifier.
    pub discoveries: Map<Seq<u8>, DiscoveryView>,
    /// The sessions of each miner, in the order in which they were started:
    /// the index of a session is its position.
    pub sessions: Map<AccountId, Seq<MiningSessionView>>,
    /// The stake of each validator.
    pub stakes: Map<AccountId, StakeInfo>,
    /// What each account has earned by mining. An absent account has earned
    /// nothing.
    pub miner_rewards: Map<AccountId, u128>,
    /// What each account has earned by validating. An absent account has
    /// earned nothing.
    pub validator_rewards: Map<AccountId, u128>,
    /// How many discoveries were submitted.
    pub total_discoveries: u32,
    /// How many discoveries were validated.
    pub total_validations: u32,
    /// The sum of all rewards credited to miners.
    pub total_pow_rewards: u128,
    /// The sum of all rewards credited to validators.
    pub total_pos_rewards: u128,
}

/// What a command does: the event it reports or the error it is rejected
/// with, and the ledger it leaves.
#[verifier::ext_equal]
pub struct Transition {
    pub result: Result<EventView, Error>,
    pub ledger: LedgerView,
}

/// A command, with the answer of the currency where the command asks it.
pub enum Command {
    Submit {
        id: Seq<u8>,
        miner: AccountId,
        work_type: Seq<u8>,
        difficulty: u32,
        result: Seq<u8>,
        proof_of_work: Seq<u8>,
        quantum_security: u32,
        now: BlockNumber,
    },
    StartSession {
        miner: AccountId,
        work_type: Seq<u8>,
        difficulty: u32,
        stake_amount: u128,
        now: BlockNumber,
        reservation: Reservation,
    },
    CompleteSession { miner: AccountId, index: u32, now: BlockNumber },
    Deposit { who: AccountId, amount: u128, reservation: Reservation },
    Withdraw { who: AccountId, amount: u128, released: bool },
    Validate { who: AccountId, id: Seq<u8> },
}

impl LedgerView {
    /// The ledger before any command: nothing registered, stored or earned.
    pub open spec fn empty(params: Params) -> LedgerView {
        LedgerView {
            params,
            work_types: Set::empty(),
            discoveries: Map::empty(),
            sessions: Map::empty(),
            stakes: Map::empty(),
            miner_rewards: Map::empty(),
            validator_rewards: Map::empty(),
            total_discoveries: 0,
            total_validations: 0,
            total_pow_rewards: 0,
            total_pos_rewards: 0,
        }
    }

    /// What `who` has earned by mining.
    pub open spec fn miner_reward(self, who: AccountId) -> u128 {
        if self.miner_rewards.contains_key(who) {
            self.miner_rewards[who]
        } else {
            0
        }
    }

    /// What `who` has earned by validating.
    pub open spec fn validator_reward(self, who: AccountId) -> u128 {
        if self.validator_rewards.contains_key(who) {
            self.validator_rewards[who]
        } else {
            0
        }
    }

    /// The sessions that `miner` has started, oldest first.
    pub open spec fn sessions_of(self, miner: AccountId) -> Seq<MiningSessionView> {
        if self.sessions.contains_key(miner) {
            self.sessions[miner]
        } else {
            Seq::empty()
        }
    }

    /// Whether `who` is a validator: an account is one exactly while it has a
    /// stake record.
    pub open spec fn is_validator(self, who: AccountId) -> bool {
        self.stakes.contains_key(who)
    }

    /// The amount `who` has staked; zero for an account without a record.
    pub open spec fn staked(self, who: AccountId) -> u128 {
        if self.stakes.contains_key(who) {
            self.stakes[who].amount
        } else {
            0
        }
    }

    /// The stake record of `who`, if it has one.
    pub open spec fn stake_of(self, who: AccountId) -> Option<StakeInfo> {
        if self.stakes.contains_key(who) {
            Some(self.stakes[who])
        } else {
            None
        }
    }

    /// The discovery stored under `id`, if there is one.
    pub open spec fn discovery(self, id: Seq<u8>) -> Option<DiscoveryView> {
        if self.discoveries.contains_key(id) {
            Some(self.discoveries[id])
        } else {
            None
        }
    }

    /// The session of `miner` at `index`, if there is one.
    pub open spec fn session(self, miner: AccountId, index: u32) -> Option<MiningSessionView> {
        if index < self.sessions_of(miner).len() {
            Some(self.sessions_of(miner)[index as int])
        } else {
            None
        }
    }

    /// The invariants of the data: where the minimum stake is positive every
    /// stake record holds a positive amount; a session belongs to the miner
    /// it is filed under, and is either running (no progress, no end) or
    /// completed (full progress, an end).
    pub open spec fn inv(self) -> bool {
        &&& self.params.min_stake_amount > 0 ==> forall|who: AccountId|
            self.stakes.contains_key(who) ==> (#[trigger] self.stakes[who]).amount > 0
        &&& forall|miner: AccountId, i: int|
            self.sessions.contains_key(miner) && 0 <= i < self.sessions[miner].len()
                ==> session_inv(miner, #[trigger] self.sessions[miner][i])
    }

    /// The command is rejected: the ledger stays as it is.
    pub open spec fn rejected(self, error: Error) -> Transition {
        Transition { result: Err(error), ledger: self }
    }

    /// The ledger after `label` was registered.
    pub open spec fn register(self, label: Seq<u8>) -> LedgerView {
        LedgerView { work_types: self.work_types.insert(label), ..self }
    }

    /// Why a submission is rejected, if it is. The checks are made in this
    /// order: work type, difficulty, quantum security, then the arithmetic
    /// of the rewards and of the balances they are added to.
    pub open spec fn submit_rejection(
        self,
        miner: AccountId,
        work_type: Seq<u8>,
        difficulty: u32,
        quantum_security: u32,
    ) -> Option<Error> {
        let pow = pow_reward(self.params, difficulty, quantum_security);
        let pos = pos_reward(self.params, difficulty, quantum_security);
        if !self.work_types.contains(work_type) {
            Some(Error::WorkTypeNotSupported)
        } else if difficulty > self.params.max_difficulty {
            Some(Error::DifficultyTooHigh)
        } else if quantum_security < self.params.quantum_security_level {
            Some(Error::InsufficientQuantumSecurity)
        } else if pow is None || pos is None {
            Some(Error::ArithmeticOverflow)
        } else if self.miner_reward(miner) + pow->0 > u128::MAX || self.total_discoveries + 1
            > u32::MAX || self.total_pow_rewards + pow->0 > u128::MAX {
            Some(Error::ArithmeticOverflow)
        } else {
            None
        }
    }

    /// Submitting a discovery under the identifier `id`: the discovery is
    /// stored unverified, in place of any stored under `id` before; its
    /// miner is credited the miner's reward; the counters follow.
    pub open spec fn submit(
        self,
        id: Seq<u8>,
        miner: AccountId,
        work_type: Seq<u8>,
        difficulty: u32,
        result: Seq<u8>,
        proof_of_work: Seq<u8>,
        quantum_security: u32,
        now: BlockNumber,
    ) -> Transition {
        match self.submit_rejection(miner, work_type, difficulty, quantum_security) {
            Some(error) => self.rejected(error),
            None => {
                let pow = pow_reward(self.params, difficulty, quantum_security)->0;
                let pos = pos_reward(self.params, difficulty, quantum_security)->0;
                let discovery = DiscoveryView {
                    miner,
                    work_type,
                    difficulty,
                    result,
                    proof_of_work,
                    quantum_security,
                    timestamp: now,
                    pow_reward: pow,
                    pos_reward: pos,
                    verified: false,
                };
                Transition {
                    result: Ok(
                        EventView::DiscoverySubmitted(id, miner, work_type, difficulty, pow, pos),
                    ),
                    ledger: LedgerView {
                        discoveries: self.discoveries.insert(id, discovery),
                        miner_rewards: self.miner_rewards.insert(
                            miner,
                            (self.miner_reward(miner) + pow) as u128,
                        ),
                        total_discoveries: (self.total_discoveries + 1) as u32,
                        total_pow_rewards: (self.total_pow_rewards + pow) as u128,
                        ..self
                    },
                }
            },
        }
    }

    /// Why a mining session cannot be started, if it cannot, before the
    /// currency is asked. The checks are made in this order: work type,
    /// difficulty, stake, then whether the miner's next index fits 32 bits.
    pub open spec fn start_rejection(
        self,
        miner: AccountId,
        work_type: Seq<u8>,
        difficulty: u32,
        stake_amount: u128,
    ) -> Option<Error> {
        if !self.work_types.contains(work_type) {
            Some(Error::WorkTypeNotSupported)
        } else if difficulty > self.params.max_difficulty {
            Some(Error::DifficultyTooHigh)
        } else if stake_amount < self.params.min_stake_amount {
            Some(Error::StakeTooLow)
        } else if self.sessions_of(miner).len() > u32::MAX {
            Some(Error::ArithmeticOverflow)
        } else {
            None
        }
    }

    /// Starting a mining session, given the currency's answer to the request
    /// to reserve the stake: the session is filed as the miner's next, active
    /// and without progress.
    pub open spec fn start_session(
        self,
        miner: AccountId,
        work_type: Seq<u8>,
        difficulty: u32,
        stake_amount: u128,
        now: BlockNumber,
        reservation: Reservation,
    ) -> Transition {
        match self.start_rejection(miner, work_type, difficulty, stake_amount) {
            Some(error) => self.rejected(error),
            None => match reservation {
                Reservation::Unrepresentable => self.rejected(Error::StakeTooLow),
                Reservation::Refused => self.rejected(Error::InsufficientFunds),
                Reservation::Reserved => {
                    let session = MiningSessionView {
                        miner,
                        work_type,
                        difficulty,
                        start_time: now,
                        end_time: None,
                        progress: 0,
                        active: true,
                        stake_amount,
                    };
                    Transition {
                        result: Ok(
                            EventView::MiningSessionStarted(
                                miner,
                                work_type,
                                difficulty,
                                stake_amount,
                            ),
                        ),
                        ledger: LedgerView {
                            sessions: self.sessions.insert(
                                miner,
                                self.sessions_of(miner).push(session),
                            ),
                            ..self
                        },
                    }
                },
            },
        }
    }

    /// Completing the session of `miner` at `index`: it must exist and be
    /// active; it becomes inactive, fully progressed and ended at `now`.
    pub open spec fn complete_session(
        self,
        miner: AccountId,
        index: u32,
        now: BlockNumber,
    ) -> Transition {
        let sessions = self.sessions_of(miner);
        if index >= sessions.len() || !sessions[index as int].active {
            self.rejected(Error::MiningSessionNotFound)
        } else {
            let session = sessions[index as int];
            let completed = MiningSessionView {
                end_time: Some(now),
                active: false,
                progress: 100,
                ..session
            };
            Transition {
                result: Ok(
                    EventView::MiningSessionCompleted(
                        miner,
                        session.work_type,
                        session.difficulty,
                    ),
                ),
                ledger: LedgerView {
                    sessions: self.sessions.insert(miner, sessions.update(index as int, completed)),
                    ..self
                },
            }
        }
    }

    /// Why a deposit is rejected, if it is, before the currency is asked:
    /// the amount is below the minimum stake, or the stake would exceed 128
    /// bits.
    pub open spec fn deposit_rejection(self, who: AccountId, amount: u128) -> Option<Error> {
        if amount < self.params.min_stake_amount {
            Some(Error::StakeTooLow)
        } else if self.staked(who) + amount > u128::MAX {
            Some(Error::ArithmeticOverflow)
        } else {
            None
        }
    }

    /// Depositing stake, given the currency's answer to the request to
    /// reserve it: the amount is added to the account's stake, which makes
    /// the account a validator; a new record starts without validations or
    /// rewards.
    pub open spec fn deposit(
        self,
        who: AccountId,
        amount: u128,
        reservation: Reservation,
    ) -> Transition {
        match self.deposit_rejection(who, amount) {
            Some(error) => self.rejected(error),
            None => match reservation {
                Reservation::Unrepresentable => self.rejected(Error::StakeTooLow),
                Reservation::Refused => self.rejected(Error::InsufficientFunds),
                Reservation::Reserved => {
                    let record = if self.stakes.contains_key(who) {
                        StakeInfo {
                            amount: (self.stakes[who].amount + amount) as u128,
                            ..self.stakes[who]
                        }
                    } else {
                        StakeInfo { amount, validation_count: 0, total_rewards: 0 }
                    };
                    Transition {
                        result: Ok(EventView::StakeDeposited(who, amount)),
                        ledger: LedgerView { stakes: self.stakes.insert(who, record), ..self },
                    }
                },
            },
        }
    }

    /// Why a withdrawal is rejected, if it is, before the currency is asked:
    /// the account has no stake record, or it has staked less than `amount`.
    pub open spec fn withdraw_rejection(self, who: AccountId, amount: u128) -> Option<Error> {
        if !self.stakes.contains_key(who) {
            Some(Error::NotAValidator)
        } else if amount > self.stakes[who].amount {
            Some(Error::InsufficientStake)
        } else {
            None
        }
    }

    /// Withdrawing stake; `released` says whether the currency's unit could
    /// represent the amount, so that it was released. The amount is taken
    /// from the account's stake; a record that reaches zero is deleted, and
    /// with it the account's standing as a validator.
    pub open spec fn withdraw(self, who: AccountId, amount: u128, released: bool) -> Transition {
        match self.withdraw_rejection(who, amount) {
            Some(error) => self.rejected(error),
            None => if !released {
                self.rejected(Error::InsufficientStake)
            } else {
                let record = StakeInfo {
                    amount: (self.stakes[who].amount - amount) as u128,
                    ..self.stakes[who]
                };
                Transition {
                    result: Ok(EventView::StakeWithdrawn(who, amount)),
                    ledger: LedgerView {
                        stakes: if record.amount == 0 {
                            self.stakes.remove(who)
                        } else {
                            self.stakes.insert(who, record)
                        },
                        ..self
                    },
                }
            },
        }
    }

    /// Why a validation is rejected, if it is. The checks are made in this
    /// order: the caller is a validator, the discovery exists, it is not yet
    /// verified, then the arithmetic of the reward and of the balances and
    /// counters it is added to.
    pub open spec fn validate_rejection(self, who: AccountId, id: Seq<u8>) -> Option<Error> {
        if !self.is_validator(who) {
            Some(Error::NotAValidator)
        } else if !self.discoveries.contains_key(id) {
            Some(Error::DiscoveryNotFound)
        } else if self.discoveries[id].verified {
            Some(Error::ValidationAlreadyCompleted)
        } else {
            let share = validation_share(
                self.discoveries[id].pos_reward,
                self.stakes[who].amount,
                self.params.min_stake_amount,
            );
            if share is None {
                Some(Error::ArithmeticOverflow)
            } else if self.validator_reward(who) + share->0 > u128::MAX || self.total_pos_rewards
                + share->0 > u128::MAX || self.stakes[who].total_rewards + share->0 > u128::MAX
                || self.stakes[who].validation_count + 1 > u32::MAX || self.total_validations + 1
                > u32::MAX {
                Some(Error::ArithmeticOverflow)
            } else {
                None
            }
        }
    }

    /// The reward that `who` earns by validating the discovery `id`, where
    /// the validation is not rejected.
    pub open spec fn validation_reward(self, who: AccountId, id: Seq<u8>) -> u128 {
        validation_share(
            self.discoveries[id].pos_reward,
            self.stakes[who].amount,
            self.params.min_stake_amount,
        )->0
    }

    /// Validating a discovery: the validator is credited its share of the
    /// discovery's validation reward, in its balance and in its stake record;
    /// the discovery becomes verified; the counters follow.
    pub open spec fn validate(self, who: AccountId, id: Seq<u8>) -> Transition {
        match self.validate_rejection(who, id) {
            Some(error) => self.rejected(error),
            None => {
                let reward = self.validation_reward(who, id);
                let record = StakeInfo {
                    amount: self.stakes[who].amount,
                    validation_count: (self.stakes[who].validation_count + 1) as u32,
                    total_rewards: (self.stakes[who].total_rewards + reward) as u128,
                };
                Transition {
                    result: Ok(EventView::ValidationCompleted(who, id, reward)),
                    ledger: LedgerView {
                        discoveries: self.discoveries.insert(
                            id,
                            DiscoveryView { verified: true, ..self.discoveries[id] },
                        ),
                        stakes: self.stakes.insert(who, record),
                        validator_rewards: self.validator_rewards.insert(
                            who,
                            (self.validator_reward(who) + reward) as u128,
                        ),
                        total_validations: (self.total_validations + 1) as u32,
                        total_pos_rewards: (self.total_pos_rewards + reward) as u128,
                        ..self
                    },
                }
            },
        }
    }

    /// What `command` does to this ledger.
    pub open spec fn apply(self, command: Command) -> Transition {
        match command {
            Command::Submit {
                id,
                miner,
                work_type,
                difficulty,
                result,
                proof_of_work,
                quantum_security,
                now,
            } => self.submit(
                id,
                miner,
                work_type,
                difficulty,
                result,
                proof_of_work,
                quantum_security,
                now,
            ),
            Command::StartSession {
                miner,
                work_type,
                difficulty,
                stake_amount,
                now,
                reservation,
            } => self.start_session(miner, work_type, difficulty, stake_amount, now, reservation),
            Command::CompleteSession { miner, index, now } => self.complete_session(
                miner,
                index,
                now,
            ),
            Command::Deposit { who, amount, reservation } => self.deposit(who, amount, reservation),
            Command::Withdraw { who, amount, released } => self.withdraw(who, amount, released),
            Command::Validate { who, id } => self.validate(who, id),
        }
    }
}

/// What holds of every session filed under `miner`.
pub open spec fn session_inv(miner: AccountId, session: MiningSessionView) -> bool {
    &&& session.miner == miner
    &&& session.active ==> session.progress == 0 && session.end_time is None
    &&& !session.active ==> session.progress == 100 && session.end_time is Some
}

} // verus!
