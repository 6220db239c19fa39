//! The ledger: the tables it keeps and the commands that change them.

use crate::digest::{discovery_digest, encodable, hash_discovery};
use crate::genesis::{genesis_label, genesis_labels, genesis_work_types, GENESIS_WORK_TYPES};
use crate::model::{LedgerView, Transition};
use crate::registry::WorkTypes;
use crate::reward::{calculate_pos_reward, calculate_pow_reward, validation_reward};
use crate::store::DiscoveryTable;
use crate::types::{
    AccountId, BlockNumber, Config, Discovery, DiscoveryId, Error, Event, MiningSession,
    MiningSessionView, Params, Reservation, StakeInfo,
};
use std::collections::HashMap;
use vstd::prelude::*;

verus! {

broadcast use vstd::std_specs::hash::group_hash_axioms;

/// The ledger. It is changed by its commands only; each either applies in
/// full or is rejected and changes nothing.
pub struct Ledger {
    params: Params,
    work_types: WorkTypes,
    discoveries: DiscoveryTable,
    sessions: HashMap<AccountId, Vec<MiningSession>>,
    stakes: HashMap<AccountId, StakeInfo>,
    miner_rewards: HashMap<AccountId, u128>,
    validator_rewards: HashMap<AccountId, u128>,
    total_discoveries: u32,
    total_validations: u32,
    total_pow_rewards: u128,
    total_pos_rewards: u128,
}

/// The sessions of a list as mathematical values.
pub open spec fn session_views(list: Seq<MiningSession>) -> Seq<MiningSessionView> {
    list.map_values(|s: MiningSession| s@)
}

spec fn session_lists(m: Map<AccountId, Vec<MiningSession>>) -> Map<
    AccountId,
    Seq<MiningSessionView>,
> {
    Map::new(|k: AccountId| m.contains_key(k), |k: AccountId| session_views(m[k]@))
}

/// Whether a command's result `r` and the ledger `after` it are what the
/// transition `expected` says.
pub open spec fn agrees(r: Result<Event, Error>, after: LedgerView, expected: Transition) -> bool {
    &&& after == expected.ledger
    &&& match expected.result {
        Ok(event) => r matches Ok(e) && e@ == event,
        Err(error) => r matches Err(e) && e == error,
    }
}

impl View for Ledger {
    type V = LedgerView;

    closed spec fn view(&self) -> LedgerView {
        LedgerView {
            params: self.params,
            work_types: self.work_types@,
            discoveries: self.discoveries@,
            sessions: session_lists(self.sessions@),
            stakes: self.stakes@,
            miner_rewards: self.miner_rewards@,
            validator_rewards: self.validator_rewards@,
            total_discoveries: self.total_discoveries,
            total_validations: self.total_validations,
            total_pow_rewards: self.total_pow_rewards,
            total_pos_rewards: self.total_pos_rewards,
        }
    }
}

fn reserve<C: Config>(currency: &mut C, who: AccountId, amount: u128) -> Reservation {
    match currency.to_balance(amount) {
        None => Reservation::Unrepresentable,
        Some(balance) => match currency.reserve(who, balance) {
            Ok(_) => Reservation::Reserved,
            Err(_) => Reservation::Refused,
        },
    }
}

fn release<C: Config>(currency: &mut C, who: AccountId, amount: u128) -> bool {
    match currency.to_balance(amount) {
        None => false,
        Some(balance) => {
            currency.unreserve(who, balance);
            true
        },
    }
}

impl Ledger {
    /// The ledger's invariant: its tables are consistent and its state meets
    /// the invariants of the data.
    pub closed spec fn wf(&self) -> bool {
        &&& self.discoveries.wf()
        &&& self@.inv()
    }

    /// A ledger with the given parameters and nothing else.
    pub fn new(params: Params) -> (r: Ledger)
        ensures
            r.wf(),
            r@ == LedgerView::empty(params),
    {
        Ledger {
            params,
            work_types: WorkTypes::new(),
            discoveries: DiscoveryTable::new(),
            sessions: HashMap::new(),
            stakes: HashMap::new(),
            miner_rewards: HashMap::new(),
            validator_rewards: HashMap::new(),
            total_discoveries: 0,
            total_validations: 0,
            total_pow_rewards: 0,
            total_pos_rewards: 0,
        }
    }

    /// The protocol parameters.
    pub fn params(&self) -> (r: Params)
        ensures
            r == self@.params,
    {
        self.params
    }

    /// The largest difficulty a discovery or a mining session may claim.
    pub fn max_difficulty(&self) -> (r: u32)
        ensures
            r == self@.params.max_difficulty,
    {
        self.params.max_difficulty
    }

    /// The reward per unit of difficulty.
    pub fn base_reward(&self) -> (r: u128)
        ensures
            r == self@.params.base_reward,
    {
        self.params.base_reward
    }

    /// The target time between two blocks, in milliseconds.
    pub fn block_time(&self) -> (r: u32)
        ensures
            r == self@.params.block_time,
    {
        self.params.block_time
    }

    /// The quantum-security level every discovery must reach.
    pub fn quantum_security_level(&self) -> (r: u32)
        ensures
            r == self@.params.quantum_security_level,
    {
        self.params.quantum_security_level
    }

    /// The least amount that may be deposited as stake.
    pub fn min_stake_amount(&self) -> (r: u128)
        ensures
            r == self@.params.min_stake_amount,
    {
        self.params.min_stake_amount
    }

    /// The factor applied to the reward of the miner.
    pub fn pow_reward_multiplier(&self) -> (r: u32)
        ensures
            r == self@.params.pow_reward_multiplier,
    {
        self.params.pow_reward_multiplier
    }

    /// The factor applied to the reward offered for validation.
    pub fn pos_reward_multiplier(&self) -> (r: u32)
        ensures
            r == self@.params.pos_reward_multiplier,
    {
        self.params.pos_reward_multiplier
    }

    /// How many discoveries were submitted.
    pub fn total_discoveries(&self) -> (r: u32)
        ensures
            r == self@.total_discoveries,
    {
        self.total_discoveries
    }

    /// How many discoveries were validated.
    pub fn total_validations(&self) -> (r: u32)
        ensures
            r == self@.total_validations,
    {
        self.total_validations
    }

    /// The sum of all rewards credited to miners.
    pub fn total_pow_rewards(&self) -> (r: u128)
        ensures
            r == self@.total_pow_rewards,
    {
        self.total_pow_rewards
    }

    /// The sum of all rewards credited to validators.
    pub fn total_pos_rewards(&self) -> (r: u128)
        ensures
            r == self@.total_pos_rewards,
    {
        self.total_pos_rewards
    }

    /// What `who` has earned by mining.
    pub fn miner_rewards(&self, who: AccountId) -> (r: u128)
        ensures
            r == self@.miner_reward(who),
    {
        match self.miner_rewards.get(&who) {
            Some(balance) => *balance,
            None => 0,
        }
    }

    /// What `who` has earned by validating.
    pub fn validator_rewards(&self, who: AccountId) -> (r: u128)
        ensures
            r == self@.validator_reward(who),
    {
        match self.validator_rewards.get(&who) {
            Some(balance) => *balance,
            None => 0,
        }
    }

    /// The stake record of `who`, if it has one.
    pub fn stakes(&self, who: AccountId) -> (r: Option<StakeInfo>)
        ensures
            r == self@.stake_of(who),
    {
        match self.stakes.get(&who) {
            Some(record) => Some(*record),
            None => None,
        }
    }

    /// Whether `who` is a validator.
    pub fn validators(&self, who: AccountId) -> (r: bool)
        ensures
            r == self@.is_validator(who),
    {
        self.stakes.get(&who).is_some()
    }

    /// The discovery stored under `id`, if there is one.
    pub fn discoveries(&self, id: &DiscoveryId) -> (r: Option<&Discovery>)
        requires
            self.wf(),
        ensures
            match r {
                Some(d) => self@.discovery(id@) == Some(d@),
                None => self@.discovery(id@) is None,
            },
    {
        self.discoveries.get(id)
    }

    /// How many sessions `miner` has started.
    pub fn session_count(&self, miner: AccountId) -> (r: usize)
        ensures
            r == self@.sessions_of(miner).len(),
    {
        match self.sessions.get(&miner) {
            Some(list) => list.len(),
            None => 0,
        }
    }

    /// The session of `miner` at `index`, if there is one.
    pub fn mining_sessions(&self, miner: AccountId, index: u32) -> (r: Option<&MiningSession>)
        ensures
            match r {
                Some(s) => self@.session(miner, index) == Some(s@),
                None => self@.session(miner, index) is None,
            },
    {
        match self.sessions.get(&miner) {
            Some(list) => {
                if (index as usize) < list.len() {
                    Some(&list[index as usize])
                } else {
                    None
                }
            },
            None => None,
        }
    }

    /// Whether `label` is a permitted work type.
    pub fn work_types(&self, label: &Vec<u8>) -> (r: bool)
        ensures
            r == self@.work_types.contains(label@),
    {
        self.work_types.contains(label)
    }

    /// Registers `label` as a permitted work type. Registering a label again
    /// changes nothing.
    pub fn register_work_type(&mut self, label: Vec<u8>)
        requires
            old(self).wf(),
        ensures
            final(self).wf(),
            final(self)@ == old(self)@.register(label@),
    {
        self.work_types.register(label);
        proof {
            assert(self@ =~~= old(self)@.register(label@));
        }
    }

    /// The reward of the miner of a discovery.
    pub fn calculate_pow_reward(&self, difficulty: u32, quantum_security: u32) -> (r: Result<
        u128,
        Error,
    >)
        ensures
            r == match crate::reward::pow_reward(self@.params, difficulty, quantum_security) {
                Some(v) => Ok::<u128, Error>(v),
                None => Err(Error::ArithmeticOverflow),
            },
    {
        calculate_pow_reward(&self.params, difficulty, quantum_security)
    }

    /// The reward a discovery offers for its validation.
    pub fn calculate_pos_reward(&self, difficulty: u32, quantum_security: u32) -> (r: Result<
        u128,
        Error,
    >)
        ensures
            r == match crate::reward::pos_reward(self@.params, difficulty, quantum_security) {
                Some(v) => Ok::<u128, Error>(v),
                None => Err(Error::ArithmeticOverflow),
            },
    {
        calculate_pos_reward(&self.params, difficulty, quantum_security)
    }

    /// Checks a submission without making it: the two rewards it would earn,
    /// or why it would be rejected.
    pub fn check_submission(
        &self,
        miner: AccountId,
        work_type: &Vec<u8>,
        difficulty: u32,
        quantum_security: u32,
    ) -> (r: Result<(u128, u128), Error>)
        ensures
            match self@.submit_rejection(miner, work_type@, difficulty, quantum_security) {
                Some(error) => r == Err::<(u128, u128), Error>(error),
                None => r == Ok::<(u128, u128), Error>(
                    (
                        crate::reward::pow_reward(self@.params, difficulty, quantum_security)->0,
                        crate::reward::pos_reward(self@.params, difficulty, quantum_security)->0,
                    ),
                ),
            },
    {
        if !self.work_types.contains(work_type) {
            return Err(Error::WorkTypeNotSupported);
        }
        if difficulty > self.params.max_difficulty {
            return Err(Error::DifficultyTooHigh);
        }
        if quantum_security < self.params.quantum_security_level {
            return Err(Error::InsufficientQuantumSecurity);
        }
        let pow = match calculate_pow_reward(&self.params, difficulty, quantum_security) {
            Ok(v) => v,
            Err(e) => { return Err(e); },
        };
        let pos = match calculate_pos_reward(&self.params, difficulty, quantum_security) {
            Ok(v) => v,
            Err(e) => { return Err(e); },
        };
        if self.miner_rewards(miner).checked_add(pow).is_none() {
            return Err(Error::ArithmeticOverflow);
        }
        if self.total_discoveries.checked_add(1).is_none() {
            return Err(Error::ArithmeticOverflow);
        }
        if self.total_pow_rewards.checked_add(pow).is_none() {
            return Err(Error::ArithmeticOverflow);
        }
        Ok((pow, pos))
    }

    /// Stores a discovery under the identifier `id`, which the caller has
    /// derived from the other arguments.
    pub fn record_discovery(
        &mut self,
        id: DiscoveryId,
        miner: AccountId,
        work_type: Vec<u8>,
        difficulty: u32,
        result: Vec<u8>,
        proof_of_work: Vec<u8>,
        quantum_security: u32,
        now: BlockNumber,
    ) -> (r: Result<Event, Error>)
        requires
            old(self).wf(),
        ensures
            final(self).wf(),
            agrees(
                r,
                final(self)@,
                old(self)@.submit(
                    id@,
                    miner,
                    work_type@,
                    difficulty,
                    result@,
                    proof_of_work@,
                    quantum_security,
                    now,
                ),
            ),
    {
        let (pow, pos) = match self.check_submission(
            miner,
            &work_type,
            difficulty,
            quantum_security,
        ) {
            Ok(rewards) => rewards,
            Err(e) => { return Err(e); },
        };
        let label = work_type.clone();
        let discovery = Discovery {
            miner,
            work_type,
            difficulty,
            result,
            proof_of_work,
            quantum_security,
            timestamp: now,
            pow_reward: pow,
            pos_reward: pos,
            verified: false,
        };
        let balance = self.miner_rewards(miner);
        self.discoveries.insert(id, discovery);
        self.miner_rewards.insert(miner, balance + pow);
        self.total_discoveries = self.total_discoveries + 1;
        self.total_pow_rewards = self.total_pow_rewards + pow;
        proof {
            assert(self@ =~~= old(self)@.submit(
                id@,
                miner,
                work_type@,
                difficulty,
                result@,
                proof_of_work@,
                quantum_security,
                now,
            ).ledger);
        }
        Ok(Event::DiscoverySubmitted(id, miner, label, difficulty, pow, pos))
    }

    /// Submits a discovery of `miner`, made at `now`. Its identifier is the
    /// digest of the arguments.
    pub fn submit_discovery(
        &mut self,
        miner: AccountId,
        work_type: Vec<u8>,
        difficulty: u32,
        result: Vec<u8>,
        proof_of_work: Vec<u8>,
        quantum_security: u32,
        now: BlockNumber,
    ) -> (r: Result<Event, Error>)
        requires
            old(self).wf(),
            old(self)@.submit_rejection(miner, work_type@, difficulty, quantum_security) is None
                ==> encodable(work_type@, result@, proof_of_work@),
        ensures
            final(self).wf(),
            agrees(
                r,
                final(self)@,
                old(self)@.submit(
                    discovery_digest(
                        miner,
                        work_type@,
                        difficulty,
                        result@,
                        proof_of_work@,
                        quantum_security,
                        now,
                    ),
                    miner,
                    work_type@,
                    difficulty,
                    result@,
                    proof_of_work@,
                    quantum_security,
                    now,
                ),
            ),
            !old(self)@.work_types.contains(work_type@) ==> r == Err::<Event, Error>(
                Error::WorkTypeNotSupported,
            ) && final(self)@ == old(self)@,
    {
        if let Err(e) = self.check_submission(miner, &work_type, difficulty, quantum_security) {
            return Err(e);
        }
        let id = hash_discovery(
            miner,
            &work_type,
            difficulty,
            &result,
            &proof_of_work,
            quantum_security,
            now,
        );
        self.record_discovery(
            id,
            miner,
            work_type,
            difficulty,
            result,
            proof_of_work,
            quantum_security,
            now,
        )
    }
}

impl Ledger {
    /// Checks the start of a mining session without making it.
    pub fn check_mining_session(
        &self,
        miner: AccountId,
        work_type: &Vec<u8>,
        difficulty: u32,
        stake_amount: u128,
    ) -> (r: Result<(), Error>)
        ensures
            match self@.start_rejection(miner, work_type@, difficulty, stake_amount) {
                Some(error) => r == Err::<(), Error>(error),
                None => r is Ok,
            },
    {
        if !self.work_types.contains(work_type) {
            return Err(Error::WorkTypeNotSupported);
        }
        if difficulty > self.params.max_difficulty {
            return Err(Error::DifficultyTooHigh);
        }
        if stake_amount < self.params.min_stake_amount {
            return Err(Error::StakeTooLow);
        }
        if self.session_count(miner) > 0xFFFF_FFFF {
            return Err(Error::ArithmeticOverflow);
        }
        Ok(())
    }

    /// Files a mining session of `miner`, started at `now`, given the
    /// currency's answer to the request to reserve `stake_amount`.
    pub fn record_mining_session(
        &mut self,
        miner: AccountId,
        work_type: Vec<u8>,
        difficulty: u32,
        stake_amount: u128,
        now: BlockNumber,
        reservation: Reservation,
    ) -> (r: Result<Event, Error>)
        requires
            old(self).wf(),
        ensures
            final(self).wf(),
            agrees(
                r,
                final(self)@,
                old(self)@.start_session(
                    miner,
                    work_type@,
                    difficulty,
                    stake_amount,
                    now,
                    reservation,
                ),
            ),
    {
        if let Err(e) = self.check_mining_session(miner, &work_type, difficulty, stake_amount) {
            return Err(e);
        }
        match reservation {
            Reservation::Unrepresentable => { return Err(Error::StakeTooLow); },
            Reservation::Refused => { return Err(Error::InsufficientFunds); },
            Reservation::Reserved => {},
        }
        let label = work_type.clone();
        let session = MiningSession {
            miner,
            work_type,
            difficulty,
            start_time: now,
            end_time: None,
            progress: 0,
            active: true,
            stake_amount,
        };
        let mut list = match self.sessions.remove(&miner) {
            Some(list) => list,
            None => Vec::new(),
        };
        list.push(session);
        self.sessions.insert(miner, list);
        proof {
            let expected = old(self)@.start_session(
                miner,
                work_type@,
                difficulty,
                stake_amount,
                now,
                reservation,
            ).ledger;
            assert(session_views(list@) =~= old(self)@.sessions_of(miner).push(session@));
            assert(self@ =~~= expected);
        }
        Ok(Event::MiningSessionStarted(miner, label, difficulty, stake_amount))
    }

    /// Starts a mining session of `miner` at `now`, backed by `stake_amount`,
    /// which is reserved in `currency`. The currency is asked only where the
    /// session is not rejected before.
    pub fn start_mining_session<C: Config>(
        &mut self,
        currency: &mut C,
        miner: AccountId,
        work_type: Vec<u8>,
        difficulty: u32,
        stake_amount: u128,
        now: BlockNumber,
    ) -> (r: Result<Event, Error>)
        requires
            old(self).wf(),
        ensures
            final(self).wf(),
            exists|reservation: Reservation|
                agrees(
                    r,
                    final(self)@,
                    #[trigger] old(self)@.start_session(
                        miner,
                        work_type@,
                        difficulty,
                        stake_amount,
                        now,
                        reservation,
                    ),
                ),
            old(self)@.start_rejection(miner, work_type@, difficulty, stake_amount) matches Some(
                error,
            ) ==> r == Err::<Event, Error>(error) && final(self)@ == old(self)@,
    {
        if let Err(e) = self.check_mining_session(miner, &work_type, difficulty, stake_amount) {
            assert(agrees(
                Err(e),
                self@,
                old(self)@.start_session(
                    miner,
                    work_type@,
                    difficulty,
                    stake_amount,
                    now,
                    Reservation::Reserved,
                ),
            ));
            return Err(e);
        }
        let reservation = reserve(currency, miner, stake_amount);
        self.record_mining_session(miner, work_type, difficulty, stake_amount, now, reservation)
    }

    /// Completes the session of `miner` at `index`, at `now`.
    pub fn complete_mining_session(
        &mut self,
        miner: AccountId,
        index: u32,
        now: BlockNumber,
    ) -> (r: Result<Event, Error>)
        requires
            old(self).wf(),
        ensures
            final(self).wf(),
            agrees(r, final(self)@, old(self)@.complete_session(miner, index, now)),
    {
        let at = index as usize;
        let running = match self.sessions.get(&miner) {
            Some(list) => at < list.len() && list[at].active,
            None => false,
        };
        if !running {
            return Err(Error::MiningSessionNotFound);
        }
        let mut list = match self.sessions.remove(&miner) {
            Some(list) => list,
            None => Vec::new(),
        };
        let ghost before = list@;
        let label = list[at].work_type.clone();
        let difficulty = list[at].difficulty;
        list[at].end_time = Some(now);
        list[at].active = false;
        list[at].progress = 100;
        self.sessions.insert(miner, list);
        proof {
            let expected = old(self)@.complete_session(miner, index, now).ledger;
            let completed = MiningSessionView {
                end_time: Some(now),
                active: false,
                progress: 100,
                ..before[at as int]@
            };
            assert(session_views(list@) =~= session_views(before).update(at as int, completed));
            assert(self@ =~~= expected);
        }
        Ok(Event::MiningSessionCompleted(miner, label, difficulty))
    }

    /// Checks a deposit without making it.
    pub fn check_deposit(&self, who: AccountId, amount: u128) -> (r: Result<(), Error>)
        ensures
            match self@.deposit_rejection(who, amount) {
                Some(error) => r == Err::<(), Error>(error),
                None => r is Ok,
            },
    {
        if amount < self.params.min_stake_amount {
            return Err(Error::StakeTooLow);
        }
        let staked = match self.stakes.get(&who) {
            Some(record) => record.amount,
            None => 0,
        };
        if staked.checked_add(amount).is_none() {
            return Err(Error::ArithmeticOverflow);
        }
        Ok(())
    }

    /// Adds `amount` to the stake of `who`, given the currency's answer to
    /// the request to reserve it.
    pub fn record_deposit(&mut self, who: AccountId, amount: u128, reservation: Reservation) -> (r:
        Result<Event, Error>)
        requires
            old(self).wf(),
        ensures
            final(self).wf(),
            agrees(r, final(self)@, old(self)@.deposit(who, amount, reservation)),
    {
        if let Err(e) = self.check_deposit(who, amount) {
            return Err(e);
        }
        match reservation {
            Reservation::Unrepresentable => { return Err(Error::StakeTooLow); },
            Reservation::Refused => { return Err(Error::InsufficientFunds); },
            Reservation::Reserved => {},
        }
        let record = match self.stakes.get(&who) {
            Some(current) => StakeInfo {
                amount: current.amount + amount,
                validation_count: current.validation_count,
                total_rewards: current.total_rewards,
            },
            None => StakeInfo { amount, validation_count: 0, total_rewards: 0 },
        };
        self.stakes.insert(who, record);
        Ok(Event::StakeDeposited(who, amount))
    }

    /// Deposits `amount` as stake of `who`, which is reserved in `currency`
    /// and makes `who` a validator. The currency is asked only where the
    /// deposit is not rejected before.
    pub fn deposit_stake<C: Config>(&mut self, currency: &mut C, who: AccountId, amount: u128) -> (r:
        Result<Event, Error>)
        requires
            old(self).wf(),
        ensures
            final(self).wf(),
            exists|reservation: Reservation|
                agrees(r, final(self)@, #[trigger] old(self)@.deposit(who, amount, reservation)),
            old(self)@.deposit_rejection(who, amount) matches Some(error) ==> r == Err::<
                Event,
                Error,
            >(error) && final(self)@ == old(self)@,
            amount < old(self)@.params.min_stake_amount ==> r == Err::<Event, Error>(
                Error::StakeTooLow,
            ) && final(self)@ == old(self)@,
    {
        if let Err(e) = self.check_deposit(who, amount) {
            assert(agrees(Err(e), self@, old(self)@.deposit(who, amount, Reservation::Reserved)));
            return Err(e);
        }
        let reservation = reserve(currency, who, amount);
        self.record_deposit(who, amount, reservation)
    }

    /// Checks a withdrawal without making it.
    pub fn check_withdrawal(&self, who: AccountId, amount: u128) -> (r: Result<(), Error>)
        ensures
            match self@.withdraw_rejection(who, amount) {
                Some(error) => r == Err::<(), Error>(error),
                None => r is Ok,
            },
    {
        match self.stakes.get(&who) {
            None => Err(Error::NotAValidator),
            Some(record) => {
                if amount > record.amount {
                    Err(Error::InsufficientStake)
                } else {
                    Ok(())
                }
            },
        }
    }

    /// Takes `amount` from the stake of `who`; `released` says whether the
    /// currency could represent the amount, and so released it.
    pub fn record_withdrawal(&mut self, who: AccountId, amount: u128, released: bool) -> (r: Result<
        Event,
        Error,
    >)
        requires
            old(self).wf(),
        ensures
            final(self).wf(),
            agrees(r, final(self)@, old(self)@.withdraw(who, amount, released)),
            amount > old(self)@.staked(who) ==> r is Err && final(self)@ == old(self)@,
            r is Ok && amount == old(self)@.staked(who) ==> !final(self)@.is_validator(who),
    {
        let current = match self.stakes.get(&who) {
            Some(record) => *record,
            None => { return Err(Error::NotAValidator); },
        };
        if amount > current.amount || !released {
            return Err(Error::InsufficientStake);
        }
        let record = StakeInfo {
            amount: current.amount - amount,
            validation_count: current.validation_count,
            total_rewards: current.total_rewards,
        };
        if record.amount == 0 {
            self.stakes.remove(&who);
        } else {
            self.stakes.insert(who, record);
        }
        Ok(Event::StakeWithdrawn(who, amount))
    }

    /// Withdraws `amount` of the stake of `who`, which is released in
    /// `currency`. The currency is asked only where the withdrawal is not
    /// rejected before.
    pub fn withdraw_stake<C: Config>(&mut self, currency: &mut C, who: AccountId, amount: u128) -> (r:
        Result<Event, Error>)
        requires
            old(self).wf(),
        ensures
            final(self).wf(),
            exists|released: bool|
                agrees(r, final(self)@, #[trigger] old(self)@.withdraw(who, amount, released)),
            old(self)@.withdraw_rejection(who, amount) matches Some(error) ==> r == Err::<
                Event,
                Error,
            >(error) && final(self)@ == old(self)@,
            amount > old(self)@.staked(who) ==> r is Err && final(self)@ == old(self)@,
            r is Ok && amount == old(self)@.staked(who) ==> !final(self)@.is_validator(who),
    {
        if let Err(e) = self.check_withdrawal(who, amount) {
            assert(agrees(Err(e), self@, old(self)@.withdraw(who, amount, true)));
            return Err(e);
        }
        let released = release(currency, who, amount);
        self.record_withdrawal(who, amount, released)
    }

    /// Validates the discovery `id` on behalf of the validator `who`.
    pub fn validate_discovery(&mut self, who: AccountId, id: DiscoveryId) -> (r: Result<
        Event,
        Error,
    >)
        requires
            old(self).wf(),
        ensures
            final(self).wf(),
            agrees(r, final(self)@, old(self)@.validate(who, id@)),
            old(self)@.is_validator(who) && old(self)@.discoveries.contains_key(id@) && old(
                self,
            )@.discoveries[id@].verified ==> r == Err::<Event, Error>(
                Error::ValidationAlreadyCompleted,
            ) && final(self)@ == old(self)@,
    {
        let stake = match self.stakes.get(&who) {
            Some(record) => *record,
            None => { return Err(Error::NotAValidator); },
        };
        let offered = match self.discoveries.get(&id) {
            Some(discovery) => {
                if discovery.verified {
                    return Err(Error::ValidationAlreadyCompleted);
                }
                discovery.pos_reward
            },
            None => { return Err(Error::DiscoveryNotFound); },
        };
        let reward = match validation_reward(offered, stake.amount, self.params.min_stake_amount) {
            Ok(v) => v,
            Err(e) => { return Err(e); },
        };
        let balance = match self.validator_rewards(who).checked_add(reward) {
            Some(v) => v,
            None => { return Err(Error::ArithmeticOverflow); },
        };
        let total = match self.total_pos_rewards.checked_add(reward) {
            Some(v) => v,
            None => { return Err(Error::ArithmeticOverflow); },
        };
        let earned = match stake.total_rewards.checked_add(reward) {
            Some(v) => v,
            None => { return Err(Error::ArithmeticOverflow); },
        };
        let count = match stake.validation_count.checked_add(1) {
            Some(v) => v,
            None => { return Err(Error::ArithmeticOverflow); },
        };
        let validations = match self.total_validations.checked_add(1) {
            Some(v) => v,
            None => { return Err(Error::ArithmeticOverflow); },
        };
        self.discoveries.mark_verified(&id);
        self.stakes.insert(
            who,
            StakeInfo { amount: stake.amount, validation_count: count, total_rewards: earned },
        );
        self.validator_rewards.insert(who, balance);
        self.total_pos_rewards = total;
        self.total_validations = validations;
        Ok(Event::ValidationCompleted(who, id, reward))
    }
}

/// The first `n` of the labels that the registry is seeded with.
spec fn seeded(n: int) -> Set<Seq<u8>> {
    Set::new(|label: Seq<u8>| exists|j: int| 0 <= j < n && genesis_labels()[j] == label)
}

impl Ledger {
    /// Seeds the registry: every label of `genesis_labels` becomes a
    /// permitted work type, beside those that are permitted already.
    pub fn initialize_work_types(&mut self)
        requires
            old(self).wf(),
        ensures
            final(self).wf(),
            final(self)@ == (LedgerView {
                work_types: old(self)@.work_types.union(genesis_work_types()),
                ..old(self)@
            }),
    {
        let ghost before = self@;
        let mut i: usize = 0;
        while i < GENESIS_WORK_TYPES
            invariant
                i <= GENESIS_WORK_TYPES,
                self.wf(),
                self@ == (LedgerView {
                    work_types: before.work_types.union(seeded(i as int)),
                    ..before
                }),
            decreases GENESIS_WORK_TYPES - i,
        {
            let label = genesis_label(i);
            self.register_work_type(label);
            proof {
                assert(seeded(i as int).insert(label@) =~= seeded(i as int + 1));
                assert(self@ =~~= LedgerView {
                    work_types: before.work_types.union(seeded(i as int + 1)),
                    ..before
                });
            }
            i += 1;
        }
        proof {
            assert(seeded(GENESIS_WORK_TYPES as int) =~= genesis_work_types());
        }
    }
}

} // verus!
