//! The records the ledger keeps, its parameters, its events and its errors.

use vstd::prelude::*;

verus! {

/// An account, already authenticated by the caller of the ledger.
pub type AccountId = u64;

/// A position of the sequence clock that orders the commands.
pub type BlockNumber = u64;

/// The 256-bit identifier of a discovery.
pub type DiscoveryId = [u8; 32];

/// The protocol parameters. They are given once, when the ledger is made, and
/// never change.
#[derive(Clone, Copy, Debug, PartialEq, Eq, Structural)]
pub struct Params {
    /// The largest difficulty a discovery or a mining session may claim.
    pub max_difficulty: u32,
    /// The reward per unit of difficulty.
    pub base_reward: u128,
    /// The target time between two blocks, in milliseconds.
    pub block_time: u32,
    /// The quantum-security level every discovery must reach.
    pub quantum_security_level: u32,
    /// The least amount that may be deposited as stake.
    pub min_stake_amount: u128,
    /// The factor applied to the reward of the miner.
    pub pow_reward_multiplier: u32,
    /// The factor applied to the reward offered for validation.
    pub pos_reward_multiplier: u32,
}

/// Why a command was rejected. A rejected command leaves the ledger as it was.
#[derive(Clone, Copy, Debug, PartialEq, Eq, Structural)]
pub enum Error {
    /// The work type is not in the registry.
    WorkTypeNotSupported,
    /// The difficulty is above the configured maximum.
    DifficultyTooHigh,
    /// The quantum-security level is below the required one.
    InsufficientQuantumSecurity,
    /// No discovery has the given identifier.
    DiscoveryNotFound,
    /// The miner has no active session at the given index.
    MiningSessionNotFound,
    /// Kept for a guard against starting a session while another is active;
    /// no command returns it.
    MiningSessionAlreadyActive,
    /// More was to be withdrawn than is staked.
    InsufficientStake,
    /// The account holds no stake.
    NotAValidator,
    /// The amount is below the minimum stake.
    StakeTooLow,
    /// The discovery has been validated before.
    ValidationAlreadyCompleted,
    /// A reward, a balance or a counter has no value in its integer width:
    /// the result is too large, or the divisor is zero.
    ArithmeticOverflow,
    /// The currency could not reserve the amount.
    InsufficientFunds,
}

/// The stake of one account.
#[derive(Clone, Copy, Debug, PartialEq, Eq, Structural)]
pub struct StakeInfo {
    /// The amount staked.
    pub amount: u128,
    /// How many discoveries the account has validated.
    pub validation_count: u32,
    /// The sum of the rewards earned by validating.
    pub total_rewards: u128,
}

/// A submitted discovery.
#[derive(Clone, Debug, PartialEq, Eq)]
pub struct Discovery {
    pub miner: AccountId,
    pub work_type: Vec<u8>,
    pub difficulty: u32,
    pub result: Vec<u8>,
    pub proof_of_work: Vec<u8>,
    pub quantum_security: u32,
    pub timestamp: BlockNumber,
    /// The reward credited to the miner on submission.
    pub pow_reward: u128,
    /// The reward offered to the validator, before scaling by stake.
    pub pos_reward: u128,
    pub verified: bool,
}

/// A discovery as a mathematical value.
#[verifier::ext_equal]
pub struct DiscoveryView {
    pub miner: AccountId,
    pub work_type: Seq<u8>,
    pub difficulty: u32,
    pub result: Seq<u8>,
    pub proof_of_work: Seq<u8>,
    pub quantum_security: u32,
    pub timestamp: BlockNumber,
    pub pow_reward: u128,
    pub pos_reward: u128,
    pub verified: bool,
}

impl View for Discovery {
    type V = DiscoveryView;

    open spec fn view(&self) -> DiscoveryView {
        DiscoveryView {
            miner: self.miner,
            work_type: self.work_type@,
            difficulty: self.difficulty,
            result: self.result@,
            proof_of_work: self.proof_of_work@,
            quantum_security: self.quantum_security,
            timestamp: self.timestamp,
            pow_reward: self.pow_reward,
            pos_reward: self.pos_reward,
            verified: self.verified,
        }
    }
}

/// A mining session, backed by stake.
#[derive(Clone, Debug, PartialEq, Eq)]
pub struct MiningSession {
    pub miner: AccountId,
    pub work_type: Vec<u8>,
    pub difficulty: u32,
    pub start_time: BlockNumber,
    pub end_time: Option<BlockNumber>,
    /// Percent done: 0 while the session runs, 100 once it is completed.
    pub progress: u32,
    pub active: bool,
    pub stake_amount: u128,
}

/// A mining session as a mathematical value.
#[verifier::ext_equal]
pub struct MiningSessionView {
    pub miner: AccountId,
    pub work_type: Seq<u8>,
    pub difficulty: u32,
    pub start_time: BlockNumber,
    pub end_time: Option<BlockNumber>,
    pub progress: u32,
    pub active: bool,
    pub stake_amount: u128,
}

impl View for MiningSession {
    type V = MiningSessionView;

    open spec fn view(&self) -> MiningSessionView {
        MiningSessionView {
            miner: self.miner,
            work_type: self.work_type@,
            difficulty: self.difficulty,
            start_time: self.start_time,
            end_time: self.end_time,
            progress: self.progress,
            active: self.active,
            stake_amount: self.stake_amount,
        }
    }
}

/// What a command that succeeded reports to observers.
#[derive(Clone, Debug, PartialEq, Eq)]
pub enum Event {
    /// Identifier, miner, work type, difficulty, miner's reward, validation reward.
    DiscoverySubmitted(DiscoveryId, AccountId, Vec<u8>, u32, u128, u128),
    /// Miner, work type, difficulty, stake.
    MiningSessionStarted(AccountId, Vec<u8>, u32, u128),
    /// Miner, work type, difficulty.
    MiningSessionCompleted(AccountId, Vec<u8>, u32),
    /// Validator, amount.
    StakeDeposited(AccountId, u128),
    /// Validator, amount.
    StakeWithdrawn(AccountId, u128),
    /// Validator, identifier of the discovery, reward.
    ValidationCompleted(AccountId, DiscoveryId, u128),
    /// Account, miner's reward, validation reward. No command emits it.
    HybridRewardDistributed(AccountId, u128, u128),
}

/// An event as a mathematical value.
#[verifier::ext_equal]
pub enum EventView {
    DiscoverySubmitted(Seq<u8>, AccountId, Seq<u8>, u32, u128, u128),
    MiningSessionStarted(AccountId, Seq<u8>, u32, u128),
    MiningSessionCompleted(AccountId, Seq<u8>, u32),
    StakeDeposited(AccountId, u128),
    StakeWithdrawn(AccountId, u128),
    ValidationCompleted(AccountId, Seq<u8>, u128),
    HybridRewardDistributed(AccountId, u128, u128),
}

impl View for Event {
    type V = EventView;

    open spec fn view(&self) -> EventView {
        match *self {
            Event::DiscoverySubmitted(id, miner, work_type, difficulty, pow, pos) =>
                EventView::DiscoverySubmitted(id@, miner, work_type@, difficulty, pow, pos),
            Event::MiningSessionStarted(miner, work_type, difficulty, stake) =>
                EventView::MiningSessionStarted(miner, work_type@, difficulty, stake),
            Event::MiningSessionCompleted(miner, work_type, difficulty) =>
                EventView::MiningSessionCompleted(miner, work_type@, difficulty),
            Event::StakeDeposited(who, amount) => EventView::StakeDeposited(who, amount),
            Event::StakeWithdrawn(who, amount) => EventView::StakeWithdrawn(who, amount),
            Event::ValidationCompleted(who, id, reward) =>
                EventView::ValidationCompleted(who, id@, reward),
            Event::HybridRewardDistributed(who, pow, pos) =>
                EventView::HybridRewardDistributed(who, pow, pos),
        }
    }
}

/// The currency's answer when it cannot reserve an amount.
#[derive(Clone, Copy, Debug, PartialEq, Eq, Structural)]
pub struct InsufficientFunds;

/// How the currency answered a request to reserve an amount of stake.
#[derive(Clone, Copy, Debug, PartialEq, Eq, Structural)]
pub enum Reservation {
    /// The amount is reserved.
    Reserved,
    /// The currency's unit cannot represent the amount; nothing was asked of
    /// the account.
    Unrepresentable,
    /// The account cannot spare the amount; nothing is reserved.
    Refused,
}

/// What a runtime supplies to the ledger: the currency in which stake is
/// held. The ledger makes no assumption about an implementation; each command
/// that calls it is specified for every answer it may give.
pub trait Config {
    /// The currency's own unit of account.
    type Balance;

    /// Converts a stake amount to the currency's unit, or `None` where the
    /// unit cannot represent it.
    fn to_balance(&self, amount: u128) -> Option<Self::Balance>;

    /// Moves `amount` of the spendable balance of `who` to its reserved
    /// balance, wholly or not at all.
    fn reserve(&mut self, who: AccountId, amount: Self::Balance) -> Result<(), InsufficientFunds>;

    /// Moves `amount` of the reserved balance of `who` back to its spendable
    /// balance.
    fn unreserve(&mut self, who: AccountId, amount: Self::Balance);
}

} // verus!
