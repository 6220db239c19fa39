//! What holds of the commands, whatever the ledger they are applied to.

use crate::model::{Command, LedgerView};
use crate::reward::{reward_base, validation_share_monotonic, POS_QUANTUM_BONUS, POW_QUANTUM_BONUS};
use crate::types::{AccountId, BlockNumber, Error, EventView, Reservation};
use vstd::prelude::*;

verus! {

/// The rewards stored with a discovery are those of the formulas: the base
/// reward times the difficulty, plus the quantum bonus for each whole
/// multiple of the required level, times the multiplier.
pub proof fn submitted_rewards_follow_formulas(
    ledger: LedgerView,
    id: Seq<u8>,
    miner: AccountId,
    work_type: Seq<u8>,
    difficulty: u32,
    result: Seq<u8>,
    proof_of_work: Seq<u8>,
    quantum_security: u32,
    now: BlockNumber,
)
    requires
        ledger.submit(
            id,
            miner,
            work_type,
            difficulty,
            result,
            proof_of_work,
            quantum_security,
            now,
        ).result is Ok,
    ensures
        ({
            let after = ledger.submit(
                id,
                miner,
                work_type,
                difficulty,
                result,
                proof_of_work,
                quantum_security,
                now,
            ).ledger;
            let p = ledger.params;
            &&& after.discoveries.contains_key(id)
            &&& !after.discoveries[id].verified
            &&& after.discoveries[id].pow_reward == reward_base(
                p.base_reward,
                difficulty,
                quantum_security,
                p.quantum_security_level,
                POW_QUANTUM_BONUS,
            ) * p.pow_reward_multiplier
            &&& after.discoveries[id].pos_reward == reward_base(
                p.base_reward,
                difficulty,
                quantum_security,
                p.quantum_security_level,
                POS_QUANTUM_BONUS,
            ) * p.pos_reward_multiplier
            &&& after.miner_reward(miner) == ledger.miner_reward(miner)
                + after.discoveries[id].pow_reward
        }),
{
}

/// A submission with a work type that is not registered is rejected as
/// unsupported and changes nothing, the counters included.
pub proof fn unregistered_work_type_is_rejected(
    ledger: LedgerView,
    id: Seq<u8>,
    miner: AccountId,
    work_type: Seq<u8>,
    difficulty: u32,
    result: Seq<u8>,
    proof_of_work: Seq<u8>,
    quantum_security: u32,
    now: BlockNumber,
)
    requires
        !ledger.work_types.contains(work_type),
    ensures
        ledger.submit(
            id,
            miner,
            work_type,
            difficulty,
            result,
            proof_of_work,
            quantum_security,
            now,
        ) == ledger.rejected(Error::WorkTypeNotSupported),
{
}

/// A deposit below the minimum stake is rejected as too low, whatever the
/// currency answers, and changes nothing.
pub proof fn deposit_below_minimum_is_rejected(
    ledger: LedgerView,
    who: AccountId,
    amount: u128,
    reservation: Reservation,
)
    requires
        amount < ledger.params.min_stake_amount,
    ensures
        ledger.deposit(who, amount, reservation) == ledger.rejected(Error::StakeTooLow),
{
}

/// A withdrawal of more than is staked is rejected, whatever the currency
/// answers, and changes nothing.
pub proof fn withdrawal_above_stake_is_rejected(
    ledger: LedgerView,
    who: AccountId,
    amount: u128,
    released: bool,
)
    requires
        amount > ledger.staked(who),
    ensures
        ledger.withdraw(who, amount, released).result is Err,
        ledger.withdraw(who, amount, released).ledger == ledger,
        ledger.is_validator(who) ==> ledger.withdraw(who, amount, released).result == Err::<
            EventView,
            Error,
        >(Error::InsufficientStake),
{
}

/// A withdrawal of all that is staked, once the currency has released it,
/// deletes the stake record: the account is no validator any more, and a
/// validation it attempts is rejected for that reason.
pub proof fn full_withdrawal_ends_validator(ledger: LedgerView, who: AccountId, id: Seq<u8>)
    requires
        ledger.is_validator(who),
    ensures
        ({
            let t = ledger.withdraw(who, ledger.staked(who), true);
            &&& t.result == Ok::<EventView, Error>(
                EventView::StakeWithdrawn(who, ledger.staked(who)),
            )
            &&& t.ledger.stake_of(who) is None
            &&& !t.ledger.is_validator(who)
            &&& t.ledger.validate(who, id) == t.ledger.rejected(Error::NotAValidator)
        }),
{
}

/// A discovery is validated once: after a validation of `id` has succeeded,
/// every further validation of `id` is rejected and changes nothing. By a
/// validator, the first one included, it is rejected as already completed.
pub proof fn second_validation_is_rejected(
    ledger: LedgerView,
    first: AccountId,
    second: AccountId,
    id: Seq<u8>,
)
    requires
        ledger.validate(first, id).result is Ok,
    ensures
        ({
            let after = ledger.validate(first, id).ledger;
            &&& after.is_validator(first)
            &&& after.validate(second, id).result is Err
            &&& after.validate(second, id).ledger == after
            &&& after.is_validator(second) ==> after.validate(second, id) == after.rejected(
                Error::ValidationAlreadyCompleted,
            )
        }),
{
}

/// Of two validators of one discovery, the one with the larger stake earns
/// no less.
pub proof fn validation_reward_grows_with_stake(
    ledger: LedgerView,
    smaller: AccountId,
    larger: AccountId,
    id: Seq<u8>,
)
    requires
        ledger.validate_rejection(smaller, id) is None,
        ledger.validate_rejection(larger, id) is None,
        ledger.staked(smaller) <= ledger.staked(larger),
    ensures
        ledger.validation_reward(smaller, id) <= ledger.validation_reward(larger, id),
{
    validation_share_monotonic(
        ledger.discoveries[id].pos_reward,
        ledger.staked(smaller),
        ledger.staked(larger),
        ledger.params.min_stake_amount,
    );
}

/// Every command keeps the invariants of the data.
pub proof fn commands_preserve_inv(ledger: LedgerView, command: Command)
    requires
        ledger.inv(),
    ensures
        ledger.apply(command).ledger.inv(),
{
}

/// A command that is rejected changes nothing.
pub proof fn rejected_command_changes_nothing(ledger: LedgerView, command: Command)
    requires
        ledger.apply(command).result is Err,
    ensures
        ledger.apply(command).ledger == ledger,
{
}

/// No command changes the parameters or the registry, deletes a discovery or
/// a session, or takes a verified discovery's mark away, unless the
/// discovery is submitted again under the same identifier.
pub proof fn records_are_kept(
    ledger: LedgerView,
    command: Command,
    id: Seq<u8>,
    miner: AccountId,
    index: u32,
)
    ensures
        ({
            let after = ledger.apply(command).ledger;
            &&& after.params == ledger.params
            &&& after.work_types == ledger.work_types
            &&& ledger.discoveries.contains_key(id) ==> after.discoveries.contains_key(id)
            &&& ledger.discoveries.contains_key(id) && ledger.discoveries[id].verified
                && !after.discoveries[id].verified ==> command is Submit && command->Submit_id
                == id
            &&& ledger.session(miner, index) is Some ==> after.session(miner, index) is Some
            &&& ledger.session(miner, index) is Some && !ledger.session(miner, index)->0.active
                ==> after.session(miner, index) == ledger.session(miner, index)
        }),
{
}

/// No command lowers a reward balance, a total or a counter.
pub proof fn rewards_never_decrease(ledger: LedgerView, command: Command, account: AccountId)
    ensures
        ({
            let after = ledger.apply(command).ledger;
            &&& after.miner_reward(account) >= ledger.miner_reward(account)
            &&& after.validator_reward(account) >= ledger.validator_reward(account)
            &&& after.total_pow_rewards >= ledger.total_pow_rewards
            &&& after.total_pos_rewards >= ledger.total_pos_rewards
            &&& after.total_discoveries >= ledger.total_discoveries
            &&& after.total_validations >= ledger.total_validations
        }),
{
}

/// The index of a session is never used again: a session that is started
/// gets the number of the miner's earlier sessions as its index, and those
/// keep theirs.
pub proof fn started_session_is_appended(
    ledger: LedgerView,
    miner: AccountId,
    work_type: Seq<u8>,
    difficulty: u32,
    stake_amount: u128,
    now: BlockNumber,
)
    requires
        ledger.start_rejection(miner, work_type, difficulty, stake_amount) is None,
    ensures
        ({
            let after = ledger.start_session(
                miner,
                work_type,
                difficulty,
                stake_amount,
                now,
                Reservation::Reserved,
            ).ledger;
            let count = ledger.sessions_of(miner).len();
            &&& after.sessions_of(miner).len() == count + 1
            &&& after.sessions_of(miner).take(count as int) == ledger.sessions_of(miner)
            &&& after.sessions_of(miner)[count as int].active
            &&& after.sessions_of(miner)[count as int].progress == 0
            &&& after.sessions_of(miner)[count as int].stake_amount == stake_amount
        }),
{
}

} // verus!
