//! What holds of the operations, whatever the request.

use vstd::prelude::*;
use crate::address::{address_ext_equal, address_of, pool_address, user_address, Address};
use crate::codec::u64_le;
use crate::cpi::token_program;
use crate::error::{ProgramFault, StakingError};
use crate::processor::{
    claim_spec, closed, configured, opened, optional_transfer, payout_holdings, pool_minus,
    pool_plus, pool_transfer, process_spec, settled, settlement, stake_admission, stake_spec,
    unstake_spec, update_config_spec,
};
use crate::provision::{initialize_pool_spec, initialize_user_spec};
use crate::reward::{reward_due, seconds_between};
use crate::state::{StakingPool, UserStake};
use crate::step::{nothing_to_do, AccountView, Stage, StepView, TransferView};

verus! {

/// The number of units that a list of transfers moves in all.
pub open spec fn total_paid(transfers: Seq<TransferView>) -> nat
    decreases transfers.len(),
{
    if transfers.len() == 0 {
        0
    } else {
        total_paid(transfers.drop_last()) + transfers.last().amount as nat
    }
}

proof fn total_paid_of_optional(transfer: Option<TransferView>)
    ensures
        total_paid(optional_transfer(transfer)) == (match transfer {
            Some(t) => t.amount as nat,
            None => 0,
        }),
{
    if let Some(t) = transfer {
        assert(seq![t].drop_last() =~= Seq::<TransferView>::empty());
        reveal_with_fuel(total_paid, 2);
    }
}

/// Deriving the pool's address is a function of the bytes of the program's
/// and the mint's identities: the same bytes give the same address and the
/// same bump seed.
pub proof fn pool_address_is_deterministic(
    program: Address,
    mint: Address,
    program_again: Address,
    mint_again: Address,
)
    requires
        program@ == program_again@,
        mint@ == mint_again@,
    ensures
        pool_address(program, mint) == pool_address(program_again, mint_again),
{
    address_ext_equal(program, program_again);
    address_ext_equal(mint, mint_again);
}

/// Deriving a position's address is a function of the bytes of the
/// program's, the pool's and the owner's identities.
pub proof fn user_address_is_deterministic(
    program: Address,
    pool: Address,
    owner: Address,
    program_again: Address,
    pool_again: Address,
    owner_again: Address,
)
    requires
        program@ == program_again@,
        pool@ == pool_again@,
        owner@ == owner_again@,
    ensures
        user_address(program, pool, owner) == user_address(program_again, pool_again, owner_again),
{
    address_ext_equal(program, program_again);
    address_ext_equal(pool, pool_again);
    address_ext_equal(owner, owner_again);
}

/// A stake that succeeds moves exactly `amount` into the vault, activates
/// an inactive position at the clock's reading and raises the pool's total
/// by exactly `amount`, without wrapping.
pub proof fn stake_raises_total(
    program: Address,
    accounts: Seq<AccountView>,
    amount: u64,
    clock: Option<i64>,
)
    requires
        stake_spec(program, accounts, amount, clock) is Ok,
    ensures
        ({
            let pool = StakingPool::decode(accounts[3].data@)->0;
            let position = UserStake::decode(accounts[4].data@)->0;
            let step = stake_spec(program, accounts, amount, clock)->Ok_0;
            &&& amount > 0
            &&& clock is Some
            &&& position.amount == 0
            &&& step is Complete
            &&& step->transfers.len() == 1
            &&& total_paid(step->transfers) == amount
            &&& step->writes.len() == 2
            &&& step->writes[0].account == 4
            &&& UserStake::decode(step->writes[0].data) == Some(opened(position, amount, clock->0))
            &&& step->writes[1].account == 3
            &&& StakingPool::decode(step->writes[1].data) == Some(pool_plus(pool, amount))
            &&& pool_plus(pool, amount).total_staked == pool.total_staked + amount
        }),
{
    let pool = StakingPool::decode(accounts[3].data@)->0;
    let position = UserStake::decode(accounts[4].data@)->0;
    let step = stake_spec(program, accounts, amount, clock)->Ok_0;
    opened(position, amount, clock->0).decode_of_encoding();
    pool_plus(pool, amount).decode_of_encoding();
    assert(step->transfers.drop_last() =~= Seq::<TransferView>::empty());
    reveal_with_fuel(total_paid, 2);
}

/// Staking on a position that is already active fails with `DoubleStake`,
/// whatever the new amount and whatever the caller's balance, wherever the
/// accounts are the ones a stake asks for; and no request at all stakes on
/// an active position.
pub proof fn active_position_cannot_stake(
    program: Address,
    accounts: Seq<AccountView>,
    amount: u64,
    clock: Option<i64>,
)
    requires
        accounts.len() >= 7,
        UserStake::decode(accounts[4].data@) is Some,
        UserStake::decode(accounts[4].data@)->0.amount != 0,
    ensures
        stake_spec(program, accounts, amount, clock) is Err,
        amount != 0 && stake_admission(program, accounts) is None ==> stake_spec(
            program,
            accounts,
            amount,
            clock,
        ) == Err::<StepView, ProgramFault>(ProgramFault::Staking(StakingError::DoubleStake)),
{
}

/// A stake takes its records only at their derived addresses: where the
/// position account does not stand at the address derived for pool and
/// user, or the pool account does not stand at the address derived for the
/// mint, a signed stake of an amount fails with `InvalidArgument`.
pub proof fn stake_needs_derived_addresses(
    program: Address,
    accounts: Seq<AccountView>,
    amount: u64,
    clock: Option<i64>,
)
    requires
        amount != 0,
        accounts.len() >= 7,
        accounts[0].is_signer,
        ({
            let position_at = user_address(program, accounts[3].key, accounts[0].key);
            let pool_at = pool_address(program, accounts[2].key);
            ||| position_at is None
            ||| accounts[4].key != address_of(position_at->0)
            ||| pool_at is None
            ||| accounts[3].key != address_of(pool_at->0)
        }),
    ensures
        stake_spec(program, accounts, amount, clock) == Err::<StepView, ProgramFault>(
            ProgramFault::InvalidArgument,
        ),
{
}

/// A stake of nothing fails with `ZeroAmount`, whatever the accounts.
pub proof fn zero_stake_rejected(
    program: Address,
    accounts: Seq<AccountView>,
    clock: Option<i64>,
)
    ensures
        stake_spec(program, accounts, 0, clock) == Err::<StepView, ProgramFault>(
            ProgramFault::Staking(StakingError::ZeroAmount),
        ),
{
}

/// A payout takes its records only at their derived addresses: a claim or
/// an unstake whose position account does not stand at the address derived
/// for pool and user, or whose pool account does not stand at the address
/// derived for the mint, fails with `InvalidArgument`, whatever the records
/// hold and whether or not anything is due.
pub proof fn payout_needs_derived_addresses(
    program: Address,
    accounts: Seq<AccountView>,
    clock: Option<i64>,
)
    requires
        accounts.len() >= 7,
        accounts[0].is_signer,
        ({
            let position_at = user_address(program, accounts[4].key, accounts[0].key);
            let pool_at = pool_address(program, accounts[2].key);
            ||| position_at is None
            ||| accounts[3].key != address_of(position_at->0)
            ||| pool_at is None
            ||| accounts[4].key != address_of(pool_at->0)
        }),
    ensures
        claim_spec(program, accounts, clock) == Err::<StepView, ProgramFault>(
            ProgramFault::InvalidArgument,
        ),
        unstake_spec(program, accounts, clock) == Err::<StepView, ProgramFault>(
            ProgramFault::InvalidArgument,
        ),
{
}

/// Whatever a payout reads, it reads at the derived addresses: where the
/// accounts of a claim or an unstake pass their checks, the position stands
/// at the address derived for pool and user and the pool at the address
/// derived for the mint.
pub proof fn payout_reads_at_derived_addresses(program: Address, accounts: Seq<AccountView>)
    requires
        payout_holdings(program, accounts) is Ok,
    ensures
        user_address(program, accounts[4].key, accounts[0].key) is Some,
        accounts[3].key == address_of(
            user_address(program, accounts[4].key, accounts[0].key)->0,
        ),
        pool_address(program, accounts[2].key) is Some,
        accounts[4].key == address_of(pool_address(program, accounts[2].key)->0),
{
}

/// A claim on an active position that succeeds pays exactly the reward due
/// for the time since the last settlement, rounded down, adds it to the
/// rewards paid and moves the settlement time to the clock's reading.
pub proof fn claim_pays_what_is_due(
    program: Address,
    accounts: Seq<AccountView>,
    clock: Option<i64>,
)
    requires
        claim_spec(program, accounts, clock) is Ok,
        payout_holdings(program, accounts)->Ok_0.position.amount != 0,
    ensures
        ({
            let held = payout_holdings(program, accounts)->Ok_0;
            let position = held.position;
            let due = reward_due(
                seconds_between(position.last_claim_time, clock->0),
                position.amount as nat,
                held.pool.reward_rate as nat,
            );
            let step = claim_spec(program, accounts, clock)->Ok_0;
            &&& clock is Some
            &&& position.last_claim_time <= clock->0
            &&& step is Complete
            &&& total_paid(step->transfers) == due
            &&& due <= held.vault.amount
            &&& step->writes.len() == 1
            &&& step->writes[0].account == 3
            &&& UserStake::decode(step->writes[0].data) == Some(
                settled(position, (position.rewards_claimed + due) as u64, clock->0),
            )
            &&& position.rewards_claimed + due <= u64::MAX
        }),
{
    let held = payout_holdings(program, accounts)->Ok_0;
    let position = held.position;
    let now = clock->0;
    let paid = settlement(program, accounts, held, now)->Ok_0;
    total_paid_of_optional(paid.payment);
    settled(position, paid.claimed, now).decode_of_encoding();
}

/// A claim on an inactive position changes nothing.
pub proof fn claim_on_inactive_position(
    program: Address,
    accounts: Seq<AccountView>,
    clock: Option<i64>,
)
    requires
        payout_holdings(program, accounts) is Ok,
        payout_holdings(program, accounts)->Ok_0.position.amount == 0,
        clock is Some,
        payout_holdings(program, accounts)->Ok_0.position.last_claim_time <= clock->0,
    ensures
        claim_spec(program, accounts, clock) == Ok::<StepView, ProgramFault>(nothing_to_do()),
{
}

/// An unstake of an active position that succeeds pays exactly the reward
/// due plus the whole principal, deactivates the position and lowers the
/// pool's total by exactly the principal, without wrapping.
pub proof fn unstake_lowers_total(
    program: Address,
    accounts: Seq<AccountView>,
    clock: Option<i64>,
)
    requires
        unstake_spec(program, accounts, clock) is Ok,
        payout_holdings(program, accounts)->Ok_0.position.amount != 0,
    ensures
        ({
            let held = payout_holdings(program, accounts)->Ok_0;
            let position = held.position;
            let due = reward_due(
                seconds_between(position.last_claim_time, clock->0),
                position.amount as nat,
                held.pool.reward_rate as nat,
            );
            let step = unstake_spec(program, accounts, clock)->Ok_0;
            &&& clock is Some
            &&& clock->0 - position.start_time >= held.pool.min_lock_period
            &&& step is Complete
            &&& total_paid(step->transfers) == due + position.amount
            &&& step->writes.len() == 2
            &&& step->writes[0].account == 3
            &&& UserStake::decode(step->writes[0].data) == Some(
                closed(position, (position.rewards_claimed + due) as u64),
            )
            &&& step->writes[1].account == 4
            &&& StakingPool::decode(step->writes[1].data) == Some(
                pool_minus(held.pool, position.amount),
            )
            &&& pool_minus(held.pool, position.amount).total_staked == held.pool.total_staked
                - position.amount
        }),
{
    let held = payout_holdings(program, accounts)->Ok_0;
    let position = held.position;
    let now = clock->0;
    let paid = settlement(program, accounts, held, now)->Ok_0;
    let refund = pool_transfer(program, accounts, held.vault.mint, position.amount)->Ok_0;
    let step = unstake_spec(program, accounts, clock)->Ok_0;
    total_paid_of_optional(paid.payment);
    assert(step->transfers.drop_last() =~= optional_transfer(paid.payment));
    closed(position, paid.claimed).decode_of_encoding();
    pool_minus(held.pool, position.amount).decode_of_encoding();
}

/// While less than the lock period has passed since the stake began,
/// unstaking fails with `LockActive`.
pub proof fn unstake_before_lock_ends(
    program: Address,
    accounts: Seq<AccountView>,
    clock: Option<i64>,
)
    requires
        payout_holdings(program, accounts) is Ok,
        clock is Some,
        payout_holdings(program, accounts)->Ok_0.position.start_time <= clock->0,
        clock->0 - payout_holdings(program, accounts)->Ok_0.position.start_time < payout_holdings(
            program,
            accounts,
        )->Ok_0.pool.min_lock_period,
    ensures
        unstake_spec(program, accounts, clock) == Err::<StepView, ProgramFault>(
            ProgramFault::Staking(StakingError::LockActive),
        ),
{
}

/// From the moment the lock period has passed, the lock no longer stands in
/// the way: unstaking does not fail with `LockActive`.
pub proof fn unstake_once_lock_ended(
    program: Address,
    accounts: Seq<AccountView>,
    clock: Option<i64>,
)
    requires
        payout_holdings(program, accounts) is Ok,
        clock is Some,
        payout_holdings(program, accounts)->Ok_0.position.start_time <= clock->0,
        clock->0 - payout_holdings(program, accounts)->Ok_0.position.start_time >= payout_holdings(
            program,
            accounts,
        )->Ok_0.pool.min_lock_period,
    ensures
        unstake_spec(program, accounts, clock) != Err::<StepView, ProgramFault>(
            ProgramFault::Staking(StakingError::LockActive),
        ),
{
    let held = payout_holdings(program, accounts)->Ok_0;
    let paid = settlement(program, accounts, held, clock->0);
    let refund = pool_transfer(program, accounts, held.vault.mint, held.position.amount);
}

/// A vault that holds less than the reward due makes a claim and an unstake
/// fail with `VaultInsufficient`; so does, for an unstake, a vault that
/// holds the reward but not reward and principal together.
pub proof fn short_vault_rejected(
    program: Address,
    accounts: Seq<AccountView>,
    clock: Option<i64>,
)
    requires
        payout_holdings(program, accounts) is Ok,
        clock is Some,
        payout_holdings(program, accounts)->Ok_0.position.amount != 0,
        payout_holdings(program, accounts)->Ok_0.position.last_claim_time <= clock->0,
        payout_holdings(program, accounts)->Ok_0.position.start_time <= clock->0,
        clock->0 - payout_holdings(program, accounts)->Ok_0.position.start_time >= payout_holdings(
            program,
            accounts,
        )->Ok_0.pool.min_lock_period,
    ensures
        ({
            let held = payout_holdings(program, accounts)->Ok_0;
            let due = reward_due(
                seconds_between(held.position.last_claim_time, clock->0),
                held.position.amount as nat,
                held.pool.reward_rate as nat,
            );
            let short = Err::<StepView, ProgramFault>(
                ProgramFault::Staking(StakingError::VaultInsufficient),
            );
            &&& 0 < due <= u64::MAX && held.vault.amount < due ==> {
                &&& claim_spec(program, accounts, clock) == short
                &&& unstake_spec(program, accounts, clock) == short
            }
            &&& due <= held.vault.amount && held.vault.amount < due + held.position.amount
                && settlement(program, accounts, held, clock->0) is Ok ==> unstake_spec(
                program,
                accounts,
                clock,
            ) == short
        }),
{
}

/// No payout moves more than the vault holds: the transfers of a claim and
/// of an unstake that succeed add up to no more than the vault's balance.
pub proof fn payout_is_covered(program: Address, accounts: Seq<AccountView>, clock: Option<i64>)
    ensures
        claim_spec(program, accounts, clock) is Ok ==> total_paid(
            claim_spec(program, accounts, clock)->Ok_0->transfers,
        ) <= payout_holdings(program, accounts)->Ok_0.vault.amount,
        unstake_spec(program, accounts, clock) is Ok ==> total_paid(
            unstake_spec(program, accounts, clock)->Ok_0->transfers,
        ) <= payout_holdings(program, accounts)->Ok_0.vault.amount,
{
    let held = payout_holdings(program, accounts)->Ok_0;
    if claim_spec(program, accounts, clock) is Ok {
        if held.position.amount != 0 {
            claim_pays_what_is_due(program, accounts, clock);
        } else {
            assert(total_paid(Seq::<TransferView>::empty()) == 0);
        }
    }
    if unstake_spec(program, accounts, clock) is Ok {
        if held.position.amount != 0 {
            unstake_lowers_total(program, accounts, clock);
        } else {
            assert(total_paid(Seq::<TransferView>::empty()) == 0);
        }
    }
}

/// Only the stored authority changes the configuration: a request whose
/// first account is any other identity fails with `Unauthorized`, and so
/// stores nothing.
pub proof fn update_config_needs_authority(
    accounts: Seq<AccountView>,
    new_reward_rate: Option<u64>,
    new_min_lock_period: Option<i64>,
)
    requires
        accounts.len() >= 2,
        StakingPool::decode(accounts[1].data@) is Some,
        StakingPool::decode(accounts[1].data@)->0.authority != accounts[0].key,
    ensures
        update_config_spec(accounts, new_reward_rate, new_min_lock_period) == Err::<
            StepView,
            ProgramFault,
        >(ProgramFault::Staking(StakingError::Unauthorized)),
{
    StakingPool::encoding_of_decode(accounts[1].data@);
}

/// A change of configuration leaves the authority, the vault, the total
/// staked and the bump seed as they were.
pub proof fn update_config_keeps_the_rest(
    accounts: Seq<AccountView>,
    new_reward_rate: Option<u64>,
    new_min_lock_period: Option<i64>,
)
    requires
        update_config_spec(accounts, new_reward_rate, new_min_lock_period) is Ok,
    ensures
        ({
            let pool = StakingPool::decode(accounts[1].data@)->0;
            let step = update_config_spec(accounts, new_reward_rate, new_min_lock_period)->Ok_0;
            let stored = StakingPool::decode(step->writes[0].data);
            &&& step is Complete
            &&& step->transfers.len() == 0
            &&& step->writes.len() == 1
            &&& step->writes[0].account == 1
            &&& stored is Some
            &&& stored->0.authority == pool.authority
            &&& stored->0.vault == pool.vault
            &&& stored->0.total_staked == pool.total_staked
            &&& stored->0.bump == pool.bump
            &&& stored->0._reserved == pool._reserved
            &&& new_reward_rate is Some ==> stored->0.reward_rate == new_reward_rate->0
            &&& new_reward_rate is None ==> stored->0.reward_rate == pool.reward_rate
            &&& new_min_lock_period is Some ==> stored->0.min_lock_period == new_min_lock_period->0
            &&& new_min_lock_period is None ==> stored->0.min_lock_period == pool.min_lock_period
        }),
{
    let pool = StakingPool::decode(accounts[1].data@)->0;
    configured(pool, new_reward_rate, new_min_lock_period).decode_of_encoding();
}

/// The time of the last settlement never lies before the start of the
/// stake: a stake sets both to the same moment, an unstake resets both, and
/// a settlement, which is only made at or after the last one, keeps the
/// order and never moves the time back.
pub proof fn settlement_follows_start(position: UserStake, amount: u64, claimed: u64, now: i64)
    ensures
        opened(position, amount, now).start_time <= opened(position, amount, now).last_claim_time,
        closed(position, claimed).start_time <= closed(position, claimed).last_claim_time,
        position.start_time <= position.last_claim_time && position.last_claim_time <= now
            ==> settled(position, claimed, now).start_time <= settled(
            position,
            claimed,
            now,
        ).last_claim_time,
        position.last_claim_time <= now ==> position.last_claim_time <= settled(
            position,
            claimed,
            now,
        ).last_claim_time,
{
}

/// A stake, a settlement and an unstake leave owner and pool of the
/// position as they are, and a stake, an unstake and a change of
/// configuration leave authority, vault and bump seed of the pool as they
/// are.
pub proof fn records_keep_their_identity(
    pool: StakingPool,
    position: UserStake,
    amount: u64,
    claimed: u64,
    now: i64,
    new_reward_rate: Option<u64>,
    new_min_lock_period: Option<i64>,
)
    ensures
        forall|changed: UserStake|
            changed == opened(position, amount, now) || changed == settled(position, claimed, now)
                || changed == closed(position, claimed) ==> changed.owner == position.owner
                && changed.pool == position.pool && changed._reserved == position._reserved,
        forall|changed: StakingPool|
            changed == pool_plus(pool, amount) || changed == pool_minus(pool, amount) || changed
                == configured(pool, new_reward_rate, new_min_lock_period) ==> changed.authority
                == pool.authority && changed.vault == pool.vault && changed.bump == pool.bump
                && changed._reserved == pool._reserved,
{
}

/// Rewards paid only grow: what a claim or an unstake records as paid is
/// what was paid before plus what it pays.
pub proof fn rewards_paid_only_grow(
    program: Address,
    accounts: Seq<AccountView>,
    clock: Option<i64>,
)
    requires
        payout_holdings(program, accounts) is Ok,
        clock is Some,
        settlement(program, accounts, payout_holdings(program, accounts)->Ok_0, clock->0) is Ok,
    ensures
        ({
            let held = payout_holdings(program, accounts)->Ok_0;
            let paid = settlement(program, accounts, held, clock->0)->Ok_0;
            &&& paid.claimed >= held.position.rewards_claimed
            &&& paid.claimed == held.position.rewards_claimed + total_paid(
                optional_transfer(paid.payment),
            )
            &&& total_paid(optional_transfer(paid.payment)) == reward_due(
                seconds_between(held.position.last_claim_time, clock->0),
                held.position.amount as nat,
                held.pool.reward_rate as nat,
            )
        }),
{
    let held = payout_holdings(program, accounts)->Ok_0;
    let paid = settlement(program, accounts, held, clock->0)->Ok_0;
    total_paid_of_optional(paid.payment);
}

/// How far a stage lies from `Start`.
pub open spec fn stage_rank(stage: Stage) -> nat {
    match stage {
        Stage::Start => 0,
        Stage::PoolAllocated => 1,
        Stage::UserAllocated => 1,
        Stage::VaultCreated => 2,
    }
}

/// Every allocation moves the operation on: the stage handed out lies
/// further from `Start` than the stage the operation was run at. A request
/// is therefore complete, or has failed, after at most two allocations.
pub proof fn allocation_advances_stage(
    program: Address,
    accounts: Seq<AccountView>,
    instruction_data: Seq<u8>,
    clock: Option<i64>,
    stage: Stage,
)
    requires
        process_spec(program, accounts, instruction_data, clock, stage) is Ok,
        process_spec(program, accounts, instruction_data, clock, stage)->Ok_0 is Allocate,
    ensures
        stage_rank(stage) < stage_rank(
            process_spec(program, accounts, instruction_data, clock, stage)->Ok_0->resume,
        ),
        stage_rank(process_spec(program, accounts, instruction_data, clock, stage)->Ok_0->resume)
            <= 2,
{
}

/// Creation is skipped for what exists: a pool whose account and vault
/// both hold data, and a position whose account holds data, are initialised
/// without any allocation.
pub proof fn existing_accounts_are_not_created(
    program: Address,
    accounts: Seq<AccountView>,
    reward_rate: u64,
    min_lock_period: i64,
)
    ensures
        accounts.len() >= 9 && accounts[2].data@.len() > 0 && accounts[4].data@.len() > 0
            ==> !(initialize_pool_spec(
            program,
            accounts,
            reward_rate,
            min_lock_period,
            Stage::Start,
        ) matches Ok(StepView::Allocate { .. })),
        accounts.len() >= 6 && accounts[3].data@.len() > 0 ==> !(initialize_user_spec(
            program,
            accounts,
            Stage::Start,
        ) matches Ok(StepView::Allocate { .. })),
{
}

/// A position changes between inactive and active by a stake and by an
/// unstake only: a stake takes an inactive position to an active one, an
/// unstake that writes takes an active position to an inactive one, and a
/// claim that writes leaves an active position active with its principal
/// and its start as they were.
pub proof fn activity_changes_by_stake_and_unstake(
    program: Address,
    accounts: Seq<AccountView>,
    amount: u64,
    clock: Option<i64>,
)
    ensures
        stake_spec(program, accounts, amount, clock) is Ok ==> ({
            let before = UserStake::decode(accounts[4].data@)->0;
            let after = UserStake::decode(
                stake_spec(program, accounts, amount, clock)->Ok_0->writes[0].data,
            )->0;
            before.amount == 0 && after.amount == amount && after.amount != 0
        }),
        claim_spec(program, accounts, clock) is Ok && claim_spec(
            program,
            accounts,
            clock,
        )->Ok_0->writes.len() > 0 ==> ({
            let before = payout_holdings(program, accounts)->Ok_0.position;
            let after = UserStake::decode(
                claim_spec(program, accounts, clock)->Ok_0->writes[0].data,
            )->0;
            before.amount != 0 && after.amount == before.amount && after.start_time
                == before.start_time
        }),
        unstake_spec(program, accounts, clock) is Ok && unstake_spec(
            program,
            accounts,
            clock,
        )->Ok_0->writes.len() > 0 ==> ({
            let before = payout_holdings(program, accounts)->Ok_0.position;
            let after = UserStake::decode(
                unstake_spec(program, accounts, clock)->Ok_0->writes[0].data,
            )->0;
            before.amount != 0 && after.amount == 0
        }),
{
    if stake_spec(program, accounts, amount, clock) is Ok {
        stake_raises_total(program, accounts, amount, clock);
    }
    if claim_spec(program, accounts, clock) is Ok && claim_spec(
        program,
        accounts,
        clock,
    )->Ok_0->writes.len() > 0 {
        claim_pays_what_is_due(program, accounts, clock);
    }
    if unstake_spec(program, accounts, clock) is Ok && unstake_spec(
        program,
        accounts,
        clock,
    )->Ok_0->writes.len() > 0 {
        unstake_lowers_total(program, accounts, clock);
    }
}

/// A transfer is what it says: its call goes to the token program and
/// carries the transfer tag followed by the very amount the transfer names.
pub open spec fn says_what_it_moves(transfer: TransferView) -> bool {
    &&& transfer.call.instruction.program_id == token_program()
    &&& transfer.call.instruction.data == seq![3u8] + u64_le(transfer.amount)
    &&& transfer.call.instruction.accounts.len() == 3
}

/// Every transfer that an operation hands out says what it moves. A stake
/// moves from the caller's token account to the vault on the caller's
/// signature; a payout moves from the vault to the caller's token account
/// on the pool's.
pub proof fn transfers_say_what_they_move(
    program: Address,
    accounts: Seq<AccountView>,
    amount: u64,
    clock: Option<i64>,
)
    ensures
        stake_spec(program, accounts, amount, clock) is Ok ==> ({
            let transfers = stake_spec(program, accounts, amount, clock)->Ok_0->transfers;
            &&& says_what_it_moves(transfers[0])
            &&& transfers[0].call.instruction.accounts[0].pubkey == accounts[1].key
            &&& transfers[0].call.instruction.accounts[1].pubkey == accounts[5].key
            &&& transfers[0].call.instruction.accounts[2].pubkey == accounts[0].key
            &&& transfers[0].call.signer_seeds is None
        }),
        claim_spec(program, accounts, clock) is Ok ==> ({
            let transfers = claim_spec(program, accounts, clock)->Ok_0->transfers;
            forall|i: int|
                0 <= i < transfers.len() ==> {
                    &&& says_what_it_moves(#[trigger] transfers[i])
                    &&& transfers[i].call.instruction.accounts[0].pubkey == accounts[5].key
                    &&& transfers[i].call.instruction.accounts[1].pubkey == accounts[1].key
                    &&& transfers[i].call.instruction.accounts[2].pubkey == accounts[4].key
                    &&& transfers[i].call.signer_seeds is Some
                }
        }),
        unstake_spec(program, accounts, clock) is Ok ==> ({
            let transfers = unstake_spec(program, accounts, clock)->Ok_0->transfers;
            forall|i: int|
                0 <= i < transfers.len() ==> {
                    &&& says_what_it_moves(#[trigger] transfers[i])
                    &&& transfers[i].call.instruction.accounts[0].pubkey == accounts[5].key
                    &&& transfers[i].call.instruction.accounts[1].pubkey == accounts[1].key
                    &&& transfers[i].call.instruction.accounts[2].pubkey == accounts[4].key
                    &&& transfers[i].call.signer_seeds is Some
                }
        }),
{
}

} // verus!
