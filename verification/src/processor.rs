//! The six operations: what each checks, in which order, and what it asks
//! the host to do.
//!
//! An operation is a function of the request and of snapshots of the
//! accounts it names. It never touches the ledger itself: it returns the
//! calls to make and the bytes to store, or the failure, and the host
//! applies an outcome as a whole or not at all.

use vstd::prelude::*;
use crate::address::{
    address_of, bump_of, find_pool_pda, find_user_pda, pool_address, seed_pool, seed_pool_bytes,
    seed_user, user_address, Address,
};
use crate::cpi::{build_token_transfer, token_transfer};
use crate::error::{ProgramFault, StakingError};
use crate::instruction::StakingInstruction;
use crate::provision::{
    initialize_pool_spec, initialize_user_spec, process_initialize_pool, process_initialize_user,
};
use crate::reward::{pending_reward, reward_due, seconds_between};
use crate::state::{StakingPool, UserStake};
use crate::step::{
    nothing_to_do, outcome_view, seeds_view, AccountView, Invocation, InvocationView, Stage, Step,
    StepView, Transfer, TransferView, Write, WriteView,
};
use crate::token::{token_account, unpack_token_account, TokenAccount};

verus! {

/// A pool after its configuration was changed: a present value replaces the
/// field, an absent one leaves it.
pub open spec fn configured(
    pool: StakingPool,
    new_reward_rate: Option<u64>,
    new_min_lock_period: Option<i64>,
) -> StakingPool {
    StakingPool {
        reward_rate: match new_reward_rate {
            Some(rate) => rate,
            None => pool.reward_rate,
        },
        min_lock_period: match new_min_lock_period {
            Some(period) => period,
            None => pool.min_lock_period,
        },
        ..pool
    }
}

/// A position after `amount` was staked at `now`.
pub open spec fn opened(position: UserStake, amount: u64, now: i64) -> UserStake {
    UserStake { amount, start_time: now, last_claim_time: now, ..position }
}

/// A position after its rewards were settled at `now`, `claimed` being the
/// new total paid out.
pub open spec fn settled(position: UserStake, claimed: u64, now: i64) -> UserStake {
    UserStake { rewards_claimed: claimed, last_claim_time: now, ..position }
}

/// A position after its principal was returned, `claimed` being the new
/// total paid out.
pub open spec fn closed(position: UserStake, claimed: u64) -> UserStake {
    UserStake { amount: 0, start_time: 0, last_claim_time: 0, rewards_claimed: claimed, ..position }
}

/// A pool with `amount` more staked in it.
pub open spec fn pool_plus(pool: StakingPool, amount: u64) -> StakingPool
    recommends
        pool.total_staked + amount <= u64::MAX,
{
    StakingPool { total_staked: (pool.total_staked + amount) as u64, ..pool }
}

/// A pool with `amount` less staked in it.
pub open spec fn pool_minus(pool: StakingPool, amount: u64) -> StakingPool
    recommends
        amount <= pool.total_staked,
{
    StakingPool { total_staked: (pool.total_staked - amount) as u64, ..pool }
}

/// The seeds under which the pool of `mint` signs.
pub open spec fn pool_signer_seeds(mint: Address, bump: u8) -> Seq<Seq<u8>> {
    seq![seed_pool(), mint@, seq![bump]]
}

/// The seeds under which the position of `owner` in `pool` signs.
pub open spec fn user_signer_seeds(pool: Address, owner: Address, bump: u8) -> Seq<Seq<u8>> {
    seq![seed_user(), pool@, owner@, seq![bump]]
}

/// A sequence of transfers as mathematical values.
pub open spec fn transfers_view(transfers: Seq<Transfer>) -> Seq<TransferView> {
    transfers.map_values(|t: Transfer| t@)
}

/// A sequence of writes as mathematical values.
pub open spec fn writes_view(writes: Seq<Write>) -> Seq<WriteView> {
    writes.map_values(|w: Write| w@)
}

/// `UpdateConfig` on the accounts `(authority, pool)`.
///
/// Only the signature and the stored authority are checked; the pool's
/// address is not derived again.
pub open spec fn update_config_spec(
    accounts: Seq<AccountView>,
    new_reward_rate: Option<u64>,
    new_min_lock_period: Option<i64>,
) -> Result<StepView, ProgramFault> {
    if accounts.len() < 2 {
        Err(ProgramFault::NotEnoughAccountKeys)
    } else {
        let authority = accounts[0];
        let pool = StakingPool::decode(accounts[1].data@);
        if !authority.is_signer {
            Err(ProgramFault::Staking(StakingError::Unauthorized))
        } else if accounts[1].data@.len() == 0 {
            Err(ProgramFault::UninitializedAccount)
        } else if pool is None {
            Err(ProgramFault::InvalidAccountData)
        } else if pool->0.authority != authority.key {
            Err(ProgramFault::Staking(StakingError::Unauthorized))
        } else {
            Ok(
                StepView::Complete {
                    transfers: Seq::empty(),
                    writes: seq![
                        WriteView {
                            account: 1,
                            data: configured(
                                pool->0,
                                new_reward_rate,
                                new_min_lock_period,
                            ).encoding(),
                        },
                    ],
                },
            )
        }
    }
}

/// What `Stake` checks before it looks at the position: the signature,
/// that the position stands at the address derived for pool and user and
/// the pool at the address derived for the mint, the pool record, the vault,
/// and owner and mint of the caller's token account. `None` where all of it
/// holds, else the first failure.
pub open spec fn stake_admission(program: Address, accounts: Seq<AccountView>) -> Option<
    ProgramFault,
>
    recommends
        accounts.len() >= 7,
{
    let user = accounts[0];
    let mint = accounts[2].key;
    let pool_key = accounts[3].key;
    let derived = user_address(program, pool_key, user.key);
    let pool_at = pool_address(program, mint);
    let pool = StakingPool::decode(accounts[3].data@);
    let vault = token_account(accounts[5].data@);
    let wallet = token_account(accounts[1].data@);
    if !user.is_signer {
        Some(ProgramFault::Staking(StakingError::Unauthorized))
    } else if derived is None || accounts[4].key != address_of(derived->0) {
        Some(ProgramFault::InvalidArgument)
    } else if pool_at is None || pool_key != address_of(pool_at->0) {
        Some(ProgramFault::InvalidArgument)
    } else if pool is None {
        Some(ProgramFault::InvalidAccountData)
    } else if vault is None {
        Some(ProgramFault::InvalidAccountData)
    } else if vault->0.owner != pool_key {
        Some(ProgramFault::Staking(StakingError::InvalidOwner))
    } else if vault->0.mint != mint || pool->0.vault != accounts[5].key {
        Some(ProgramFault::Staking(StakingError::InvalidMint))
    } else if wallet is None {
        Some(ProgramFault::InvalidAccountData)
    } else if wallet->0.owner != user.key {
        Some(ProgramFault::Staking(StakingError::InvalidOwner))
    } else if wallet->0.mint != mint {
        Some(ProgramFault::Staking(StakingError::InvalidMint))
    } else {
        None
    }
}

/// `Stake` on the accounts `(user, user token account, mint, pool,
/// position, vault, token program)`, with the clock's reading.
///
/// An active position fails with `DoubleStake` before the amount is held
/// against the caller's balance, so it does whatever the amount.
pub open spec fn stake_spec(
    program: Address,
    accounts: Seq<AccountView>,
    amount: u64,
    clock: Option<i64>,
) -> Result<StepView, ProgramFault> {
    if amount == 0 {
        Err(ProgramFault::Staking(StakingError::ZeroAmount))
    } else if accounts.len() < 7 {
        Err(ProgramFault::NotEnoughAccountKeys)
    } else if stake_admission(program, accounts) is Some {
        Err(stake_admission(program, accounts)->0)
    } else {
        let user = accounts[0];
        let wallet = token_account(accounts[1].data@)->0;
        let pool = StakingPool::decode(accounts[3].data@)->0;
        let position = UserStake::decode(accounts[4].data@);
        let call = token_transfer(
            accounts[6].key,
            accounts[1].key,
            accounts[5].key,
            user.key,
            amount,
        );
        if position is None {
            Err(ProgramFault::InvalidAccountData)
        } else if position->0.amount != 0 {
            Err(ProgramFault::Staking(StakingError::DoubleStake))
        } else if wallet.amount < amount {
            Err(ProgramFault::Staking(StakingError::VaultInsufficient))
        } else if position->0.owner != user.key || position->0.pool != accounts[3].key {
            Err(ProgramFault::Staking(StakingError::InvalidOwner))
        } else if call is None {
            Err(ProgramFault::IncorrectProgramId)
        } else if clock is None {
            Err(ProgramFault::UnsupportedSysvar)
        } else if pool.total_staked + amount > u64::MAX {
            Err(ProgramFault::Staking(StakingError::Overflow))
        } else {
            Ok(
                StepView::Complete {
                    transfers: seq![
                        TransferView {
                            amount,
                            call: InvocationView {
                                instruction: call->0,
                                accounts: seq![1usize, 5usize, 0usize, 6usize],
                                signer_seeds: None,
                            },
                        },
                    ],
                    writes: seq![
                        WriteView {
                            account: 4,
                            data: opened(position->0, amount, clock->0).encoding(),
                        },
                        WriteView { account: 3, data: pool_plus(pool, amount).encoding() },
                    ],
                },
            )
        }
    }
}

/// The records and token accounts that a payout reads.
#[derive(Clone, Copy, Debug, PartialEq, Eq)]
pub struct Holdings {
    pub pool: StakingPool,
    pub position: UserStake,
    pub vault: TokenAccount,
    pub wallet: TokenAccount,
}

/// What `ClaimRewards` and `Unstake` check of the accounts `(user, user
/// token account, mint, position, pool, vault, token program)` before they
/// look at the clock: the signature, then that the position stands at the
/// address derived for pool and user and the pool at the address derived
/// for the mint, then the records and the token accounts.
pub open spec fn payout_holdings(program: Address, accounts: Seq<AccountView>) -> Result<
    Holdings,
    ProgramFault,
> {
    if accounts.len() < 7 {
        Err(ProgramFault::NotEnoughAccountKeys)
    } else {
        let user = accounts[0];
        let mint = accounts[2].key;
        let pool_key = accounts[4].key;
        let position_at = user_address(program, pool_key, user.key);
        let pool_at = pool_address(program, mint);
        let pool = StakingPool::decode(accounts[4].data@);
        let position = UserStake::decode(accounts[3].data@);
        let vault = token_account(accounts[5].data@);
        let wallet = token_account(accounts[1].data@);
        if !user.is_signer {
            Err(ProgramFault::Staking(StakingError::Unauthorized))
        } else if position_at is None || accounts[3].key != address_of(position_at->0) {
            Err(ProgramFault::InvalidArgument)
        } else if pool_at is None || pool_key != address_of(pool_at->0) {
            Err(ProgramFault::InvalidArgument)
        } else if pool is None {
            Err(ProgramFault::InvalidAccountData)
        } else if position is None {
            Err(ProgramFault::InvalidAccountData)
        } else if position->0.owner != user.key || position->0.pool != pool_key {
            Err(ProgramFault::Staking(StakingError::InvalidOwner))
        } else if vault is None {
            Err(ProgramFault::InvalidAccountData)
        } else if wallet is None {
            Err(ProgramFault::InvalidAccountData)
        } else if vault->0.owner != pool_key || pool->0.vault != accounts[5].key {
            Err(ProgramFault::Staking(StakingError::InvalidOwner))
        } else if vault->0.mint != mint || wallet->0.mint != mint {
            Err(ProgramFault::Staking(StakingError::InvalidMint))
        } else if wallet->0.owner != user.key {
            Err(ProgramFault::Staking(StakingError::InvalidOwner))
        } else {
            Ok(
                Holdings {
                    pool: pool->0,
                    position: position->0,
                    vault: vault->0,
                    wallet: wallet->0,
                },
            )
        }
    }
}

/// A transfer of `amount` from the vault to the user's token account,
/// signed by the pool: the token program must be the right one, and the pool
/// account must stand at the address derived for the vault's mint.
pub open spec fn pool_transfer(
    program: Address,
    accounts: Seq<AccountView>,
    mint: Address,
    amount: u64,
) -> Result<TransferView, ProgramFault> {
    let call = token_transfer(
        accounts[6].key,
        accounts[5].key,
        accounts[1].key,
        accounts[4].key,
        amount,
    );
    let derived = pool_address(program, mint);
    if accounts.len() < 7 {
        Err(ProgramFault::NotEnoughAccountKeys)
    } else if call is None {
        Err(ProgramFault::IncorrectProgramId)
    } else if derived is None || accounts[4].key != address_of(derived->0) {
        Err(ProgramFault::InvalidArgument)
    } else {
        Ok(
            TransferView {
                amount,
                call: InvocationView {
                    instruction: call->0,
                    accounts: seq![5usize, 1usize, 4usize, 6usize],
                    signer_seeds: Some(pool_signer_seeds(mint, bump_of(derived->0))),
                },
            },
        )
    }
}

/// What a settlement comes to: the payment to make, if any, and the new
/// total of rewards paid.
pub struct Settlement {
    pub payment: Option<TransferView>,
    pub claimed: u64,
}

/// Settlement of an active position at `now`: the reward to pay, if any, and
/// the new total of rewards paid.
///
/// The reward is `reward_due` over the time since the last settlement,
/// exactly. A reward of zero moves nothing.
pub open spec fn settlement(
    program: Address,
    accounts: Seq<AccountView>,
    held: Holdings,
    now: i64,
) -> Result<Settlement, ProgramFault> {
    let due = reward_due(
        seconds_between(held.position.last_claim_time, now),
        held.position.amount as nat,
        held.pool.reward_rate as nat,
    );
    let payment = pool_transfer(program, accounts, held.vault.mint, due as u64);
    if accounts.len() < 7 {
        Err(ProgramFault::NotEnoughAccountKeys)
    } else if now < held.position.last_claim_time {
        Err(ProgramFault::Staking(StakingError::TimeWentBackwards))
    } else if due > u64::MAX {
        Err(ProgramFault::Staking(StakingError::Overflow))
    } else if due == 0 {
        Ok(Settlement { payment: None, claimed: held.position.rewards_claimed })
    } else if held.vault.amount < due {
        Err(ProgramFault::Staking(StakingError::VaultInsufficient))
    } else if payment is Err {
        Err(payment->Err_0)
    } else if held.position.rewards_claimed + due > u64::MAX {
        Err(ProgramFault::Staking(StakingError::Overflow))
    } else {
        Ok(
            Settlement {
                payment: Some(payment->Ok_0),
                claimed: (held.position.rewards_claimed + due) as u64,
            },
        )
    }
}

/// The number of units that zero or one transfer moves.
pub open spec fn amount_paid(transfer: Option<TransferView>) -> u64 {
    match transfer {
        Some(t) => t.amount,
        None => 0,
    }
}

/// Zero or one transfer as a sequence.
pub open spec fn optional_transfer(transfer: Option<TransferView>) -> Seq<TransferView> {
    match transfer {
        Some(t) => seq![t],
        None => Seq::empty(),
    }
}

/// `ClaimRewards`, with the clock's reading.
pub open spec fn claim_spec(
    program: Address,
    accounts: Seq<AccountView>,
    clock: Option<i64>,
) -> Result<StepView, ProgramFault> {
    let held = payout_holdings(program, accounts);
    if held is Err {
        Err(held->Err_0)
    } else if clock is None {
        Err(ProgramFault::UnsupportedSysvar)
    } else {
        let position = held->Ok_0.position;
        let now = clock->0;
        let paid = settlement(program, accounts, held->Ok_0, now);
        if now < position.last_claim_time {
            Err(ProgramFault::Staking(StakingError::TimeWentBackwards))
        } else if position.amount == 0 {
            Ok(nothing_to_do())
        } else if paid is Err {
            Err(paid->Err_0)
        } else {
            Ok(
                StepView::Complete {
                    transfers: optional_transfer(paid->Ok_0.payment),
                    writes: seq![
                        WriteView {
                            account: 3,
                            data: settled(position, paid->Ok_0.claimed, now).encoding(),
                        },
                    ],
                },
            )
        }
    }
}

/// `Unstake`, with the clock's reading.
///
/// The lock is checked before anything else that depends on the position,
/// so an unstake before the lock has run out fails with `LockActive` whether
/// or not the position is active. The vault must hold the reward, and then,
/// with the reward gone, the principal.
pub open spec fn unstake_spec(
    program: Address,
    accounts: Seq<AccountView>,
    clock: Option<i64>,
) -> Result<StepView, ProgramFault> {
    let held = payout_holdings(program, accounts);
    if held is Err {
        Err(held->Err_0)
    } else if clock is None {
        Err(ProgramFault::UnsupportedSysvar)
    } else {
        let pool = held->Ok_0.pool;
        let position = held->Ok_0.position;
        let vault = held->Ok_0.vault;
        let now = clock->0;
        let staked = position.amount;
        let paid = settlement(program, accounts, held->Ok_0, now);
        let refund = pool_transfer(program, accounts, vault.mint, staked);
        if now < position.start_time {
            Err(ProgramFault::Staking(StakingError::TimeWentBackwards))
        } else if now - position.start_time < pool.min_lock_period {
            Err(ProgramFault::Staking(StakingError::LockActive))
        } else if staked == 0 {
            Ok(nothing_to_do())
        } else if paid is Err {
            Err(paid->Err_0)
        } else if vault.amount - amount_paid(paid->Ok_0.payment) < staked {
            Err(ProgramFault::Staking(StakingError::VaultInsufficient))
        } else if refund is Err {
            Err(refund->Err_0)
        } else if pool.total_staked < staked {
            Err(ProgramFault::Staking(StakingError::Overflow))
        } else {
            Ok(
                StepView::Complete {
                    transfers: optional_transfer(paid->Ok_0.payment) + seq![refund->Ok_0],
                    writes: seq![
                        WriteView {
                            account: 3,
                            data: closed(position, paid->Ok_0.claimed).encoding(),
                        },
                        WriteView { account: 4, data: pool_minus(pool, staked).encoding() },
                    ],
                },
            )
        }
    }
}

/// The empty list of transfers.
pub(crate) fn no_transfers() -> (transfers: Vec<Transfer>)
    ensures
        transfers_view(transfers@) == Seq::<TransferView>::empty(),
{
    let transfers: Vec<Transfer> = Vec::new();
    assert(transfers_view(transfers@) =~= Seq::<TransferView>::empty());
    transfers
}

/// The empty list of writes.
pub(crate) fn no_writes() -> (writes: Vec<Write>)
    ensures
        writes_view(writes@) == Seq::<WriteView>::empty(),
{
    let writes: Vec<Write> = Vec::new();
    assert(writes_view(writes@) =~= Seq::<WriteView>::empty());
    writes
}

/// The list that holds one write.
pub(crate) fn one_write(account: usize, data: Vec<u8>) -> (writes: Vec<Write>)
    ensures
        writes_view(writes@) == (seq![WriteView { account, data: data@ }]),
{
    let mut writes: Vec<Write> = Vec::new();
    writes.push(Write { account, data });
    assert(writes_view(writes@) =~= seq![WriteView { account, data: data@ }]);
    writes
}

/// The list that holds two writes, in this order.
fn two_writes(
    first: usize,
    first_data: Vec<u8>,
    second: usize,
    second_data: Vec<u8>,
) -> (writes: Vec<Write>)
    ensures
        writes_view(writes@) == (seq![
            WriteView { account: first, data: first_data@ },
            WriteView { account: second, data: second_data@ },
        ]),
{
    let mut writes: Vec<Write> = Vec::new();
    writes.push(Write { account: first, data: first_data });
    writes.push(Write { account: second, data: second_data });
    assert(writes_view(writes@) =~= seq![
        WriteView { account: first, data: first_data@ },
        WriteView { account: second, data: second_data@ },
    ]);
    writes
}

/// The list that holds the transfer, if there is one.
fn transfer_list(transfer: Option<Transfer>) -> (transfers: Vec<Transfer>)
    ensures
        transfers_view(transfers@) == optional_transfer(
            match transfer {
                Some(t) => Some(t@),
                None => None,
            },
        ),
{
    let mut transfers: Vec<Transfer> = Vec::new();
    match transfer {
        Some(t) => {
            transfers.push(t);
            assert(transfers_view(transfers@) =~= seq![t@]);
        },
        None => {
            assert(transfers_view(transfers@) =~= Seq::<TransferView>::empty());
        },
    }
    transfers
}

/// The final step of an operation.
pub(crate) fn complete(transfers: Vec<Transfer>, writes: Vec<Write>) -> (step: Step)
    ensures
        step@ == (StepView::Complete {
            transfers: transfers_view(transfers@),
            writes: writes_view(writes@),
        }),
{
    Step::Complete { transfers, writes }
}

/// The seeds under which the pool of `mint` signs.
pub(crate) fn pool_seeds(mint: &Address, bump: u8) -> (seeds: Vec<Vec<u8>>)
    ensures
        seeds_view(seeds@) == pool_signer_seeds(*mint, bump),
{
    let mut last: Vec<u8> = Vec::new();
    last.push(bump);
    let mut seeds: Vec<Vec<u8>> = Vec::new();
    seeds.push(seed_pool_bytes());
    seeds.push(mint.to_vec());
    seeds.push(last);
    assert(seeds_view(seeds@) =~= pool_signer_seeds(*mint, bump));
    seeds
}

/// Changes the pool's configuration on the word of its authority.
///
/// Fails with `Unauthorized` unless the first account signed and is the
/// stored authority; a failure stores nothing.
pub fn process_update_config(
    _program_id: &Address,
    accounts: &[AccountView],
    new_reward_rate: Option<u64>,
    new_min_lock_period: Option<i64>,
) -> (outcome: Result<Step, ProgramFault>)
    ensures
        outcome_view(outcome) == update_config_spec(
            accounts@,
            new_reward_rate,
            new_min_lock_period,
        ),
{
    if accounts.len() < 2 {
        return Err(ProgramFault::NotEnoughAccountKeys);
    }
    let authority = &accounts[0];
    let pool_account = &accounts[1];
    if !authority.is_signer {
        return Err(ProgramFault::Staking(StakingError::Unauthorized));
    }
    if pool_account.data.len() == 0 {
        return Err(ProgramFault::UninitializedAccount);
    }
    let mut pool = match StakingPool::unpack(pool_account.data.as_slice()) {
        Some(pool) => pool,
        None => {
            return Err(ProgramFault::InvalidAccountData);
        },
    };
    if pool.authority != authority.key {
        return Err(ProgramFault::Staking(StakingError::Unauthorized));
    }
    if let Some(rate) = new_reward_rate {
        pool.reward_rate = rate;
    }
    if let Some(period) = new_min_lock_period {
        pool.min_lock_period = period;
    }
    Ok(complete(no_transfers(), one_write(1, pool.pack())))
}

/// Stakes `amount` tokens of the caller.
///
/// On success the outcome moves exactly `amount` from the caller's token
/// account to the vault on the caller's own signature, activates the
/// position at the clock's reading and raises the pool's total by `amount`.
/// A zero amount fails with `ZeroAmount` before anything is looked at. The
/// position must stand at the address derived for pool and user, and the
/// pool at the address derived for the mint (`InvalidArgument`). An active
/// position fails with `DoubleStake`, whatever the amount; an amount above
/// the caller's balance on an inactive one with `VaultInsufficient`. A
/// failure stores nothing.
pub fn process_stake(
    program_id: &Address,
    accounts: &[AccountView],
    amount: u64,
    clock: Option<i64>,
) -> (outcome: Result<Step, ProgramFault>)
    ensures
        outcome_view(outcome) == stake_spec(*program_id, accounts@, amount, clock),
{
    if amount == 0 {
        return Err(ProgramFault::Staking(StakingError::ZeroAmount));
    }
    if accounts.len() < 7 {
        return Err(ProgramFault::NotEnoughAccountKeys);
    }
    let user = &accounts[0];
    let wallet_account = &accounts[1];
    let mint = &accounts[2];
    let pool_account = &accounts[3];
    let position_account = &accounts[4];
    let vault_account = &accounts[5];
    let token_program = &accounts[6];
    if !user.is_signer {
        return Err(ProgramFault::Staking(StakingError::Unauthorized));
    }
    let expected = match find_user_pda(program_id, &pool_account.key, &user.key) {
        Some((address, _)) => address,
        None => {
            return Err(ProgramFault::InvalidArgument);
        },
    };
    if position_account.key != expected {
        return Err(ProgramFault::InvalidArgument);
    }
    match find_pool_pda(program_id, &mint.key) {
        Some((expected_pool, _)) => {
            if pool_account.key != expected_pool {
                return Err(ProgramFault::InvalidArgument);
            }
        },
        None => {
            return Err(ProgramFault::InvalidArgument);
        },
    }
    let mut pool = match StakingPool::unpack(pool_account.data.as_slice()) {
        Some(pool) => pool,
        None => {
            return Err(ProgramFault::InvalidAccountData);
        },
    };
    let vault = match unpack_token_account(&vault_account.data) {
        Some(vault) => vault,
        None => {
            return Err(ProgramFault::InvalidAccountData);
        },
    };
    if vault.owner != pool_account.key {
        return Err(ProgramFault::Staking(StakingError::InvalidOwner));
    }
    if vault.mint != mint.key || pool.vault != vault_account.key {
        return Err(ProgramFault::Staking(StakingError::InvalidMint));
    }
    let wallet = match unpack_token_account(&wallet_account.data) {
        Some(wallet) => wallet,
        None => {
            return Err(ProgramFault::InvalidAccountData);
        },
    };
    if wallet.owner != user.key {
        return Err(ProgramFault::Staking(StakingError::InvalidOwner));
    }
    if wallet.mint != mint.key {
        return Err(ProgramFault::Staking(StakingError::InvalidMint));
    }
    let mut position = match UserStake::unpack(position_account.data.as_slice()) {
        Some(position) => position,
        None => {
            return Err(ProgramFault::InvalidAccountData);
        },
    };
    if position.amount != 0 {
        return Err(ProgramFault::Staking(StakingError::DoubleStake));
    }
    if wallet.amount < amount {
        return Err(ProgramFault::Staking(StakingError::VaultInsufficient));
    }
    if position.owner != user.key || position.pool != pool_account.key {
        return Err(ProgramFault::Staking(StakingError::InvalidOwner));
    }
    let instruction = match build_token_transfer(
        &token_program.key,
        &wallet_account.key,
        &vault_account.key,
        &user.key,
        amount,
    ) {
        Some(instruction) => instruction,
        None => {
            return Err(ProgramFault::IncorrectProgramId);
        },
    };
    let now: i64 = match clock {
        Some(now) => now,
        None => {
            return Err(ProgramFault::UnsupportedSysvar);
        },
    };
    position.amount = amount;
    position.start_time = now;
    position.last_claim_time = now;
    pool.total_staked = match pool.total_staked.checked_add(amount) {
        Some(total) => total,
        None => {
            return Err(ProgramFault::Staking(StakingError::Overflow));
        },
    };
    let transfer = Transfer {
        amount,
        call: Invocation {
            instruction,
            accounts: vec![1usize, 5usize, 0usize, 6usize],
            signer_seeds: None,
        },
    };
    Ok(
        complete(
            transfer_list(Some(transfer)),
            two_writes(4, position.pack(), 3, pool.pack()),
        ),
    )
}

/// Checks the accounts of a payout and reads the records and token accounts
/// among them.
pub fn read_payout_accounts(program_id: &Address, accounts: &[AccountView]) -> (held: Result<
    Holdings,
    ProgramFault,
>)
    ensures
        held == payout_holdings(*program_id, accounts@),
{
    if accounts.len() < 7 {
        return Err(ProgramFault::NotEnoughAccountKeys);
    }
    let user = &accounts[0];
    let wallet_account = &accounts[1];
    let mint = &accounts[2];
    let position_account = &accounts[3];
    let pool_account = &accounts[4];
    let vault_account = &accounts[5];
    if !user.is_signer {
        return Err(ProgramFault::Staking(StakingError::Unauthorized));
    }
    match find_user_pda(program_id, &pool_account.key, &user.key) {
        Some((expected, _)) => {
            if position_account.key != expected {
                return Err(ProgramFault::InvalidArgument);
            }
        },
        None => {
            return Err(ProgramFault::InvalidArgument);
        },
    }
    match find_pool_pda(program_id, &mint.key) {
        Some((expected, _)) => {
            if pool_account.key != expected {
                return Err(ProgramFault::InvalidArgument);
            }
        },
        None => {
            return Err(ProgramFault::InvalidArgument);
        },
    }
    let pool = match StakingPool::unpack(pool_account.data.as_slice()) {
        Some(pool) => pool,
        None => {
            return Err(ProgramFault::InvalidAccountData);
        },
    };
    let position = match UserStake::unpack(position_account.data.as_slice()) {
        Some(position) => position,
        None => {
            return Err(ProgramFault::InvalidAccountData);
        },
    };
    if position.owner != user.key || position.pool != pool_account.key {
        return Err(ProgramFault::Staking(StakingError::InvalidOwner));
    }
    let vault = match unpack_token_account(&vault_account.data) {
        Some(vault) => vault,
        None => {
            return Err(ProgramFault::InvalidAccountData);
        },
    };
    let wallet = match unpack_token_account(&wallet_account.data) {
        Some(wallet) => wallet,
        None => {
            return Err(ProgramFault::InvalidAccountData);
        },
    };
    if vault.owner != pool_account.key || pool.vault != vault_account.key {
        return Err(ProgramFault::Staking(StakingError::InvalidOwner));
    }
    if vault.mint != mint.key || wallet.mint != mint.key {
        return Err(ProgramFault::Staking(StakingError::InvalidMint));
    }
    if wallet.owner != user.key {
        return Err(ProgramFault::Staking(StakingError::InvalidOwner));
    }
    Ok(Holdings { pool, position, vault, wallet })
}

/// The transfer's view, where there is one.
pub open spec fn transfer_outcome_view(outcome: Result<Transfer, ProgramFault>) -> Result<
    TransferView,
    ProgramFault,
> {
    match outcome {
        Ok(transfer) => Ok(transfer@),
        Err(fault) => Err(fault),
    }
}

/// Prepares a transfer from the vault to the user's token account in the
/// pool's name. Fewer than the seven accounts of a payout fail with
/// `NotEnoughAccountKeys`.
pub fn plan_pool_transfer(
    program_id: &Address,
    accounts: &[AccountView],
    mint: &Address,
    amount: u64,
) -> (planned: Result<Transfer, ProgramFault>)
    ensures
        transfer_outcome_view(planned) == pool_transfer(*program_id, accounts@, *mint, amount),
{
    if accounts.len() < 7 {
        return Err(ProgramFault::NotEnoughAccountKeys);
    }
    let wallet_account = &accounts[1];
    let pool_account = &accounts[4];
    let vault_account = &accounts[5];
    let token_program = &accounts[6];
    let instruction = match build_token_transfer(
        &token_program.key,
        &vault_account.key,
        &wallet_account.key,
        &pool_account.key,
        amount,
    ) {
        Some(instruction) => instruction,
        None => {
            return Err(ProgramFault::IncorrectProgramId);
        },
    };
    let (expected, bump) = match find_pool_pda(program_id, mint) {
        Some(found) => found,
        None => {
            return Err(ProgramFault::InvalidArgument);
        },
    };
    if pool_account.key != expected {
        return Err(ProgramFault::InvalidArgument);
    }
    Ok(
        Transfer {
            amount,
            call: Invocation {
                instruction,
                accounts: vec![5usize, 1usize, 4usize, 6usize],
                signer_seeds: Some(pool_seeds(mint, bump)),
            },
        },
    )
}

/// The settlement's view.
pub open spec fn settlement_view(outcome: Result<(Option<Transfer>, u64), ProgramFault>) -> Result<
    Settlement,
    ProgramFault,
> {
    match outcome {
        Ok((Some(transfer), claimed)) => Ok(Settlement { payment: Some(transfer@), claimed }),
        Ok((None, claimed)) => Ok(Settlement { payment: None, claimed }),
        Err(fault) => Err(fault),
    }
}

/// Settles the rewards of an active position at `now`: computes what is
/// due, checks that the vault can pay it, and prepares the payment. Fewer
/// than the seven accounts of a payout fail with `NotEnoughAccountKeys`, a
/// clock that reads earlier than the last settlement with
/// `TimeWentBackwards`.
pub fn settle(
    program_id: &Address,
    accounts: &[AccountView],
    held: &Holdings,
    now: i64,
) -> (paid: Result<(Option<Transfer>, u64), ProgramFault>)
    ensures
        settlement_view(paid) == settlement(*program_id, accounts@, *held, now),
{
    if accounts.len() < 7 {
        return Err(ProgramFault::NotEnoughAccountKeys);
    }
    let due: u64 = match pending_reward(
        held.position.last_claim_time,
        now,
        held.position.amount,
        held.pool.reward_rate,
    ) {
        Ok(due) => due,
        Err(fault) => {
            return Err(ProgramFault::Staking(fault));
        },
    };
    if due == 0 {
        return Ok((None, held.position.rewards_claimed));
    }
    if held.vault.amount < due {
        return Err(ProgramFault::Staking(StakingError::VaultInsufficient));
    }
    let payment = match plan_pool_transfer(program_id, accounts, &held.vault.mint, due) {
        Ok(payment) => payment,
        Err(fault) => {
            return Err(fault);
        },
    };
    match held.position.rewards_claimed.checked_add(due) {
        Some(claimed) => Ok((Some(payment), claimed)),
        None => Err(ProgramFault::Staking(StakingError::Overflow)),
    }
}

/// Pays out the rewards accrued since the last settlement.
///
/// The position must stand at the address derived for pool and user, and
/// the pool at the address derived for the mint; otherwise the request
/// fails with `InvalidArgument` whether or not anything is due. On success
/// the outcome moves exactly `reward_due` over the time since the last
/// settlement from the vault to the caller's token account in the pool's
/// name, adds it to the rewards paid and advances the settlement time to
/// the clock's reading. An inactive position is left as it is. A
/// vault that holds less than what is due fails with `VaultInsufficient`; a
/// failure moves and stores nothing.
pub fn process_claim(
    program_id: &Address,
    accounts: &[AccountView],
    clock: Option<i64>,
) -> (outcome: Result<Step, ProgramFault>)
    ensures
        outcome_view(outcome) == claim_spec(*program_id, accounts@, clock),
{
    let held = match read_payout_accounts(program_id, accounts) {
        Ok(held) => held,
        Err(fault) => {
            return Err(fault);
        },
    };
    let now: i64 = match clock {
        Some(now) => now,
        None => {
            return Err(ProgramFault::UnsupportedSysvar);
        },
    };
    if now < held.position.last_claim_time {
        return Err(ProgramFault::Staking(StakingError::TimeWentBackwards));
    }
    if held.position.amount == 0 {
        return Ok(complete(no_transfers(), no_writes()));
    }
    let (payment, claimed) = match settle(program_id, accounts, &held, now) {
        Ok(paid) => paid,
        Err(fault) => {
            return Err(fault);
        },
    };
    let mut position = held.position;
    position.rewards_claimed = claimed;
    position.last_claim_time = now;
    Ok(complete(transfer_list(payment), one_write(3, position.pack())))
}

/// Settles the rewards and returns the principal.
///
/// The accounts are checked as for a claim, the derived addresses of
/// position and pool included. Fails with `LockActive` while less than the pool's lock period has
/// passed since the stake began, and succeeds from exactly that moment on.
/// On success the outcome pays the reward as a claim would, moves the whole
/// principal from the vault to the caller's token account in the pool's
/// name, deactivates the position and lowers the pool's total by the
/// principal. A vault that does not hold reward and principal together
/// fails with `VaultInsufficient`. A failure moves and stores nothing.
pub fn process_unstake(
    program_id: &Address,
    accounts: &[AccountView],
    clock: Option<i64>,
) -> (outcome: Result<Step, ProgramFault>)
    ensures
        outcome_view(outcome) == unstake_spec(*program_id, accounts@, clock),
{
    let held = match read_payout_accounts(program_id, accounts) {
        Ok(held) => held,
        Err(fault) => {
            return Err(fault);
        },
    };
    let now: i64 = match clock {
        Some(now) => now,
        None => {
            return Err(ProgramFault::UnsupportedSysvar);
        },
    };
    if now < held.position.start_time {
        return Err(ProgramFault::Staking(StakingError::TimeWentBackwards));
    }
    if (now as i128) - (held.position.start_time as i128) < held.pool.min_lock_period as i128 {
        return Err(ProgramFault::Staking(StakingError::LockActive));
    }
    let staked: u64 = held.position.amount;
    if staked == 0 {
        return Ok(complete(no_transfers(), no_writes()));
    }
    let (payment, claimed) = match settle(program_id, accounts, &held, now) {
        Ok(paid) => paid,
        Err(fault) => {
            return Err(fault);
        },
    };
    let reward: u64 = match &payment {
        Some(transfer) => transfer.amount,
        None => 0,
    };
    if held.vault.amount - reward < staked {
        return Err(ProgramFault::Staking(StakingError::VaultInsufficient));
    }
    let refund = match plan_pool_transfer(program_id, accounts, &held.vault.mint, staked) {
        Ok(refund) => refund,
        Err(fault) => {
            return Err(fault);
        },
    };
    let mut position = held.position;
    position.rewards_claimed = claimed;
    position.amount = 0;
    position.start_time = 0;
    position.last_claim_time = 0;
    let mut pool = held.pool;
    pool.total_staked = match pool.total_staked.checked_sub(staked) {
        Some(total) => total,
        None => {
            return Err(ProgramFault::Staking(StakingError::Overflow));
        },
    };
    let mut transfers = transfer_list(payment);
    let ghost before = transfers_view(transfers@);
    let ghost refund_view = refund@;
    transfers.push(refund);
    assert(transfers_view(transfers@) =~= before + seq![refund_view]);
    Ok(complete(transfers, two_writes(3, position.pack(), 4, pool.pack())))
}

/// What a request comes to: the payload is decoded and the operation it
/// names is run on the accounts.
///
/// Only the two provisioning operations run in stages; every other one is
/// run at `Start`.
pub open spec fn process_spec(
    program: Address,
    accounts: Seq<AccountView>,
    instruction_data: Seq<u8>,
    clock: Option<i64>,
    stage: Stage,
) -> Result<StepView, ProgramFault> {
    match StakingInstruction::decode(instruction_data) {
        None => Err(ProgramFault::InvalidInstructionData),
        Some(StakingInstruction::InitializePool { reward_rate, min_lock_period }) => {
            initialize_pool_spec(program, accounts, reward_rate, min_lock_period, stage)
        },
        Some(StakingInstruction::InitializeUser) => initialize_user_spec(program, accounts, stage),
        Some(operation) => {
            if stage != Stage::Start {
                Err(ProgramFault::InvalidArgument)
            } else {
                match operation {
                    StakingInstruction::UpdateConfig { new_reward_rate, new_min_lock_period } => {
                        update_config_spec(accounts, new_reward_rate, new_min_lock_period)
                    },
                    StakingInstruction::Stake { amount } => {
                        stake_spec(program, accounts, amount, clock)
                    },
                    StakingInstruction::ClaimRewards => claim_spec(program, accounts, clock),
                    _ => unstake_spec(program, accounts, clock),
                }
            }
        },
    }
}

/// Processes one request.
///
/// `accounts` are snapshots of the accounts the request names, in the order
/// the operation lays down; `clock` is the current time in seconds, where
/// the host could read it; `stage` is `Start` for a new request and
/// otherwise the stage handed out with the last allocation.
///
/// Returns what the host has to do, or the failure. A payload that encodes
/// no operation fails with `InvalidInstructionData`.
pub fn process_instruction(
    program_id: &Address,
    accounts: &[AccountView],
    instruction_data: &[u8],
    clock: Option<i64>,
    stage: Stage,
) -> (outcome: Result<Step, ProgramFault>)
    ensures
        outcome_view(outcome) == process_spec(
            *program_id,
            accounts@,
            instruction_data@,
            clock,
            stage,
        ),
{
    let operation = match StakingInstruction::unpack(instruction_data) {
        Some(operation) => operation,
        None => {
            return Err(ProgramFault::InvalidInstructionData);
        },
    };
    match operation {
        StakingInstruction::InitializePool { reward_rate, min_lock_period } => {
            process_initialize_pool(program_id, accounts, reward_rate, min_lock_period, stage)
        },
        StakingInstruction::InitializeUser => process_initialize_user(program_id, accounts, stage),
        StakingInstruction::UpdateConfig { new_reward_rate, new_min_lock_period } => {
            if stage != Stage::Start {
                return Err(ProgramFault::InvalidArgument);
            }
            process_update_config(program_id, accounts, new_reward_rate, new_min_lock_period)
        },
        StakingInstruction::Stake { amount } => {
            if stage != Stage::Start {
                return Err(ProgramFault::InvalidArgument);
            }
            process_stake(program_id, accounts, amount, clock)
        },
        StakingInstruction::ClaimRewards => {
            if stage != Stage::Start {
                return Err(ProgramFault::InvalidArgument);
            }
            process_claim(program_id, accounts, clock)
        },
        StakingInstruction::Unstake => {
            if stage != Stage::Start {
                return Err(ProgramFault::InvalidArgument);
            }
            process_unstake(program_id, accounts, clock)
        },
    }
}

} // verus!
