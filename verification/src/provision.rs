//! Account provisioning: the two operations that create the records.
//!
//! Creating storage is a call into another program, and what the call left
//! behind has to be looked at before the record is written. Such an
//! operation therefore runs in stages: it hands out the call, and is run
//! again on fresh snapshots once the call has been made.

use vstd::prelude::*;
use crate::address::{
    address_of, bump_of, find_pool_pda, find_user_pda, pool_address, program_address,
    seed_user_bytes, user_address, Address,
};
use crate::codec::{bytes_from, bytes_from_view, i64_le, u64_le, write_slice};
use crate::cpi::{
    account_creation, associated_token_program, build_account_creation, plan_vault_creation,
    vault_creation, vault_seeds,
};
use crate::error::{ProgramFault, StakingError};
use crate::processor::{
    complete, no_transfers, one_write, pool_seeds, pool_signer_seeds, user_signer_seeds,
};
use crate::rent::{exempt_minimum, rent_exempt_minimum};
use crate::state::{StakingPool, UserStake, STAKING_POOL_SIZE, USER_STAKE_SIZE};
use crate::step::{
    outcome_view, seeds_view, AccountView, Invocation, InvocationView, Stage, Step, StepView,
    WriteView,
};
use crate::token::{token_account, unpack_token_account};

verus! {

/// `n` zero bytes.
pub open spec fn zeros(n: nat) -> Seq<u8> {
    Seq::new(n, |i: int| 0u8)
}

/// The stored form of a pool record as `InitializePool` writes it: nothing
/// staked, reserved bytes zero.
pub open spec fn fresh_pool_record(
    authority: Address,
    vault: Address,
    reward_rate: u64,
    min_lock_period: i64,
    bump: u8,
) -> Seq<u8> {
    authority@ + vault@ + u64_le(reward_rate) + i64_le(min_lock_period) + u64_le(0) + seq![bump]
        + zeros(23)
}

/// The stored form of a position as `InitializeUser` writes it: owner and
/// pool set, everything else zero.
pub open spec fn fresh_position_record(owner: Address, pool: Address) -> Seq<u8> {
    owner@ + pool@ + u64_le(0) + i64_le(0) + i64_le(0) + u64_le(0) + zeros(8)
}

/// What `InitializePool` writes is the record of a pool with the given
/// configuration and nothing staked.
pub proof fn fresh_pool_record_decodes(
    authority: Address,
    vault: Address,
    reward_rate: u64,
    min_lock_period: i64,
    bump: u8,
)
    ensures
        ({
            let stored = StakingPool::decode(
                fresh_pool_record(authority, vault, reward_rate, min_lock_period, bump),
            );
            &&& stored is Some
            &&& stored->0.authority == authority
            &&& stored->0.vault == vault
            &&& stored->0.reward_rate == reward_rate
            &&& stored->0.min_lock_period == min_lock_period
            &&& stored->0.total_staked == 0
            &&& stored->0.bump == bump
            &&& stored->0._reserved@ == zeros(23)
        }),
{
    let pool = StakingPool {
        authority,
        vault,
        reward_rate,
        min_lock_period,
        total_staked: 0,
        bump,
        _reserved: bytes_from::<23>(zeros(23)),
    };
    bytes_from_view::<23>(zeros(23));
    assert(pool.encoding() =~= fresh_pool_record(
        authority,
        vault,
        reward_rate,
        min_lock_period,
        bump,
    ));
    pool.decode_of_encoding();
}

/// What `InitializeUser` writes is the record of an inactive position of
/// `owner` in `pool` with nothing claimed.
pub proof fn fresh_position_record_decodes(owner: Address, pool: Address)
    ensures
        ({
            let stored = UserStake::decode(fresh_position_record(owner, pool));
            &&& stored is Some
            &&& stored->0.is_fresh(owner, pool)
        }),
{
    let position = UserStake {
        owner,
        pool,
        amount: 0,
        start_time: 0,
        last_claim_time: 0,
        rewards_claimed: 0,
        _reserved: bytes_from::<8>(zeros(8)),
    };
    bytes_from_view::<8>(zeros(8));
    assert(position.encoding() =~= fresh_position_record(owner, pool));
    position.decode_of_encoding();
}

/// `data` with `record` written over its beginning.
pub open spec fn overwritten(data: Seq<u8>, record: Seq<u8>) -> Seq<u8>
    recommends
        record.len() <= data.len(),
{
    record + data.subrange(record.len() as int, data.len() as int)
}

/// Last stage of `InitializePool`: the vault must be a token account of the
/// pool for the mint; then the record is written.
pub open spec fn pool_record_step(
    accounts: Seq<AccountView>,
    reward_rate: u64,
    min_lock_period: i64,
    bump: u8,
) -> Result<StepView, ProgramFault>
    recommends
        accounts.len() >= 9,
{
    let vault = token_account(accounts[4].data@);
    let record = fresh_pool_record(
        accounts[1].key,
        accounts[4].key,
        reward_rate,
        min_lock_period,
        bump,
    );
    if vault is None {
        Err(ProgramFault::InvalidAccountData)
    } else if vault->0.owner != accounts[2].key {
        Err(ProgramFault::Staking(StakingError::InvalidOwner))
    } else if vault->0.mint != accounts[3].key {
        Err(ProgramFault::Staking(StakingError::InvalidMint))
    } else if accounts[2].data@.len() < 112 {
        Err(ProgramFault::AccountDataTooSmall)
    } else {
        Ok(
            StepView::Complete {
                transfers: Seq::empty(),
                writes: seq![
                    WriteView { account: 2, data: overwritten(accounts[2].data@, record) },
                ],
            },
        )
    }
}

/// `InitializePool` once the pool's storage exists: a vault without storage
/// is created first, an existing one is checked at once.
pub open spec fn pool_vault_step(
    accounts: Seq<AccountView>,
    reward_rate: u64,
    min_lock_period: i64,
    bump: u8,
) -> Result<StepView, ProgramFault>
    recommends
        accounts.len() >= 9,
{
    if accounts[4].data@.len() == 0 {
        if program_address(
            vault_seeds(accounts[2].key, accounts[5].key, accounts[3].key),
            associated_token_program(),
        ) is None {
            Err(ProgramFault::InvalidArgument)
        } else {
            Ok(
                StepView::Allocate {
                    call: InvocationView {
                        instruction: vault_creation(
                            accounts[0].key,
                            accounts[2].key,
                            accounts[3].key,
                            accounts[5].key,
                        ),
                        accounts: seq![
                            0usize,
                            4usize,
                            2usize,
                            3usize,
                            7usize,
                            5usize,
                            6usize,
                            8usize,
                        ],
                        signer_seeds: None,
                    },
                    resume: Stage::VaultCreated,
                },
            )
        }
    } else {
        pool_record_step(accounts, reward_rate, min_lock_period, bump)
    }
}

/// The balance check that follows the creation of a record's storage: the
/// account at `created` must hold the minimum for its size, by the rent
/// record in the account at `rent`.
pub open spec fn rent_fault(accounts: Seq<AccountView>, created: int, rent: int) -> Option<
    ProgramFault,
>
    recommends
        0 <= created < accounts.len(),
        0 <= rent < accounts.len(),
{
    let minimum = exempt_minimum(
        accounts[rent].key,
        accounts[rent].data@,
        accounts[created].data@.len(),
    );
    if minimum is None {
        Some(ProgramFault::InvalidArgument)
    } else if accounts[created].lamports < minimum->0 {
        Some(ProgramFault::Staking(StakingError::NotRentExempt))
    } else {
        None
    }
}

/// The creation of a record's storage: `size` bytes at the account at
/// `created`, funded by the payer with the minimum for that size and owned
/// by the program, signed for with `seeds`.
pub open spec fn allocation(
    program: Address,
    accounts: Seq<AccountView>,
    created: int,
    system: int,
    rent: int,
    size: usize,
    seeds: Seq<Seq<u8>>,
    resume: Stage,
) -> Result<StepView, ProgramFault>
    recommends
        0 <= created < accounts.len(),
        0 <= rent < accounts.len(),
        0 < accounts.len(),
{
    let minimum = exempt_minimum(accounts[rent].key, accounts[rent].data@, size as nat);
    if minimum is None {
        Err(ProgramFault::InvalidArgument)
    } else {
        Ok(
            StepView::Allocate {
                call: InvocationView {
                    instruction: account_creation(
                        accounts[0].key,
                        accounts[created].key,
                        minimum->0,
                        size as u64,
                        program,
                    ),
                    accounts: seq![0usize, created as usize, system as usize],
                    signer_seeds: Some(seeds),
                },
                resume,
            },
        )
    }
}

/// `InitializePool` on the accounts `(payer, authority, pool, mint, vault,
/// token program, associated-token program, system program, rent)`.
pub open spec fn initialize_pool_spec(
    program: Address,
    accounts: Seq<AccountView>,
    reward_rate: u64,
    min_lock_period: i64,
    stage: Stage,
) -> Result<StepView, ProgramFault> {
    if stage == Stage::UserAllocated {
        Err(ProgramFault::InvalidArgument)
    } else if accounts.len() < 9 {
        Err(ProgramFault::NotEnoughAccountKeys)
    } else {
        let derived = pool_address(program, accounts[3].key);
        if !accounts[0].is_signer || !accounts[1].is_signer {
            Err(ProgramFault::Staking(StakingError::Unauthorized))
        } else if derived is None || accounts[2].key != address_of(derived->0) {
            Err(ProgramFault::InvalidArgument)
        } else {
            let bump = bump_of(derived->0);
            if stage == Stage::Start && accounts[2].data@.len() == 0 {
                allocation(
                    program,
                    accounts,
                    2,
                    7,
                    8,
                    112,
                    pool_signer_seeds(accounts[3].key, bump),
                    Stage::PoolAllocated,
                )
            } else if stage == Stage::PoolAllocated && rent_fault(accounts, 2, 8) is Some {
                Err(rent_fault(accounts, 2, 8)->0)
            } else if stage == Stage::VaultCreated {
                pool_record_step(accounts, reward_rate, min_lock_period, bump)
            } else {
                pool_vault_step(accounts, reward_rate, min_lock_period, bump)
            }
        }
    }
}

/// `InitializeUser` on the accounts `(payer, user, pool, position, system
/// program, rent)`.
pub open spec fn initialize_user_spec(
    program: Address,
    accounts: Seq<AccountView>,
    stage: Stage,
) -> Result<StepView, ProgramFault> {
    if stage == Stage::PoolAllocated || stage == Stage::VaultCreated {
        Err(ProgramFault::InvalidArgument)
    } else if accounts.len() < 6 {
        Err(ProgramFault::NotEnoughAccountKeys)
    } else {
        let derived = user_address(program, accounts[2].key, accounts[1].key);
        if !accounts[0].is_signer || !accounts[1].is_signer {
            Err(ProgramFault::Staking(StakingError::Unauthorized))
        } else if derived is None || accounts[3].key != address_of(derived->0) {
            Err(ProgramFault::InvalidArgument)
        } else if stage == Stage::Start && accounts[3].data@.len() == 0 {
            allocation(
                program,
                accounts,
                3,
                4,
                5,
                104,
                user_signer_seeds(accounts[2].key, accounts[1].key, bump_of(derived->0)),
                Stage::UserAllocated,
            )
        } else if stage == Stage::UserAllocated && rent_fault(accounts, 3, 5) is Some {
            Err(rent_fault(accounts, 3, 5)->0)
        } else if accounts[3].data@.len() < 104 {
            Err(ProgramFault::AccountDataTooSmall)
        } else {
            Ok(
                StepView::Complete {
                    transfers: Seq::empty(),
                    writes: seq![
                        WriteView {
                            account: 3,
                            data: overwritten(
                                accounts[3].data@,
                                fresh_position_record(accounts[1].key, accounts[2].key),
                            ),
                        },
                    ],
                },
            )
        }
    }
}

/// Writes `record` over the beginning of a copy of `data`.
fn overwrite(data: &Vec<u8>, record: Vec<u8>) -> (out: Vec<u8>)
    requires
        record@.len() <= data@.len(),
    ensures
        out@ == overwritten(data@, record@),
{
    let mut out = record;
    let start: usize = out.len();
    write_slice(&mut out, data.as_slice(), start, data.len() - start);
    out
}

/// The seeds under which the position of `owner` in `pool` signs.
fn user_seeds(pool: &Address, owner: &Address, bump: u8) -> (seeds: Vec<Vec<u8>>)
    ensures
        seeds_view(seeds@) == user_signer_seeds(*pool, *owner, bump),
{
    let mut last: Vec<u8> = Vec::new();
    last.push(bump);
    let mut seeds: Vec<Vec<u8>> = Vec::new();
    seeds.push(seed_user_bytes());
    seeds.push(pool.to_vec());
    seeds.push(owner.to_vec());
    seeds.push(last);
    assert(seeds_view(seeds@) =~= user_signer_seeds(*pool, *owner, bump));
    seeds
}

/// Checks that a newly created account holds the minimum balance for its
/// size.
fn check_rent(accounts: &[AccountView], created: usize, rent: usize) -> (fault: Option<
    ProgramFault,
>)
    requires
        created < accounts@.len(),
        rent < accounts@.len(),
    ensures
        fault == rent_fault(accounts@, created as int, rent as int),
{
    let account = &accounts[created];
    let record = &accounts[rent];
    match rent_exempt_minimum(&record.key, &record.data, account.data.len()) {
        None => Some(ProgramFault::InvalidArgument),
        Some(minimum) => {
            if account.lamports < minimum {
                Some(ProgramFault::Staking(StakingError::NotRentExempt))
            } else {
                None
            }
        },
    }
}

/// Prepares the creation of a record's storage.
fn allocate(
    program_id: &Address,
    accounts: &[AccountView],
    created: usize,
    system: usize,
    rent: usize,
    size: usize,
    seeds: Vec<Vec<u8>>,
    resume: Stage,
) -> (outcome: Result<Step, ProgramFault>)
    requires
        created < accounts@.len(),
        rent < accounts@.len(),
        0 < accounts@.len(),
    ensures
        outcome_view(outcome) == allocation(
            *program_id,
            accounts@,
            created as int,
            system as int,
            rent as int,
            size,
            seeds_view(seeds@),
            resume,
        ),
{
    let record = &accounts[rent];
    let minimum: u64 = match rent_exempt_minimum(&record.key, &record.data, size) {
        Some(minimum) => minimum,
        None => {
            return Err(ProgramFault::InvalidArgument);
        },
    };
    let instruction = build_account_creation(
        &accounts[0].key,
        &accounts[created].key,
        minimum,
        size as u64,
        program_id,
    );
    Ok(
        Step::Allocate {
            call: Invocation {
                instruction,
                accounts: vec![0usize, created, system],
                signer_seeds: Some(seeds),
            },
            resume,
        },
    )
}

/// Creates the pool of a mint, stage by stage.
///
/// Payer and authority must have signed, and the pool account must stand at
/// the address derived for the mint. At `Start`, a pool account without
/// storage is created first, with the minimum balance for a pool record;
/// after that its balance is checked (`NotRentExempt`). A vault without
/// storage is created next. At the end the vault must be a token account of
/// the pool for the mint, and a fresh record is written over the beginning
/// of the pool account's data.
pub fn process_initialize_pool(
    program_id: &Address,
    accounts: &[AccountView],
    reward_rate: u64,
    min_lock_period: i64,
    stage: Stage,
) -> (outcome: Result<Step, ProgramFault>)
    ensures
        outcome_view(outcome) == initialize_pool_spec(
            *program_id,
            accounts@,
            reward_rate,
            min_lock_period,
            stage,
        ),
{
    if stage == Stage::UserAllocated {
        return Err(ProgramFault::InvalidArgument);
    }
    if accounts.len() < 9 {
        return Err(ProgramFault::NotEnoughAccountKeys);
    }
    let payer = &accounts[0];
    let authority = &accounts[1];
    let pool_account = &accounts[2];
    let mint = &accounts[3];
    let vault_account = &accounts[4];
    let token_program = &accounts[5];
    if !payer.is_signer || !authority.is_signer {
        return Err(ProgramFault::Staking(StakingError::Unauthorized));
    }
    let (expected, bump) = match find_pool_pda(program_id, &mint.key) {
        Some(found) => found,
        None => {
            return Err(ProgramFault::InvalidArgument);
        },
    };
    if pool_account.key != expected {
        return Err(ProgramFault::InvalidArgument);
    }
    if stage == Stage::Start && pool_account.data.len() == 0 {
        return allocate(
            program_id,
            accounts,
            2,
            7,
            8,
            STAKING_POOL_SIZE,
            pool_seeds(&mint.key, bump),
            Stage::PoolAllocated,
        );
    }
    if stage == Stage::PoolAllocated {
        if let Some(fault) = check_rent(accounts, 2, 8) {
            return Err(fault);
        }
    }
    if stage != Stage::VaultCreated && vault_account.data.len() == 0 {
        let instruction = match plan_vault_creation(
            &payer.key,
            &pool_account.key,
            &mint.key,
            &token_program.key,
        ) {
            Some(instruction) => instruction,
            None => {
                return Err(ProgramFault::InvalidArgument);
            },
        };
        return Ok(
            Step::Allocate {
                call: Invocation {
                    instruction,
                    accounts: vec![0usize, 4usize, 2usize, 3usize, 7usize, 5usize, 6usize, 8usize],
                    signer_seeds: None,
                },
                resume: Stage::VaultCreated,
            },
        );
    }
    let vault = match unpack_token_account(&vault_account.data) {
        Some(vault) => vault,
        None => {
            return Err(ProgramFault::InvalidAccountData);
        },
    };
    if vault.owner != pool_account.key {
        return Err(ProgramFault::Staking(StakingError::InvalidOwner));
    }
    if vault.mint != mint.key {
        return Err(ProgramFault::Staking(StakingError::InvalidMint));
    }
    let pool = StakingPool::new(
        authority.key,
        vault_account.key,
        reward_rate,
        min_lock_period,
        bump,
    );
    if pool_account.data.len() < STAKING_POOL_SIZE {
        return Err(ProgramFault::AccountDataTooSmall);
    }
    let record = pool.pack();
    assert(record@ =~= fresh_pool_record(
        authority.key,
        vault_account.key,
        reward_rate,
        min_lock_period,
        bump,
    ));
    Ok(complete(no_transfers(), one_write(2, overwrite(&pool_account.data, record))))
}

/// Opens the caller's position in a pool, stage by stage.
///
/// Payer and user must have signed, and the position account must stand at
/// the address derived for the pool and the user. At `Start`, a position
/// account without storage is created first, with the minimum balance for a
/// position; after that its balance is checked (`NotRentExempt`). At the
/// end an inactive record with owner and pool set is written over the
/// beginning of the account's data.
pub fn process_initialize_user(
    program_id: &Address,
    accounts: &[AccountView],
    stage: Stage,
) -> (outcome: Result<Step, ProgramFault>)
    ensures
        outcome_view(outcome) == initialize_user_spec(*program_id, accounts@, stage),
{
    if stage == Stage::PoolAllocated || stage == Stage::VaultCreated {
        return Err(ProgramFault::InvalidArgument);
    }
    if accounts.len() < 6 {
        return Err(ProgramFault::NotEnoughAccountKeys);
    }
    let payer = &accounts[0];
    let user = &accounts[1];
    let pool_account = &accounts[2];
    let position_account = &accounts[3];
    if !payer.is_signer || !user.is_signer {
        return Err(ProgramFault::Staking(StakingError::Unauthorized));
    }
    let (expected, bump) = match find_user_pda(program_id, &pool_account.key, &user.key) {
        Some(found) => found,
        None => {
            return Err(ProgramFault::InvalidArgument);
        },
    };
    if position_account.key != expected {
        return Err(ProgramFault::InvalidArgument);
    }
    if stage == Stage::Start && position_account.data.len() == 0 {
        return allocate(
            program_id,
            accounts,
            3,
            4,
            5,
            USER_STAKE_SIZE,
            user_seeds(&pool_account.key, &user.key, bump),
            Stage::UserAllocated,
        );
    }
    if stage == Stage::UserAllocated {
        if let Some(fault) = check_rent(accounts, 3, 5) {
            return Err(fault);
        }
    }
    let mut position = UserStake::default();
    position.owner = user.key;
    position.pool = pool_account.key;
    if position_account.data.len() < USER_STAKE_SIZE {
        return Err(ProgramFault::AccountDataTooSmall);
    }
    let record = position.pack();
    assert(record@ =~= fresh_position_record(user.key, pool_account.key));
    Ok(complete(no_transfers(), one_write(3, overwrite(&position_account.data, record))))
}

} // verus!
