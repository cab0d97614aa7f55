use std::collections::HashMap;

use solana_program::program_option::COption;
use solana_program::program_pack::Pack;
use solana_program::pubkey::Pubkey;
use solana_program::rent::Rent;
use solana_program::system_instruction;
use spl_associated_token_account::get_associated_token_address;
use staking_program::cpi::{
    associated_token_program_id, plan_vault_creation, system_program_id, token_program_id,
};
use staking_program::rent::rent_exempt_minimum;
use staking_program::{
    find_pool_pda, find_user_pda, process_initialize_pool, process_initialize_user,
    process_instruction, AccountMeta, AccountView, Address, Instruction, Invocation,
    ProgramFault, Stage, StakingError, StakingInstruction, StakingPool, Step, UserStake,
};

fn address(fill: u8) -> Address {
    Address::new([fill; 32])
}

fn key(address: &Address) -> Pubkey {
    Pubkey::new_from_array(address.bytes)
}

fn of(key: &Pubkey) -> Address {
    Address::new(key.to_bytes())
}

fn program() -> Address {
    address(200)
}

fn token_data(mint: &Address, owner: &Address, amount: u64) -> Vec<u8> {
    let account = spl_token::state::Account {
        mint: key(mint),
        owner: key(owner),
        amount,
        delegate: COption::None,
        state: spl_token::state::AccountState::Initialized,
        is_native: COption::None,
        delegated_amount: 0,
        close_authority: COption::None,
    };
    let mut data = vec![0u8; 165];
    spl_token::state::Account::pack(account, &mut data).unwrap();
    data
}

/// The stored form of the rent record: rate, exemption threshold, burn
/// percentage.
fn rent_data(lamports_per_byte_year: u64) -> Vec<u8> {
    let mut data = lamports_per_byte_year.to_le_bytes().to_vec();
    data.extend_from_slice(&2.0f64.to_le_bytes());
    data.push(50);
    data
}

fn rent_key() -> Address {
    of(&solana_program::sysvar::rent::id())
}

fn account(key: Address, is_signer: bool, lamports: u64, data: Vec<u8>) -> AccountView {
    AccountView { key, is_signer, lamports, data }
}

fn assert_same_instruction(
    built: &Instruction,
    expected: &solana_program::instruction::Instruction,
) {
    assert_eq!(key(&built.program_id), expected.program_id);
    assert_eq!(built.data, expected.data);
    assert_eq!(built.accounts.len(), expected.accounts.len());
    for (meta, wanted) in built.accounts.iter().zip(expected.accounts.iter()) {
        assert_eq!(key(&meta.pubkey), wanted.pubkey);
        assert_eq!(meta.is_signer, wanted.is_signer);
        assert_eq!(meta.is_writable, wanted.is_writable);
    }
}

fn allocation(outcome: Result<Step, ProgramFault>) -> (Invocation, Stage) {
    match outcome {
        Ok(Step::Allocate { call, resume }) => (call, resume),
        other => panic!("expected an allocation, got {:?}", other),
    }
}

fn single_write(outcome: Result<Step, ProgramFault>) -> (usize, Vec<u8>) {
    match outcome {
        Ok(Step::Complete { transfers, mut writes }) => {
            assert!(transfers.is_empty());
            assert_eq!(writes.len(), 1);
            let write = writes.remove(0);
            (write.account, write.data)
        },
        other => panic!("expected a completed operation, got {:?}", other),
    }
}

// ------------------------------------------------------------------- rent

#[test]
fn rent_minimum_is_the_ledgers() {
    let data = rent_data(3480);
    for len in [0usize, 104, 112, 165, 10_000] {
        assert_eq!(
            rent_exempt_minimum(&rent_key(), &data, len),
            Some(Rent::default().minimum_balance(len))
        );
    }
    assert_eq!(rent_exempt_minimum(&rent_key(), &data, 112), Some(1_670_400));
    assert_eq!(rent_exempt_minimum(&rent_key(), &rent_data(1), 0), Some(256));
}

#[test]
fn rent_record_must_be_the_rent_record() {
    assert_eq!(rent_exempt_minimum(&address(5), &rent_data(3480), 112), None);
    assert_eq!(rent_exempt_minimum(&rent_key(), &rent_data(3480)[..16].to_vec(), 112), None);
    assert_eq!(rent_exempt_minimum(&rent_key(), &Vec::new(), 112), None);
}

#[test]
fn rent_rate_too_large_to_multiply_is_refused() {
    assert_eq!(rent_exempt_minimum(&rent_key(), &rent_data(u64::MAX), 112), None);
    assert_eq!(rent_exempt_minimum(&rent_key(), &rent_data(u64::MAX / 240 + 1), 112), None);
    assert!(rent_exempt_minimum(&rent_key(), &rent_data(u64::MAX / 240), 112).is_some());
    assert_eq!(rent_exempt_minimum(&rent_key(), &rent_data(0), usize::MAX), None);
}

// -------------------------------------------------------- initialize user

struct UserSetup {
    payer: Address,
    user: Address,
    pool: Address,
    position: Address,
    bump: u8,
}

impl UserSetup {
    fn new() -> UserSetup {
        let user = address(1);
        let pool = address(2);
        let (position, bump) = find_user_pda(&program(), &pool, &user).unwrap();
        UserSetup { payer: address(3), user, pool, position, bump }
    }

    fn accounts(&self, lamports: u64, data: Vec<u8>) -> Vec<AccountView> {
        vec![
            account(self.payer, true, 5_000_000_000, Vec::new()),
            account(self.user, true, 0, Vec::new()),
            account(self.pool, false, 0, Vec::new()),
            account(self.position, false, lamports, data),
            account(address(0), false, 0, Vec::new()),
            account(rent_key(), false, 0, rent_data(3480)),
        ]
    }

    fn fresh_record(&self) -> Vec<u8> {
        let mut record = self.user.to_vec();
        record.extend_from_slice(&self.pool.bytes);
        record.extend_from_slice(&[0u8; 40]);
        record
    }
}

#[test]
fn initialize_user_creates_the_account_first() {
    let setup = UserSetup::new();
    let accounts = setup.accounts(0, Vec::new());
    let (call, resume) = allocation(process_initialize_user(&program(), &accounts, Stage::Start));
    assert_eq!(resume, Stage::UserAllocated);
    let minimum = Rent::default().minimum_balance(104);
    assert_same_instruction(
        &call.instruction,
        &system_instruction::create_account(
            &key(&setup.payer),
            &key(&setup.position),
            minimum,
            104,
            &key(&program()),
        ),
    );
    assert_eq!(call.accounts, vec![0, 3, 4]);
    let seeds = call.signer_seeds.unwrap();
    assert_eq!(
        seeds,
        vec![b"user".to_vec(), setup.pool.to_vec(), setup.user.to_vec(), vec![setup.bump]]
    );
    let parts: Vec<&[u8]> = seeds.iter().map(|seed| seed.as_slice()).collect();
    assert_eq!(
        Pubkey::create_program_address(&parts, &key(&program())).unwrap(),
        key(&setup.position)
    );
}

#[test]
fn initialize_user_writes_an_inactive_position() {
    let setup = UserSetup::new();
    let minimum = Rent::default().minimum_balance(104);
    let accounts = setup.accounts(minimum, vec![0u8; 104]);
    let (index, data) =
        single_write(process_initialize_user(&program(), &accounts, Stage::UserAllocated));
    assert_eq!(index, 3);
    assert_eq!(data, setup.fresh_record());
    let position = UserStake::unpack(&data).unwrap();
    assert_eq!(
        position,
        UserStake { owner: setup.user, pool: setup.pool, ..UserStake::default() }
    );
}

#[test]
fn initialize_user_checks_the_new_accounts_balance() {
    let setup = UserSetup::new();
    let minimum = Rent::default().minimum_balance(104);
    assert_eq!(
        process_initialize_user(
            &program(),
            &setup.accounts(minimum - 1, vec![0u8; 104]),
            Stage::UserAllocated
        ),
        Err(ProgramFault::Staking(StakingError::NotRentExempt))
    );
    // the balance is measured against the size the account has
    let larger = Rent::default().minimum_balance(200);
    assert_eq!(
        process_initialize_user(
            &program(),
            &setup.accounts(larger - 1, vec![0u8; 200]),
            Stage::UserAllocated
        ),
        Err(ProgramFault::Staking(StakingError::NotRentExempt))
    );
    assert!(process_initialize_user(
        &program(),
        &setup.accounts(larger, vec![0u8; 200]),
        Stage::UserAllocated
    )
    .is_ok());
    // an account the call left without storage
    assert_eq!(
        process_initialize_user(&program(), &setup.accounts(0, Vec::new()), Stage::UserAllocated),
        Err(ProgramFault::Staking(StakingError::NotRentExempt))
    );
}

#[test]
fn initialize_user_skips_creation_of_an_existing_account() {
    let setup = UserSetup::new();
    // no balance check at Start: the account was not created just now
    let mut old = vec![7u8; 110];
    old[109] = 9;
    let (index, data) =
        single_write(process_initialize_user(&program(), &setup.accounts(0, old), Stage::Start));
    assert_eq!(index, 3);
    assert_eq!(data.len(), 110);
    assert_eq!(&data[..104], &setup.fresh_record()[..]);
    assert_eq!(&data[104..], &[7, 7, 7, 7, 7, 9]);
}

#[test]
fn initialize_user_resets_an_active_position() {
    let setup = UserSetup::new();
    let active = UserStake {
        owner: setup.user,
        pool: setup.pool,
        amount: 5,
        start_time: 6,
        last_claim_time: 7,
        rewards_claimed: 8,
        _reserved: [1u8; 8],
    };
    let (_, data) = single_write(process_initialize_user(
        &program(),
        &setup.accounts(0, active.pack()),
        Stage::Start,
    ));
    assert_eq!(data, setup.fresh_record());
}

#[test]
fn initialize_user_needs_room_for_the_record() {
    let setup = UserSetup::new();
    assert_eq!(
        process_initialize_user(&program(), &setup.accounts(0, vec![0u8; 103]), Stage::Start),
        Err(ProgramFault::AccountDataTooSmall)
    );
    let minimum = Rent::default().minimum_balance(103);
    assert_eq!(
        process_initialize_user(
            &program(),
            &setup.accounts(minimum, vec![0u8; 103]),
            Stage::UserAllocated
        ),
        Err(ProgramFault::AccountDataTooSmall)
    );
}

#[test]
fn initialize_user_checks_signatures_and_address() {
    let setup = UserSetup::new();
    let mut accounts = setup.accounts(0, Vec::new());
    accounts[0].is_signer = false;
    assert_eq!(
        process_initialize_user(&program(), &accounts, Stage::Start),
        Err(ProgramFault::Staking(StakingError::Unauthorized))
    );
    let mut accounts = setup.accounts(0, Vec::new());
    accounts[1].is_signer = false;
    assert_eq!(
        process_initialize_user(&program(), &accounts, Stage::Start),
        Err(ProgramFault::Staking(StakingError::Unauthorized))
    );
    let mut accounts = setup.accounts(0, Vec::new());
    accounts[3].key = address(99);
    assert_eq!(
        process_initialize_user(&program(), &accounts, Stage::Start),
        Err(ProgramFault::InvalidArgument)
    );
    // under another program the address is another
    assert_eq!(
        process_initialize_user(&address(201), &setup.accounts(0, Vec::new()), Stage::Start),
        Err(ProgramFault::InvalidArgument)
    );
    let mut accounts = setup.accounts(0, Vec::new());
    accounts.pop();
    assert_eq!(
        process_initialize_user(&program(), &accounts, Stage::Start),
        Err(ProgramFault::NotEnoughAccountKeys)
    );
}

#[test]
fn initialize_user_needs_the_rent_record_to_create() {
    let setup = UserSetup::new();
    let mut accounts = setup.accounts(0, Vec::new());
    accounts[5].key = address(99);
    assert_eq!(
        process_initialize_user(&program(), &accounts, Stage::Start),
        Err(ProgramFault::InvalidArgument)
    );
    let mut accounts = setup.accounts(0, Vec::new());
    accounts[5].data.truncate(10);
    assert_eq!(
        process_initialize_user(&program(), &accounts, Stage::Start),
        Err(ProgramFault::InvalidArgument)
    );
    let mut accounts = setup.accounts(0, Vec::new());
    accounts[5].data = rent_data(u64::MAX);
    assert_eq!(
        process_initialize_user(&program(), &accounts, Stage::Start),
        Err(ProgramFault::InvalidArgument)
    );
    // an existing account is written without looking at the rent record
    let mut accounts = setup.accounts(0, vec![0u8; 104]);
    accounts[5].key = address(99);
    assert!(process_initialize_user(&program(), &accounts, Stage::Start).is_ok());
}

#[test]
fn initialize_user_refuses_the_stages_of_a_pool() {
    let setup = UserSetup::new();
    for stage in [Stage::PoolAllocated, Stage::VaultCreated] {
        assert_eq!(
            process_initialize_user(&program(), &setup.accounts(0, vec![0u8; 104]), stage),
            Err(ProgramFault::InvalidArgument)
        );
    }
}

// -------------------------------------------------------- initialize pool

struct PoolSetup {
    payer: Address,
    authority: Address,
    pool: Address,
    bump: u8,
    mint: Address,
    vault: Address,
    token_program: Address,
}

impl PoolSetup {
    fn new() -> PoolSetup {
        let mint = address(2);
        let (pool, bump) = find_pool_pda(&program(), &mint).unwrap();
        let vault = of(&get_associated_token_address(&key(&pool), &key(&mint)));
        PoolSetup {
            payer: address(3),
            authority: address(4),
            pool,
            bump,
            mint,
            vault,
            token_program: of(&spl_token::id()),
        }
    }

    fn accounts(
        &self,
        pool_lamports: u64,
        pool_data: Vec<u8>,
        vault_data: Vec<u8>,
    ) -> Vec<AccountView> {
        vec![
            account(self.payer, true, 5_000_000_000, Vec::new()),
            account(self.authority, true, 0, Vec::new()),
            account(self.pool, false, pool_lamports, pool_data),
            account(self.mint, false, 0, Vec::new()),
            account(self.vault, false, 0, vault_data),
            account(self.token_program, false, 0, Vec::new()),
            account(of(&spl_associated_token_account::id()), false, 0, Vec::new()),
            account(address(0), false, 0, Vec::new()),
            account(rent_key(), false, 0, rent_data(3480)),
        ]
    }

    fn vault_data(&self) -> Vec<u8> {
        token_data(&self.mint, &self.pool, 0)
    }
}

#[test]
fn initialize_pool_creates_the_pool_account_first() {
    let setup = PoolSetup::new();
    let (call, resume) = allocation(process_initialize_pool(
        &program(),
        &setup.accounts(0, Vec::new(), Vec::new()),
        5_000_000,
        5,
        Stage::Start,
    ));
    assert_eq!(resume, Stage::PoolAllocated);
    assert_same_instruction(
        &call.instruction,
        &system_instruction::create_account(
            &key(&setup.payer),
            &key(&setup.pool),
            Rent::default().minimum_balance(112),
            112,
            &key(&program()),
        ),
    );
    assert_eq!(call.accounts, vec![0, 2, 7]);
    let seeds = call.signer_seeds.unwrap();
    assert_eq!(seeds, vec![b"pool".to_vec(), setup.mint.to_vec(), vec![setup.bump]]);
    let parts: Vec<&[u8]> = seeds.iter().map(|seed| seed.as_slice()).collect();
    assert_eq!(
        Pubkey::create_program_address(&parts, &key(&program())).unwrap(),
        key(&setup.pool)
    );
}

#[test]
fn initialize_pool_creates_the_vault_next() {
    let setup = PoolSetup::new();
    let minimum = Rent::default().minimum_balance(112);
    let expected = spl_associated_token_account::instruction::create_associated_token_account(
        &key(&setup.payer),
        &key(&setup.pool),
        &key(&setup.mint),
        &spl_token::id(),
    );
    for (stage, lamports) in [(Stage::PoolAllocated, minimum), (Stage::Start, 0)] {
        let (call, resume) = allocation(process_initialize_pool(
            &program(),
            &setup.accounts(lamports, vec![0u8; 112], Vec::new()),
            5_000_000,
            5,
            stage,
        ));
        assert_eq!(resume, Stage::VaultCreated);
        assert_same_instruction(&call.instruction, &expected);
        assert_eq!(call.instruction.accounts[1].pubkey, setup.vault);
        assert_eq!(call.instruction.data, vec![0]);
        assert_eq!(call.accounts, vec![0, 4, 2, 3, 7, 5, 6, 8]);
        assert_eq!(call.signer_seeds, None);
    }
}

#[test]
fn initialize_pool_checks_the_new_accounts_balance() {
    let setup = PoolSetup::new();
    let minimum = Rent::default().minimum_balance(112);
    assert_eq!(
        process_initialize_pool(
            &program(),
            &setup.accounts(minimum - 1, vec![0u8; 112], Vec::new()),
            1,
            1,
            Stage::PoolAllocated
        ),
        Err(ProgramFault::Staking(StakingError::NotRentExempt))
    );
    // at the other stages the balance is not looked at
    assert!(process_initialize_pool(
        &program(),
        &setup.accounts(0, vec![0u8; 112], setup.vault_data()),
        1,
        1,
        Stage::VaultCreated
    )
    .is_ok());
}

#[test]
fn initialize_pool_writes_a_fresh_record() {
    let setup = PoolSetup::new();
    let expected =
        StakingPool::new(setup.authority, setup.vault, 5_000_000, 5, setup.bump).pack();
    for stage in [Stage::Start, Stage::VaultCreated] {
        let (index, data) = single_write(process_initialize_pool(
            &program(),
            &setup.accounts(0, vec![0u8; 112], setup.vault_data()),
            5_000_000,
            5,
            stage,
        ));
        assert_eq!(index, 2);
        assert_eq!(data, expected);
    }
    let pool = StakingPool::unpack(&expected).unwrap();
    assert_eq!(pool.total_staked, 0);
    assert_eq!(pool.authority, setup.authority);
    assert_eq!(pool.vault, setup.vault);
    assert_eq!(pool.bump, setup.bump);
}

#[test]
fn initialize_pool_again_overwrites_the_record() {
    let setup = PoolSetup::new();
    let mut old = StakingPool::new(address(77), setup.vault, 1, 1, setup.bump);
    old.total_staked = 500;
    let mut data = old.pack();
    data.extend_from_slice(&[8, 9]);
    let (_, written) = single_write(process_initialize_pool(
        &program(),
        &setup.accounts(0, data, setup.vault_data()),
        5_000_000,
        5,
        Stage::Start,
    ));
    assert_eq!(written.len(), 114);
    assert_eq!(&written[112..], &[8, 9]);
    let pool = StakingPool::unpack(&written[..112]).unwrap();
    assert_eq!(pool, StakingPool::new(setup.authority, setup.vault, 5_000_000, 5, setup.bump));
}

#[test]
fn initialize_pool_checks_the_vault() {
    let setup = PoolSetup::new();
    let run = |vault_data: Vec<u8>| {
        process_initialize_pool(
            &program(),
            &setup.accounts(0, vec![0u8; 112], vault_data),
            1,
            1,
            Stage::VaultCreated,
        )
    };
    assert_eq!(
        run(token_data(&setup.mint, &address(99), 0)),
        Err(ProgramFault::Staking(StakingError::InvalidOwner))
    );
    assert_eq!(
        run(token_data(&address(99), &setup.pool, 0)),
        Err(ProgramFault::Staking(StakingError::InvalidMint))
    );
    assert_eq!(run(vec![1u8; 165]), Err(ProgramFault::InvalidAccountData));
    assert_eq!(run(vec![0u8; 165]), Err(ProgramFault::InvalidAccountData));
    // the call left the vault without storage
    assert_eq!(run(Vec::new()), Err(ProgramFault::InvalidAccountData));
}

#[test]
fn initialize_pool_needs_room_for_the_record() {
    let setup = PoolSetup::new();
    assert_eq!(
        process_initialize_pool(
            &program(),
            &setup.accounts(0, vec![0u8; 111], setup.vault_data()),
            1,
            1,
            Stage::Start
        ),
        Err(ProgramFault::AccountDataTooSmall)
    );
}

#[test]
fn initialize_pool_checks_signatures_and_address() {
    let setup = PoolSetup::new();
    for unsigned in [0usize, 1] {
        let mut accounts = setup.accounts(0, Vec::new(), Vec::new());
        accounts[unsigned].is_signer = false;
        assert_eq!(
            process_initialize_pool(&program(), &accounts, 1, 1, Stage::Start),
            Err(ProgramFault::Staking(StakingError::Unauthorized))
        );
    }
    let mut accounts = setup.accounts(0, Vec::new(), Vec::new());
    accounts[2].key = address(99);
    assert_eq!(
        process_initialize_pool(&program(), &accounts, 1, 1, Stage::Start),
        Err(ProgramFault::InvalidArgument)
    );
    // the pool of another mint
    let mut accounts = setup.accounts(0, Vec::new(), Vec::new());
    accounts[3].key = address(98);
    assert_eq!(
        process_initialize_pool(&program(), &accounts, 1, 1, Stage::Start),
        Err(ProgramFault::InvalidArgument)
    );
    let mut accounts = setup.accounts(0, Vec::new(), Vec::new());
    accounts.pop();
    assert_eq!(
        process_initialize_pool(&program(), &accounts, 1, 1, Stage::Start),
        Err(ProgramFault::NotEnoughAccountKeys)
    );
    assert_eq!(
        process_initialize_pool(
            &program(),
            &setup.accounts(0, Vec::new(), Vec::new()),
            1,
            1,
            Stage::UserAllocated
        ),
        Err(ProgramFault::InvalidArgument)
    );
}

#[test]
fn initialize_pool_needs_the_rent_record_to_create() {
    let setup = PoolSetup::new();
    let mut accounts = setup.accounts(0, Vec::new(), Vec::new());
    accounts[8].key = address(99);
    assert_eq!(
        process_initialize_pool(&program(), &accounts, 1, 1, Stage::Start),
        Err(ProgramFault::InvalidArgument)
    );
    let mut accounts = setup.accounts(0, vec![0u8; 112], Vec::new());
    accounts[8].data.clear();
    assert_eq!(
        process_initialize_pool(&program(), &accounts, 1, 1, Stage::PoolAllocated),
        Err(ProgramFault::InvalidArgument)
    );
}

#[test]
fn account_creation_is_spelled_out() {
    let setup = PoolSetup::new();
    let (call, _) = allocation(process_initialize_pool(
        &program(),
        &setup.accounts(0, Vec::new(), Vec::new()),
        1,
        1,
        Stage::Start,
    ));
    let instruction = call.instruction;
    assert_eq!(instruction.program_id, address(0));
    assert_eq!(
        instruction.accounts,
        vec![
            AccountMeta { pubkey: setup.payer, is_signer: true, is_writable: true },
            AccountMeta { pubkey: setup.pool, is_signer: true, is_writable: true },
        ]
    );
    let mut data = vec![0u8, 0, 0, 0];
    data.extend_from_slice(&1_670_400u64.to_le_bytes());
    data.extend_from_slice(&112u64.to_le_bytes());
    data.extend_from_slice(&program().bytes);
    assert_eq!(instruction.data, data);
}

#[test]
fn vault_creation_is_spelled_out() {
    let setup = PoolSetup::new();
    let (call, _) = allocation(process_initialize_pool(
        &program(),
        &setup.accounts(0, vec![0u8; 112], Vec::new()),
        1,
        1,
        Stage::Start,
    ));
    let instruction = call.instruction;
    assert_eq!(instruction.program_id, associated_token_program_id());
    let (derived, _) = Pubkey::find_program_address(
        &[&setup.pool.bytes, &setup.token_program.bytes, &setup.mint.bytes],
        &spl_associated_token_account::id(),
    );
    assert_eq!(
        instruction.accounts,
        vec![
            AccountMeta { pubkey: setup.payer, is_signer: true, is_writable: true },
            AccountMeta { pubkey: of(&derived), is_signer: false, is_writable: true },
            AccountMeta { pubkey: setup.pool, is_signer: false, is_writable: false },
            AccountMeta { pubkey: setup.mint, is_signer: false, is_writable: false },
            AccountMeta { pubkey: address(0), is_signer: false, is_writable: false },
            AccountMeta { pubkey: setup.token_program, is_signer: false, is_writable: false },
        ]
    );
    assert_eq!(instruction.data, vec![0]);
}

#[test]
fn program_identities_are_the_crates() {
    assert_eq!(key(&associated_token_program_id()), spl_associated_token_account::id());
    assert_eq!(key(&token_program_id()), spl_token::id());
    assert_eq!(key(&system_program_id()), solana_program::system_program::id());
}

#[test]
fn vault_creation_is_the_associated_token_programs() {
    let built = plan_vault_creation(&address(1), &address(2), &address(3), &address(4)).unwrap();
    let expected = spl_associated_token_account::instruction::create_associated_token_account(
        &key(&address(1)),
        &key(&address(2)),
        &key(&address(3)),
        &key(&address(4)),
    );
    assert_same_instruction(&built, &expected);
    assert_eq!(built.accounts.len(), 6);
    assert_eq!(built.accounts[0].pubkey, address(1));
    assert_eq!(built.accounts[2].pubkey, address(2));
    assert_eq!(built.accounts[3].pubkey, address(3));
    assert_eq!(built.accounts[5].pubkey, address(4));
}

// ------------------------------------------------------------- whole flow

/// A ledger in memory: accounts by address, and a clock.
#[derive(Clone)]
struct Ledger {
    accounts: HashMap<[u8; 32], (u64, Vec<u8>)>,
    now: i64,
}

impl Ledger {
    fn data(&self, address: &Address) -> Vec<u8> {
        self.accounts.get(&address.bytes).map(|entry| entry.1.clone()).unwrap_or_default()
    }

    fn lamports(&self, address: &Address) -> u64 {
        self.accounts.get(&address.bytes).map(|entry| entry.0).unwrap_or(0)
    }

    fn balance(&self, address: &Address) -> u64 {
        spl_token::state::Account::unpack(&self.data(address)).unwrap().amount
    }

    fn set_balance(&mut self, address: &Address, amount: u64) {
        let mut account = spl_token::state::Account::unpack(&self.data(address)).unwrap();
        account.amount = amount;
        let mut data = vec![0u8; 165];
        spl_token::state::Account::pack(account, &mut data).unwrap();
        self.accounts.insert(address.bytes, (self.lamports(address), data));
    }

    /// Carries out a call as the three programs would.
    fn invoke(&mut self, instruction: &Instruction) -> Result<(), String> {
        if instruction.program_id == address(0) {
            let lamports = u64::from_le_bytes(instruction.data[4..12].try_into().unwrap());
            let space = u64::from_le_bytes(instruction.data[12..20].try_into().unwrap());
            let created = instruction.accounts[1].pubkey;
            if self.lamports(&created) > 0 {
                return Err("account already in use".to_string());
            }
            self.accounts.insert(created.bytes, (lamports, vec![0u8; space as usize]));
            Ok(())
        } else if instruction.program_id == of(&spl_associated_token_account::id()) {
            let created = instruction.accounts[1].pubkey;
            let wallet = instruction.accounts[2].pubkey;
            let mint = instruction.accounts[3].pubkey;
            self.accounts.insert(created.bytes, (2_039_280, token_data(&mint, &wallet, 0)));
            Ok(())
        } else if instruction.program_id == of(&spl_token::id()) {
            assert_eq!(instruction.data[0], 3);
            let amount = u64::from_le_bytes(instruction.data[1..9].try_into().unwrap());
            let source = instruction.accounts[0].pubkey;
            let destination = instruction.accounts[1].pubkey;
            let left = self
                .balance(&source)
                .checked_sub(amount)
                .ok_or_else(|| "insufficient funds".to_string())?;
            self.set_balance(&source, left);
            let raised = self.balance(&destination) + amount;
            self.set_balance(&destination, raised);
            Ok(())
        } else {
            Err("unknown program".to_string())
        }
    }

    /// Runs one request to its end, applying it as a whole or not at all.
    fn run(&mut self, keys: &[(Address, bool)], request: StakingInstruction) -> Result<(), String> {
        let payload = request.pack();
        let mut scratch = self.clone();
        let mut stage = Stage::Start;
        loop {
            let views: Vec<AccountView> = keys
                .iter()
                .map(|(address, signs)| AccountView {
                    key: *address,
                    is_signer: *signs,
                    lamports: scratch.lamports(address),
                    data: scratch.data(address),
                })
                .collect();
            let step = process_instruction(&program(), &views, &payload, Some(scratch.now), stage)
                .map_err(|fault| format!("{:?}", fault))?;
            match step {
                Step::Allocate { call, resume } => {
                    scratch.invoke(&call.instruction)?;
                    stage = resume;
                },
                Step::Complete { transfers, writes } => {
                    for transfer in &transfers {
                        scratch.invoke(&transfer.call.instruction)?;
                    }
                    for write in writes {
                        let address = keys[write.account].0;
                        assert_eq!(write.data.len(), scratch.data(&address).len());
                        let lamports = scratch.lamports(&address);
                        scratch.accounts.insert(address.bytes, (lamports, write.data));
                    }
                    *self = scratch;
                    return Ok(());
                },
            }
        }
    }
}

#[test]
fn test_full_flow_and_edge_cases() {
    let payer = address(10);
    let user = address(11);
    let user2 = address(12);
    let mint = address(13);
    let token_program = of(&spl_token::id());
    let ata_program = of(&spl_associated_token_account::id());
    let system_program = address(0);
    let user_ata = of(&get_associated_token_address(&key(&user), &key(&mint)));
    let user2_ata = of(&get_associated_token_address(&key(&user2), &key(&mint)));
    let (pool_pda, pool_bump) = find_pool_pda(&program(), &mint).unwrap();
    let (user_stake_pda, _) = find_user_pda(&program(), &pool_pda, &user).unwrap();
    let (user2_stake_pda, _) = find_user_pda(&program(), &pool_pda, &user2).unwrap();
    let vault_ata = of(&get_associated_token_address(&key(&pool_pda), &key(&mint)));

    let mut ledger = Ledger { accounts: HashMap::new(), now: 0 };
    ledger.accounts.insert(rent_key().bytes, (1, rent_data(3480)));
    ledger.accounts.insert(user_ata.bytes, (1, token_data(&mint, &user, 1_000_000_000_000)));
    ledger.accounts.insert(user2_ata.bytes, (1, token_data(&mint, &user2, 500_000_000_000)));

    // InitializePool: creates the pool account and the vault on the way
    ledger
        .run(
            &[
                (payer, true),
                (user, true),
                (pool_pda, false),
                (mint, false),
                (vault_ata, false),
                (token_program, false),
                (ata_program, false),
                (system_program, false),
                (rent_key(), false),
            ],
            StakingInstruction::InitializePool { reward_rate: 5_000_000, min_lock_period: 5 },
        )
        .unwrap();
    assert_eq!(
        StakingPool::unpack(&ledger.data(&pool_pda)),
        Some(StakingPool::new(user, vault_ata, 5_000_000, 5, pool_bump))
    );
    assert_eq!(ledger.lamports(&pool_pda), Rent::default().minimum_balance(112));
    assert_eq!(ledger.balance(&vault_ata), 0);

    // InitializeUser, for both users
    for (stake_pda, owner) in [(user_stake_pda, user), (user2_stake_pda, user2)] {
        ledger
            .run(
                &[
                    (payer, true),
                    (owner, true),
                    (pool_pda, false),
                    (stake_pda, false),
                    (system_program, false),
                    (rent_key(), false),
                ],
                StakingInstruction::InitializeUser,
            )
            .unwrap();
        assert_eq!(
            UserStake::unpack(&ledger.data(&stake_pda)),
            Some(UserStake { owner, pool: pool_pda, ..UserStake::default() })
        );
    }

    // fund the vault for rewards
    ledger.set_balance(&vault_ata, 1_000_000_000_000);

    // Stake: the user stakes 100 tokens
    let stake_keys = |who: Address, ata: Address, stake_pda: Address| {
        vec![
            (who, true),
            (ata, false),
            (mint, false),
            (pool_pda, false),
            (stake_pda, false),
            (vault_ata, false),
            (token_program, false),
        ]
    };
    let payout_keys = |who: Address, ata: Address, stake_pda: Address| {
        vec![
            (who, true),
            (ata, false),
            (mint, false),
            (stake_pda, false),
            (pool_pda, false),
            (vault_ata, false),
            (token_program, false),
        ]
    };
    ledger
        .run(
            &stake_keys(user, user_ata, user_stake_pda),
            StakingInstruction::Stake { amount: 100_000_000_000 },
        )
        .unwrap();
    assert_eq!(ledger.balance(&user_ata), 900_000_000_000);
    assert_eq!(ledger.balance(&vault_ata), 1_100_000_000_000);
    assert_eq!(StakingPool::unpack(&ledger.data(&pool_pda)).unwrap().total_staked, 100_000_000_000);

    // edge: a stake beyond the second user's balance
    let before = ledger.clone();
    assert!(ledger
        .run(
            &stake_keys(user2, user2_ata, user2_stake_pda),
            StakingInstruction::Stake { amount: 1_000_000_000_000_000 },
        )
        .is_err());
    assert_eq!(ledger.accounts, before.accounts);

    // claim after one second
    ledger.now = 1;
    ledger
        .run(&payout_keys(user, user_ata, user_stake_pda), StakingInstruction::ClaimRewards)
        .unwrap();
    assert_eq!(ledger.balance(&user_ata), 900_500_000_000);
    assert_eq!(ledger.balance(&vault_ata), 1_099_500_000_000);
    let position = UserStake::unpack(&ledger.data(&user_stake_pda)).unwrap();
    assert_eq!(position.last_claim_time, 1);
    assert_eq!(position.rewards_claimed, 500_000_000);

    // an UpdateConfig by somebody who is not the authority
    let before = ledger.clone();
    let refused = ledger.run(
        &[(user2, true), (pool_pda, false)],
        StakingInstruction::UpdateConfig {
            new_reward_rate: Some(9_999_999),
            new_min_lock_period: None,
        },
    );
    assert_eq!(refused, Err("Staking(Unauthorized)".to_string()));
    assert_eq!(ledger.accounts, before.accounts);

    // an unstake before the lock has run out
    let early =
        ledger.run(&payout_keys(user, user_ata, user_stake_pda), StakingInstruction::Unstake);
    assert_eq!(early, Err("Staking(LockActive)".to_string()));
    assert_eq!(ledger.accounts, before.accounts);

    // another claim, later
    ledger.now = 3;
    ledger
        .run(&payout_keys(user, user_ata, user_stake_pda), StakingInstruction::ClaimRewards)
        .unwrap();
    assert_eq!(
        UserStake::unpack(&ledger.data(&user_stake_pda)).unwrap().rewards_claimed,
        1_500_000_000
    );

    // a claim from a drained vault changes nothing
    let mut drained = ledger.clone();
    drained.now = 10;
    drained.set_balance(&vault_ata, 10);
    let before = drained.clone();
    let short =
        drained.run(&payout_keys(user, user_ata, user_stake_pda), StakingInstruction::ClaimRewards);
    assert_eq!(short, Err("Staking(VaultInsufficient)".to_string()));
    assert_eq!(drained.accounts, before.accounts);
    let short =
        drained.run(&payout_keys(user, user_ata, user_stake_pda), StakingInstruction::Unstake);
    assert_eq!(short, Err("Staking(VaultInsufficient)".to_string()));
    assert_eq!(drained.accounts, before.accounts);

    // the unstake once the lock has run out
    ledger.now = 10;
    ledger.run(&payout_keys(user, user_ata, user_stake_pda), StakingInstruction::Unstake).unwrap();
    let position = UserStake::unpack(&ledger.data(&user_stake_pda)).unwrap();
    assert_eq!(position.amount, 0);
    assert_eq!(position.start_time, 0);
    assert_eq!(position.last_claim_time, 0);
    assert_eq!(position.rewards_claimed, 5_000_000_000);
    assert_eq!(StakingPool::unpack(&ledger.data(&pool_pda)).unwrap().total_staked, 0);
    assert_eq!(ledger.balance(&user_ata), 1_005_000_000_000);
    assert_eq!(ledger.balance(&vault_ata), 995_000_000_000);

    // the authority changes the rate
    ledger
        .run(
            &[(user, true), (pool_pda, false)],
            StakingInstruction::UpdateConfig {
                new_reward_rate: Some(9_999_999),
                new_min_lock_period: None,
            },
        )
        .unwrap();
    let pool = StakingPool::unpack(&ledger.data(&pool_pda)).unwrap();
    assert_eq!(pool.reward_rate, 9_999_999);
    assert_eq!(pool.min_lock_period, 5);
}
