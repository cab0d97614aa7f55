use solana_program::pubkey::Pubkey;
use staking_program::codec::{read_i64, read_u64, write_i64, write_u64};
use staking_program::{
    find_pool_pda, find_user_pda, Address, ProgramFault, StakingError, StakingInstruction,
    StakingPool, UserStake, STAKING_POOL_SIZE, USER_STAKE_SIZE,
};

fn address(fill: u8) -> Address {
    Address::new([fill; 32])
}

fn sample_pool() -> StakingPool {
    let mut pool = StakingPool::new(address(1), address(2), 5_000_000, 5, 254);
    pool.total_staked = 100_000_000_000;
    pool
}

fn sample_position() -> UserStake {
    UserStake {
        owner: address(3),
        pool: address(4),
        amount: 77,
        start_time: -5,
        last_claim_time: 1_700_000_000,
        rewards_claimed: u64::MAX,
        _reserved: [0u8; 8],
    }
}

#[test]
fn record_sizes_are_fixed() {
    assert_eq!(STAKING_POOL_SIZE, 112);
    assert_eq!(USER_STAKE_SIZE, 104);
    assert_eq!(sample_pool().pack().len(), STAKING_POOL_SIZE);
    assert_eq!(sample_position().pack().len(), USER_STAKE_SIZE);
}

#[test]
fn new_pool_has_nothing_staked() {
    let pool = StakingPool::new(address(1), address(2), 9, -3, 7);
    assert_eq!(pool.authority, address(1));
    assert_eq!(pool.vault, address(2));
    assert_eq!(pool.reward_rate, 9);
    assert_eq!(pool.min_lock_period, -3);
    assert_eq!(pool.total_staked, 0);
    assert_eq!(pool.bump, 7);
    assert_eq!(pool._reserved, [0u8; 23]);
}

#[test]
fn default_position_is_all_zero() {
    let position = UserStake::default();
    assert_eq!(position.owner, Address::default());
    assert_eq!(position.pool, Address::default());
    assert_eq!(position.amount, 0);
    assert_eq!(position.start_time, 0);
    assert_eq!(position.last_claim_time, 0);
    assert_eq!(position.rewards_claimed, 0);
    assert_eq!(position.pack(), vec![0u8; 104]);
    assert_eq!(Address::default().bytes, [0u8; 32]);
}

#[test]
fn pool_layout_is_fields_in_order() {
    let bytes = sample_pool().pack();
    assert_eq!(&bytes[0..32], &[1u8; 32]);
    assert_eq!(&bytes[32..64], &[2u8; 32]);
    assert_eq!(&bytes[64..72], &5_000_000u64.to_le_bytes());
    assert_eq!(&bytes[72..80], &5i64.to_le_bytes());
    assert_eq!(&bytes[80..88], &100_000_000_000u64.to_le_bytes());
    assert_eq!(bytes[88], 254);
    assert_eq!(&bytes[89..112], &[0u8; 23]);
}

#[test]
fn position_layout_is_fields_in_order() {
    let bytes = sample_position().pack();
    assert_eq!(&bytes[0..32], &[3u8; 32]);
    assert_eq!(&bytes[32..64], &[4u8; 32]);
    assert_eq!(&bytes[64..72], &77u64.to_le_bytes());
    assert_eq!(&bytes[72..80], &(-5i64).to_le_bytes());
    assert_eq!(&bytes[80..88], &1_700_000_000i64.to_le_bytes());
    assert_eq!(&bytes[88..96], &u64::MAX.to_le_bytes());
    assert_eq!(&bytes[96..104], &[0u8; 8]);
}

#[test]
fn pool_layout_matches_borsh() {
    let pool = sample_pool();
    let expected = borsh::to_vec(&(
        pool.authority.bytes,
        pool.vault.bytes,
        pool.reward_rate,
        pool.min_lock_period,
        pool.total_staked,
        pool.bump,
        pool._reserved,
    ))
    .unwrap();
    assert_eq!(pool.pack(), expected);
}

#[test]
fn position_layout_matches_borsh() {
    let position = sample_position();
    let expected = borsh::to_vec(&(
        position.owner.bytes,
        position.pool.bytes,
        position.amount,
        position.start_time,
        position.last_claim_time,
        position.rewards_claimed,
        position._reserved,
    ))
    .unwrap();
    assert_eq!(position.pack(), expected);
}

#[test]
fn records_round_trip() {
    let pool = sample_pool();
    assert_eq!(StakingPool::unpack(&pool.pack()), Some(pool));
    let position = sample_position();
    assert_eq!(UserStake::unpack(&position.pack()), Some(position));
}

#[test]
fn reserved_bytes_are_kept() {
    let mut bytes = sample_pool().pack();
    for (i, byte) in bytes[89..112].iter_mut().enumerate() {
        *byte = 200 + i as u8;
    }
    let pool = StakingPool::unpack(&bytes).unwrap();
    assert_eq!(pool._reserved[0], 200);
    assert_eq!(pool._reserved[22], 222);
    assert_eq!(pool.pack(), bytes);

    let mut bytes = sample_position().pack();
    bytes[96] = 9;
    bytes[103] = 8;
    let position = UserStake::unpack(&bytes).unwrap();
    assert_eq!(position._reserved, [9, 0, 0, 0, 0, 0, 0, 8]);
    assert_eq!(position.pack(), bytes);
}

#[test]
fn records_of_other_lengths_are_refused() {
    let bytes = sample_pool().pack();
    assert_eq!(StakingPool::unpack(&bytes[..111]), None);
    assert_eq!(StakingPool::unpack(&[]), None);
    let mut longer = bytes.clone();
    longer.push(0);
    assert_eq!(StakingPool::unpack(&longer), None);
    assert_eq!(UserStake::unpack(&bytes), None);

    let bytes = sample_position().pack();
    assert_eq!(UserStake::unpack(&bytes[..103]), None);
    let mut longer = bytes.clone();
    longer.push(0);
    assert_eq!(UserStake::unpack(&longer), None);
    assert_eq!(StakingPool::unpack(&bytes), None);
}

#[test]
fn integers_are_little_endian() {
    let mut out = Vec::new();
    write_u64(&mut out, 0x0102_0304_0506_0708);
    assert_eq!(out, vec![8, 7, 6, 5, 4, 3, 2, 1]);
    write_i64(&mut out, -2);
    assert_eq!(&out[8..], &[0xfe, 0xff, 0xff, 0xff, 0xff, 0xff, 0xff, 0xff]);
    assert_eq!(read_u64(&out, 0), 0x0102_0304_0506_0708);
    assert_eq!(read_i64(&out, 8), -2);
    for value in [0i64, 1, -1, i64::MAX, i64::MIN, 1_700_000_000] {
        let mut bytes = Vec::new();
        write_i64(&mut bytes, value);
        assert_eq!(bytes, value.to_le_bytes().to_vec());
        assert_eq!(read_i64(&bytes, 0), value);
    }
    for value in [0u64, 1, u64::MAX, 1 << 63, 500_000] {
        let mut bytes = Vec::new();
        write_u64(&mut bytes, value);
        assert_eq!(bytes, value.to_le_bytes().to_vec());
        assert_eq!(read_u64(&bytes, 0), value);
    }
}

#[test]
fn instructions_encode_as_tag_and_arguments() {
    assert_eq!(
        StakingInstruction::InitializePool { reward_rate: 5_000_000, min_lock_period: 5 }.pack(),
        borsh::to_vec(&(0u8, 5_000_000u64, 5i64)).unwrap()
    );
    assert_eq!(
        StakingInstruction::UpdateConfig {
            new_reward_rate: Some(9_999_999),
            new_min_lock_period: None
        }
        .pack(),
        borsh::to_vec(&(1u8, Some(9_999_999u64), None::<i64>)).unwrap()
    );
    assert_eq!(
        StakingInstruction::UpdateConfig { new_reward_rate: None, new_min_lock_period: Some(-1) }
            .pack(),
        borsh::to_vec(&(1u8, None::<u64>, Some(-1i64))).unwrap()
    );
    assert_eq!(StakingInstruction::InitializeUser.pack(), vec![2]);
    assert_eq!(
        StakingInstruction::Stake { amount: 100_000_000_000 }.pack(),
        borsh::to_vec(&(3u8, 100_000_000_000u64)).unwrap()
    );
    assert_eq!(StakingInstruction::ClaimRewards.pack(), vec![4]);
    assert_eq!(StakingInstruction::Unstake.pack(), vec![5]);
}

#[test]
fn instructions_round_trip() {
    let all = [
        StakingInstruction::InitializePool { reward_rate: u64::MAX, min_lock_period: i64::MIN },
        StakingInstruction::UpdateConfig { new_reward_rate: None, new_min_lock_period: None },
        StakingInstruction::UpdateConfig { new_reward_rate: Some(1), new_min_lock_period: None },
        StakingInstruction::UpdateConfig { new_reward_rate: None, new_min_lock_period: Some(2) },
        StakingInstruction::UpdateConfig {
            new_reward_rate: Some(3),
            new_min_lock_period: Some(-4),
        },
        StakingInstruction::InitializeUser,
        StakingInstruction::Stake { amount: 1_000_000_000_000_000 },
        StakingInstruction::ClaimRewards,
        StakingInstruction::Unstake,
    ];
    for instruction in all {
        assert_eq!(StakingInstruction::unpack(&instruction.pack()), Some(instruction));
    }
}

#[test]
fn malformed_instructions_are_refused() {
    assert_eq!(StakingInstruction::unpack(&[]), None);
    assert_eq!(StakingInstruction::unpack(&[6]), None);
    assert_eq!(StakingInstruction::unpack(&[255]), None);
    // a byte left over
    assert_eq!(StakingInstruction::unpack(&[2, 0]), None);
    assert_eq!(StakingInstruction::unpack(&[4, 0]), None);
    assert_eq!(StakingInstruction::unpack(&[5, 0]), None);
    // a byte missing
    assert_eq!(StakingInstruction::unpack(&[3, 1, 2, 3, 4, 5, 6, 7]), None);
    assert_eq!(StakingInstruction::unpack(&[0; 16]), None);
    assert_eq!(StakingInstruction::unpack(&[0; 18]), None);
    assert_eq!(StakingInstruction::unpack(&[1]), None);
    assert_eq!(StakingInstruction::unpack(&[1, 0]), None);
    assert_eq!(StakingInstruction::unpack(&[1, 1, 0, 0, 0, 0, 0, 0, 0, 0]), None);
    // a presence byte that is neither 0 nor 1
    assert_eq!(StakingInstruction::unpack(&[1, 2, 0]), None);
    assert_eq!(StakingInstruction::unpack(&[1, 0, 2]), None);
    assert_eq!(StakingInstruction::unpack(&[1, 0, 0, 0]), None);
    assert_eq!(
        StakingInstruction::unpack(&[1, 0, 0]),
        Some(StakingInstruction::UpdateConfig { new_reward_rate: None, new_min_lock_period: None })
    );
}

#[test]
fn error_codes_follow_declaration_order() {
    let all = [
        (StakingError::Unauthorized, 0, "Unauthorized"),
        (StakingError::NotRentExempt, 1, "NotRentExempt"),
        (StakingError::InvalidOwner, 2, "InvalidOwner"),
        (StakingError::InvalidMint, 3, "InvalidMint"),
        (StakingError::DoubleStake, 4, "DoubleStake"),
        (StakingError::ZeroAmount, 5, "ZeroAmount"),
        (StakingError::LockActive, 6, "LockActive"),
        (StakingError::Overflow, 7, "Overflow"),
        (StakingError::VaultInsufficient, 8, "VaultInsufficient"),
        (StakingError::ATAMissing, 9, "ATAMissing"),
        (StakingError::TimeWentBackwards, 10, "TimeWentBackwards"),
    ];
    for (error, code, message) in all {
        assert_eq!(error.code(), code);
        assert_eq!(error.message(), message);
    }
    assert_ne!(ProgramFault::Staking(StakingError::Overflow), ProgramFault::InvalidArgument);
}

#[test]
fn addresses_compare_by_bytes() {
    let mut bytes = [7u8; 32];
    assert!(Address::new(bytes) == address(7));
    bytes[31] = 8;
    assert!(Address::new(bytes) != address(7));
    bytes[31] = 7;
    bytes[0] = 6;
    assert!(Address::new(bytes) != address(7));
    assert_eq!(address(5).to_vec(), vec![5u8; 32]);
}

#[test]
fn pool_address_is_derived_as_the_ledger_derives_it() {
    let program = Pubkey::new_from_array([11; 32]);
    let mint = Pubkey::new_from_array([12; 32]);
    let (expected, bump) = Pubkey::find_program_address(&[b"pool", mint.as_ref()], &program);
    let found = find_pool_pda(&Address::new(program.to_bytes()), &Address::new(mint.to_bytes()));
    assert_eq!(found, Some((Address::new(expected.to_bytes()), bump)));
    assert_ne!(Address::new(expected.to_bytes()), Address::new(mint.to_bytes()));
}

#[test]
fn user_address_is_derived_as_the_ledger_derives_it() {
    let program = Pubkey::new_from_array([11; 32]);
    let pool = Pubkey::new_from_array([13; 32]);
    let owner = Pubkey::new_from_array([14; 32]);
    let (expected, bump) =
        Pubkey::find_program_address(&[b"user", pool.as_ref(), owner.as_ref()], &program);
    let found = find_user_pda(
        &Address::new(program.to_bytes()),
        &Address::new(pool.to_bytes()),
        &Address::new(owner.to_bytes()),
    );
    assert_eq!(found, Some((Address::new(expected.to_bytes()), bump)));
    // the keys are not interchangeable
    let swapped = find_user_pda(
        &Address::new(program.to_bytes()),
        &Address::new(owner.to_bytes()),
        &Address::new(pool.to_bytes()),
    );
    assert_ne!(swapped, found);
}

#[test]
fn deriving_twice_gives_the_same_address() {
    let program = address(21);
    let mint = address(22);
    let first = find_pool_pda(&program, &mint);
    let second = find_pool_pda(&program, &mint);
    assert!(first.is_some());
    assert_eq!(first, second);
    let other_mint = find_pool_pda(&program, &address(23));
    assert_ne!(first.unwrap().0, other_mint.unwrap().0);
    let other_program = find_pool_pda(&address(24), &mint);
    assert_ne!(first.unwrap().0, other_program.unwrap().0);
}
