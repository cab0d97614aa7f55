//! The two persistent records and their fixed binary layouts.

use vstd::prelude::*;
use crate::address::{address_ext_equal, address_from, address_from_view, Address};
use crate::codec::{
    array_ext_equal, bytes_from, bytes_from_view, i64_le, i64_le_injective, i64_le_of_le_value,
    i64_of_bits, le_bytes_len, le_value, read_array, read_i64, read_u64, u64_le,
    u64_le_injective, u64_le_of_le_value, write_i64, write_slice, write_u64,
};

verus! {

/// Size in bytes of a stored pool record.
pub const STAKING_POOL_SIZE: usize = 112;

/// Size in bytes of a stored user position record.
pub const USER_STAKE_SIZE: usize = 104;

/// One per mint: who may configure the pool, where its tokens are held, and
/// how much is staked in it.
#[derive(Clone, Copy, Debug, PartialEq, Eq)]
pub struct StakingPool {
    /// Entity allowed to change the configuration.
    pub authority: Address,
    /// Token account owned by the pool that holds staked and reward tokens.
    pub vault: Address,
    /// Reward units per second per staked unit, scaled by 10^9.
    pub reward_rate: u64,
    /// Seconds a stake must last before its principal can be withdrawn.
    pub min_lock_period: i64,
    /// Sum of all active stakes.
    pub total_staked: u64,
    /// Bump seed that completes the record's address.
    pub bump: u8,
    /// Reserved bytes, kept as they are found.
    pub _reserved: [u8; 23],
}

/// One per pool and owner: the owner's single stake in that pool.
#[derive(Clone, Copy, Debug, PartialEq, Eq)]
pub struct UserStake {
    /// Wallet the position belongs to.
    pub owner: Address,
    /// Pool the position is staked in.
    pub pool: Address,
    /// Staked principal; zero means inactive.
    pub amount: u64,
    /// When the current stake began.
    pub start_time: i64,
    /// When rewards were last settled.
    pub last_claim_time: i64,
    /// Total rewards paid out so far.
    pub rewards_claimed: u64,
    /// Reserved bytes, kept as they are found.
    pub _reserved: [u8; 8],
}

impl StakingPool {
    /// The 112 bytes under which the record is stored: the fields in order,
    /// integers little-endian.
    pub open spec fn encoding(self) -> Seq<u8> {
        self.authority@ + self.vault@ + u64_le(self.reward_rate) + i64_le(self.min_lock_period)
            + u64_le(self.total_staked) + seq![self.bump] + self._reserved@
    }

    /// The record that is stored as `data`, if there is one.
    pub open spec fn decode(data: Seq<u8>) -> Option<StakingPool> {
        if exists|p: StakingPool| #[trigger] p.encoding() == data {
            Some(choose|p: StakingPool| #[trigger] p.encoding() == data)
        } else {
            None
        }
    }

    /// The fields can be read off the encoding at their fixed offsets.
    pub proof fn encoding_layout(self)
        ensures
            self.encoding().len() == 112,
            self.encoding().subrange(0, 32) == self.authority@,
            self.encoding().subrange(32, 64) == self.vault@,
            self.encoding().subrange(64, 72) == u64_le(self.reward_rate),
            self.encoding().subrange(72, 80) == i64_le(self.min_lock_period),
            self.encoding().subrange(80, 88) == u64_le(self.total_staked),
            self.encoding()[88] == self.bump,
            self.encoding().subrange(89, 112) == self._reserved@,
    {
        le_bytes_len(self.reward_rate as nat, 8);
        le_bytes_len(crate::codec::i64_bits(self.min_lock_period) as nat, 8);
        le_bytes_len(self.total_staked as nat, 8);
        let e = self.encoding();
        assert(e.subrange(0, 32) =~= self.authority@);
        assert(e.subrange(32, 64) =~= self.vault@);
        assert(e.subrange(64, 72) =~= u64_le(self.reward_rate));
        assert(e.subrange(72, 80) =~= i64_le(self.min_lock_period));
        assert(e.subrange(80, 88) =~= u64_le(self.total_staked));
        assert(e.subrange(89, 112) =~= self._reserved@);
    }

    /// No two records share an encoding.
    pub proof fn encoding_injective(self, other: StakingPool)
        requires
            self.encoding() == other.encoding(),
        ensures
            self == other,
    {
        self.encoding_layout();
        other.encoding_layout();
        address_ext_equal(self.authority, other.authority);
        address_ext_equal(self.vault, other.vault);
        u64_le_injective(self.reward_rate, other.reward_rate);
        i64_le_injective(self.min_lock_period, other.min_lock_period);
        u64_le_injective(self.total_staked, other.total_staked);
        array_ext_equal(self._reserved, other._reserved);
    }

    /// Decoding undoes encoding.
    pub proof fn decode_of_encoding(self)
        ensures
            StakingPool::decode(self.encoding()) == Some(self),
    {
        let found = choose|p: StakingPool| #[trigger] p.encoding() == self.encoding();
        found.encoding_injective(self);
    }

    /// What decodes to a record is that record's encoding, 112 bytes long.
    pub proof fn encoding_of_decode(data: Seq<u8>)
        requires
            StakingPool::decode(data) is Some,
        ensures
            StakingPool::decode(data)->0.encoding() == data,
            data.len() == 112,
    {
        StakingPool::decode(data)->0.encoding_layout();
    }

    /// Exactly the inputs of 112 bytes decode, each to the record whose
    /// fields stand at the fixed offsets.
    pub proof fn decode_by_layout(data: Seq<u8>)
        ensures
            StakingPool::decode(data) is Some <==> data.len() == 112,
            data.len() == 112 ==> StakingPool::decode(data) == Some(
                StakingPool {
                    authority: address_from(data.subrange(0, 32)),
                    vault: address_from(data.subrange(32, 64)),
                    reward_rate: le_value(data.subrange(64, 72)) as u64,
                    min_lock_period: i64_of_bits(le_value(data.subrange(72, 80)) as u64),
                    total_staked: le_value(data.subrange(80, 88)) as u64,
                    bump: data[88],
                    _reserved: bytes_from::<23>(data.subrange(89, 112)),
                },
            ),
    {
        if data.len() == 112 {
            let pool = StakingPool {
                authority: address_from(data.subrange(0, 32)),
                vault: address_from(data.subrange(32, 64)),
                reward_rate: le_value(data.subrange(64, 72)) as u64,
                min_lock_period: i64_of_bits(le_value(data.subrange(72, 80)) as u64),
                total_staked: le_value(data.subrange(80, 88)) as u64,
                bump: data[88],
                _reserved: bytes_from::<23>(data.subrange(89, 112)),
            };
            address_from_view(data.subrange(0, 32));
            address_from_view(data.subrange(32, 64));
            u64_le_of_le_value(data.subrange(64, 72));
            i64_le_of_le_value(data.subrange(72, 80));
            u64_le_of_le_value(data.subrange(80, 88));
            bytes_from_view::<23>(data.subrange(89, 112));
            assert(pool.encoding() =~= data);
            pool.decode_of_encoding();
        } else if StakingPool::decode(data) is Some {
            StakingPool::encoding_of_decode(data);
        }
    }

    /// A fresh pool record: nothing staked, reserved bytes zero.
    pub fn new(
        authority: Address,
        vault: Address,
        reward_rate: u64,
        min_lock_period: i64,
        bump: u8,
    ) -> (pool: Self)
        ensures
            pool.authority == authority,
            pool.vault == vault,
            pool.reward_rate == reward_rate,
            pool.min_lock_period == min_lock_period,
            pool.total_staked == 0,
            pool.bump == bump,
            pool._reserved@ == Seq::new(23, |i: int| 0u8),
    {
        let pool = StakingPool {
            authority,
            vault,
            reward_rate,
            min_lock_period,
            total_staked: 0,
            bump,
            _reserved: [0u8; 23],
        };
        assert(pool._reserved@ =~= Seq::new(23, |i: int| 0u8));
        pool
    }

    /// The stored form of the record.
    pub fn pack(&self) -> (out: Vec<u8>)
        ensures
            out@ == self.encoding(),
            out@.len() == 112,
    {
        let mut out: Vec<u8> = Vec::new();
        write_slice(&mut out, self.authority.bytes.as_slice(), 0, 32);
        write_slice(&mut out, self.vault.bytes.as_slice(), 0, 32);
        write_u64(&mut out, self.reward_rate);
        write_i64(&mut out, self.min_lock_period);
        write_u64(&mut out, self.total_staked);
        out.push(self.bump);
        write_slice(&mut out, self._reserved.as_slice(), 0, 23);
        proof {
            assert(self.authority@.subrange(0, 32) =~= self.authority@);
            assert(self.vault@.subrange(0, 32) =~= self.vault@);
            assert(self._reserved@.subrange(0, 23) =~= self._reserved@);
            assert(out@ =~= self.encoding());
            self.encoding_layout();
        }
        out
    }

    /// Reads a stored record. Succeeds exactly on 112 bytes.
    pub fn unpack(data: &[u8]) -> (pool: Option<Self>)
        ensures
            pool == StakingPool::decode(data@),
            pool is Some <==> data@.len() == 112,
    {
        if data.len() != STAKING_POOL_SIZE {
            proof {
                if StakingPool::decode(data@) is Some {
                    StakingPool::encoding_of_decode(data@);
                }
            }
            return None;
        }
        let pool = StakingPool {
            authority: Address { bytes: read_array::<32>(data, 0) },
            vault: Address { bytes: read_array::<32>(data, 32) },
            reward_rate: read_u64(data, 64),
            min_lock_period: read_i64(data, 72),
            total_staked: read_u64(data, 80),
            bump: data[88],
            _reserved: read_array::<23>(data, 89),
        };
        proof {
            assert(pool.encoding() =~= data@) by {
                let d = data@;
                assert(d =~= d.subrange(0, 32) + d.subrange(32, 64) + d.subrange(64, 72)
                    + d.subrange(72, 80) + d.subrange(80, 88) + seq![d[88]] + d.subrange(89, 112));
            }
            pool.decode_of_encoding();
        }
        Some(pool)
    }
}

impl UserStake {
    /// The 104 bytes under which the record is stored: the fields in order,
    /// integers little-endian.
    pub open spec fn encoding(self) -> Seq<u8> {
        self.owner@ + self.pool@ + u64_le(self.amount) + i64_le(self.start_time) + i64_le(
            self.last_claim_time,
        ) + u64_le(self.rewards_claimed) + self._reserved@
    }

    /// The record that is stored as `data`, if there is one.
    pub open spec fn decode(data: Seq<u8>) -> Option<UserStake> {
        if exists|u: UserStake| #[trigger] u.encoding() == data {
            Some(choose|u: UserStake| #[trigger] u.encoding() == data)
        } else {
            None
        }
    }

    /// The record `InitializeUser` writes: inactive, nothing claimed,
    /// reserved bytes zero.
    pub open spec fn is_fresh(self, owner: Address, pool: Address) -> bool {
        &&& self.owner == owner
        &&& self.pool == pool
        &&& self.amount == 0
        &&& self.start_time == 0
        &&& self.last_claim_time == 0
        &&& self.rewards_claimed == 0
        &&& self._reserved@ == Seq::new(8, |i: int| 0u8)
    }

    /// The fields can be read off the encoding at their fixed offsets.
    pub proof fn encoding_layout(self)
        ensures
            self.encoding().len() == 104,
            self.encoding().subrange(0, 32) == self.owner@,
            self.encoding().subrange(32, 64) == self.pool@,
            self.encoding().subrange(64, 72) == u64_le(self.amount),
            self.encoding().subrange(72, 80) == i64_le(self.start_time),
            self.encoding().subrange(80, 88) == i64_le(self.last_claim_time),
            self.encoding().subrange(88, 96) == u64_le(self.rewards_claimed),
            self.encoding().subrange(96, 104) == self._reserved@,
    {
        le_bytes_len(self.amount as nat, 8);
        le_bytes_len(crate::codec::i64_bits(self.start_time) as nat, 8);
        le_bytes_len(crate::codec::i64_bits(self.last_claim_time) as nat, 8);
        le_bytes_len(self.rewards_claimed as nat, 8);
        let e = self.encoding();
        assert(e.subrange(0, 32) =~= self.owner@);
        assert(e.subrange(32, 64) =~= self.pool@);
        assert(e.subrange(64, 72) =~= u64_le(self.amount));
        assert(e.subrange(72, 80) =~= i64_le(self.start_time));
        assert(e.subrange(80, 88) =~= i64_le(self.last_claim_time));
        assert(e.subrange(88, 96) =~= u64_le(self.rewards_claimed));
        assert(e.subrange(96, 104) =~= self._reserved@);
    }

    /// No two records share an encoding.
    pub proof fn encoding_injective(self, other: UserStake)
        requires
            self.encoding() == other.encoding(),
        ensures
            self == other,
    {
        self.encoding_layout();
        other.encoding_layout();
        address_ext_equal(self.owner, other.owner);
        address_ext_equal(self.pool, other.pool);
        u64_le_injective(self.amount, other.amount);
        i64_le_injective(self.start_time, other.start_time);
        i64_le_injective(self.last_claim_time, other.last_claim_time);
        u64_le_injective(self.rewards_claimed, other.rewards_claimed);
        array_ext_equal(self._reserved, other._reserved);
    }

    /// Decoding undoes encoding.
    pub proof fn decode_of_encoding(self)
        ensures
            UserStake::decode(self.encoding()) == Some(self),
    {
        let found = choose|u: UserStake| #[trigger] u.encoding() == self.encoding();
        found.encoding_injective(self);
    }

    /// What decodes to a record is that record's encoding, 104 bytes long.
    pub proof fn encoding_of_decode(data: Seq<u8>)
        requires
            UserStake::decode(data) is Some,
        ensures
            UserStake::decode(data)->0.encoding() == data,
            data.len() == 104,
    {
        UserStake::decode(data)->0.encoding_layout();
    }

    /// Exactly the inputs of 104 bytes decode, each to the record whose
    /// fields stand at the fixed offsets.
    pub proof fn decode_by_layout(data: Seq<u8>)
        ensures
            UserStake::decode(data) is Some <==> data.len() == 104,
            data.len() == 104 ==> UserStake::decode(data) == Some(
                UserStake {
                    owner: address_from(data.subrange(0, 32)),
                    pool: address_from(data.subrange(32, 64)),
                    amount: le_value(data.subrange(64, 72)) as u64,
                    start_time: i64_of_bits(le_value(data.subrange(72, 80)) as u64),
                    last_claim_time: i64_of_bits(le_value(data.subrange(80, 88)) as u64),
                    rewards_claimed: le_value(data.subrange(88, 96)) as u64,
                    _reserved: bytes_from::<8>(data.subrange(96, 104)),
                },
            ),
    {
        if data.len() == 104 {
            let position = UserStake {
                owner: address_from(data.subrange(0, 32)),
                pool: address_from(data.subrange(32, 64)),
                amount: le_value(data.subrange(64, 72)) as u64,
                start_time: i64_of_bits(le_value(data.subrange(72, 80)) as u64),
                last_claim_time: i64_of_bits(le_value(data.subrange(80, 88)) as u64),
                rewards_claimed: le_value(data.subrange(88, 96)) as u64,
                _reserved: bytes_from::<8>(data.subrange(96, 104)),
            };
            address_from_view(data.subrange(0, 32));
            address_from_view(data.subrange(32, 64));
            u64_le_of_le_value(data.subrange(64, 72));
            i64_le_of_le_value(data.subrange(72, 80));
            i64_le_of_le_value(data.subrange(80, 88));
            u64_le_of_le_value(data.subrange(88, 96));
            bytes_from_view::<8>(data.subrange(96, 104));
            assert(position.encoding() =~= data);
            position.decode_of_encoding();
        } else if UserStake::decode(data) is Some {
            UserStake::encoding_of_decode(data);
        }
    }

    /// The stored form of the record.
    pub fn pack(&self) -> (out: Vec<u8>)
        ensures
            out@ == self.encoding(),
            out@.len() == 104,
    {
        let mut out: Vec<u8> = Vec::new();
        write_slice(&mut out, self.owner.bytes.as_slice(), 0, 32);
        write_slice(&mut out, self.pool.bytes.as_slice(), 0, 32);
        write_u64(&mut out, self.amount);
        write_i64(&mut out, self.start_time);
        write_i64(&mut out, self.last_claim_time);
        write_u64(&mut out, self.rewards_claimed);
        write_slice(&mut out, self._reserved.as_slice(), 0, 8);
        proof {
            assert(self.owner@.subrange(0, 32) =~= self.owner@);
            assert(self.pool@.subrange(0, 32) =~= self.pool@);
            assert(self._reserved@.subrange(0, 8) =~= self._reserved@);
            assert(out@ =~= self.encoding());
            self.encoding_layout();
        }
        out
    }

    /// Reads a stored record. Succeeds exactly on 104 bytes.
    pub fn unpack(data: &[u8]) -> (position: Option<Self>)
        ensures
            position == UserStake::decode(data@),
            position is Some <==> data@.len() == 104,
    {
        if data.len() != USER_STAKE_SIZE {
            proof {
                if UserStake::decode(data@) is Some {
                    UserStake::encoding_of_decode(data@);
                }
            }
            return None;
        }
        let position = UserStake {
            owner: Address { bytes: read_array::<32>(data, 0) },
            pool: Address { bytes: read_array::<32>(data, 32) },
            amount: read_u64(data, 64),
            start_time: read_i64(data, 72),
            last_claim_time: read_i64(data, 80),
            rewards_claimed: read_u64(data, 88),
            _reserved: read_array::<8>(data, 96),
        };
        proof {
            assert(position.encoding() =~= data@) by {
                let d = data@;
                assert(d =~= d.subrange(0, 32) + d.subrange(32, 64) + d.subrange(64, 72)
                    + d.subrange(72, 80) + d.subrange(80, 88) + d.subrange(88, 96) + d.subrange(
                    96,
                    104,
                ));
            }
            position.decode_of_encoding();
        }
        Some(position)
    }
}

impl Default for UserStake {
    /// The all-zero record.
    fn default() -> (position: Self)
        ensures
            position.is_fresh(position.owner, position.pool),
            position.owner@ == Seq::new(32, |i: int| 0u8),
            position.pool@ == Seq::new(32, |i: int| 0u8),
    {
        let position = UserStake {
            owner: Address::default(),
            pool: Address::default(),
            amount: 0,
            start_time: 0,
            last_claim_time: 0,
            rewards_claimed: 0,
            _reserved: [0u8; 8],
        };
        assert(position._reserved@ =~= Seq::new(8, |i: int| 0u8));
        position
    }
}

} // verus!
