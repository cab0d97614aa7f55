//! The six operations and their wire encoding: a one-byte tag, then the
//! arguments in order, integers little-endian, an optional argument as a
//! presence byte followed by the value where present.

use vstd::prelude::*;
use crate::codec::{
    i64_le, i64_le_injective, le_bytes_len, read_i64, read_u64, u64_le, u64_le_injective,
    write_i64, write_u64,
};

verus! {

#[derive(Clone, Copy, Debug, PartialEq, Eq)]
pub enum StakingInstruction {
    /// Create the pool of a mint.
    ///
    /// Accounts: payer (signer), authority (signer), pool, mint, vault,
    /// token program, associated-token program, system program, rent.
    InitializePool { reward_rate: u64, min_lock_period: i64 },
    /// Change the pool's configuration; an absent value leaves its field.
    ///
    /// Accounts: authority (signer), pool.
    UpdateConfig { new_reward_rate: Option<u64>, new_min_lock_period: Option<i64> },
    /// Open the caller's position in a pool.
    ///
    /// Accounts: payer (signer), user (signer), pool, position, system
    /// program, rent.
    InitializeUser,
    /// Move `amount` tokens from the caller into the vault.
    ///
    /// Accounts: user (signer), user token account, mint, pool, position,
    /// vault, token program.
    Stake { amount: u64 },
    /// Pay out the rewards accrued since the last settlement.
    ///
    /// Accounts: user (signer), user token account, mint, position, pool,
    /// vault, token program.
    ClaimRewards,
    /// Settle rewards and return the principal once the lock has run out.
    ///
    /// Accounts: user (signer), user token account, mint, position, pool,
    /// vault, token program.
    Unstake,
}

/// Encoding of an optional unsigned argument.
pub open spec fn opt_u64_le(x: Option<u64>) -> Seq<u8> {
    match x {
        None => seq![0u8],
        Some(v) => seq![1u8] + u64_le(v),
    }
}

/// Encoding of an optional signed argument.
pub open spec fn opt_i64_le(x: Option<i64>) -> Seq<u8> {
    match x {
        None => seq![0u8],
        Some(v) => seq![1u8] + i64_le(v),
    }
}

proof fn opt_u64_le_shape(x: Option<u64>)
    ensures
        x is None ==> opt_u64_le(x).len() == 1 && opt_u64_le(x)[0] == 0,
        x is Some ==> opt_u64_le(x).len() == 9 && opt_u64_le(x)[0] == 1 && opt_u64_le(x).subrange(
            1,
            9,
        ) == u64_le(x->0),
{
    if let Some(v) = x {
        le_bytes_len(v as nat, 8);
        assert(opt_u64_le(x).subrange(1, 9) =~= u64_le(v));
    }
}

proof fn opt_i64_le_shape(x: Option<i64>)
    ensures
        x is None ==> opt_i64_le(x).len() == 1 && opt_i64_le(x)[0] == 0,
        x is Some ==> opt_i64_le(x).len() == 9 && opt_i64_le(x)[0] == 1 && opt_i64_le(x).subrange(
            1,
            9,
        ) == i64_le(x->0),
{
    if let Some(v) = x {
        le_bytes_len(crate::codec::i64_bits(v) as nat, 8);
        assert(opt_i64_le(x).subrange(1, 9) =~= i64_le(v));
    }
}

impl StakingInstruction {
    /// The tag byte of the operation.
    pub open spec fn tag(self) -> u8 {
        match self {
            StakingInstruction::InitializePool { .. } => 0,
            StakingInstruction::UpdateConfig { .. } => 1,
            StakingInstruction::InitializeUser => 2,
            StakingInstruction::Stake { .. } => 3,
            StakingInstruction::ClaimRewards => 4,
            StakingInstruction::Unstake => 5,
        }
    }

    /// The arguments of the operation, encoded in order.
    pub open spec fn arguments(self) -> Seq<u8> {
        match self {
            StakingInstruction::InitializePool { reward_rate, min_lock_period } => u64_le(
                reward_rate,
            ) + i64_le(min_lock_period),
            StakingInstruction::UpdateConfig { new_reward_rate, new_min_lock_period } => opt_u64_le(
                new_reward_rate,
            ) + opt_i64_le(new_min_lock_period),
            StakingInstruction::InitializeUser => Seq::empty(),
            StakingInstruction::Stake { amount } => u64_le(amount),
            StakingInstruction::ClaimRewards => Seq::empty(),
            StakingInstruction::Unstake => Seq::empty(),
        }
    }

    /// The payload that requests the operation.
    pub open spec fn encoding(self) -> Seq<u8> {
        seq![self.tag()] + self.arguments()
    }

    /// The operation that `data` requests, if it requests one.
    pub open spec fn decode(data: Seq<u8>) -> Option<StakingInstruction> {
        if exists|ix: StakingInstruction| #[trigger] ix.encoding() == data {
            Some(choose|ix: StakingInstruction| #[trigger] ix.encoding() == data)
        } else {
            None
        }
    }

    /// Where tag, presence bytes and values stand in the payload.
    pub proof fn encoding_layout(self)
        ensures
            self.encoding().len() >= 1,
            self.encoding()[0] == self.tag(),
            self.encoding().subrange(1, self.encoding().len() as int) == self.arguments(),
            (match self {
                StakingInstruction::InitializePool { reward_rate, min_lock_period } => {
                    &&& self.arguments().len() == 16
                    &&& self.arguments().subrange(0, 8) == u64_le(reward_rate)
                    &&& self.arguments().subrange(8, 16) == i64_le(min_lock_period)
                },
                StakingInstruction::UpdateConfig { new_reward_rate, new_min_lock_period } => {
                    let first = opt_u64_le(new_reward_rate);
                    let second = opt_i64_le(new_min_lock_period);
                    &&& self.arguments().len() == first.len() + second.len()
                    &&& self.arguments().subrange(0, first.len() as int) == first
                    &&& self.arguments().subrange(
                        first.len() as int,
                        self.arguments().len() as int,
                    ) == second
                },
                StakingInstruction::Stake { amount } => self.arguments().len() == 8,
                _ => self.arguments().len() == 0,
            }),
    {
        let e = self.encoding();
        let a = self.arguments();
        assert(e.subrange(1, e.len() as int) =~= a);
        match self {
            StakingInstruction::InitializePool { reward_rate, min_lock_period } => {
                le_bytes_len(reward_rate as nat, 8);
                le_bytes_len(crate::codec::i64_bits(min_lock_period) as nat, 8);
                assert(a.subrange(0, 8) =~= u64_le(reward_rate));
                assert(a.subrange(8, 16) =~= i64_le(min_lock_period));
            },
            StakingInstruction::UpdateConfig { new_reward_rate, new_min_lock_period } => {
                let first = opt_u64_le(new_reward_rate);
                let second = opt_i64_le(new_min_lock_period);
                assert(a.subrange(0, first.len() as int) =~= first);
                assert(a.subrange(first.len() as int, a.len() as int) =~= second);
            },
            StakingInstruction::Stake { amount } => {
                le_bytes_len(amount as nat, 8);
            },
            _ => {},
        }
    }

    /// No two operations share a payload.
    pub proof fn encoding_injective(self, other: StakingInstruction)
        requires
            self.encoding() == other.encoding(),
        ensures
            self == other,
    {
        self.encoding_layout();
        other.encoding_layout();
        match (self, other) {
            (
                StakingInstruction::InitializePool { reward_rate: r1, min_lock_period: l1 },
                StakingInstruction::InitializePool { reward_rate: r2, min_lock_period: l2 },
            ) => {
                u64_le_injective(r1, r2);
                i64_le_injective(l1, l2);
            },
            (
                StakingInstruction::UpdateConfig { new_reward_rate: r1, new_min_lock_period: l1 },
                StakingInstruction::UpdateConfig { new_reward_rate: r2, new_min_lock_period: l2 },
            ) => {
                opt_u64_le_shape(r1);
                opt_u64_le_shape(r2);
                opt_i64_le_shape(l1);
                opt_i64_le_shape(l2);
                let a = self.arguments();
                assert(opt_u64_le(r1)[0] == a[0]);
                assert(opt_u64_le(r2)[0] == a[0]);
                assert(opt_u64_le(r1) == opt_u64_le(r2));
                assert(opt_i64_le(l1) == opt_i64_le(l2));
                if r1 is Some {
                    u64_le_injective(r1->0, r2->0);
                }
                if l1 is Some {
                    i64_le_injective(l1->0, l2->0);
                }
            },
            (
                StakingInstruction::Stake { amount: a1 },
                StakingInstruction::Stake { amount: a2 },
            ) => {
                u64_le_injective(a1, a2);
            },
            _ => {},
        }
    }

    /// Decoding undoes encoding.
    pub proof fn decode_of_encoding(self)
        ensures
            StakingInstruction::decode(self.encoding()) == Some(self),
    {
        let found = choose|ix: StakingInstruction| #[trigger] ix.encoding() == self.encoding();
        found.encoding_injective(self);
    }

    /// The payload that requests this operation.
    pub fn pack(&self) -> (out: Vec<u8>)
        ensures
            out@ == self.encoding(),
    {
        let mut out: Vec<u8> = Vec::new();
        match self {
            StakingInstruction::InitializePool { reward_rate, min_lock_period } => {
                out.push(0u8);
                write_u64(&mut out, *reward_rate);
                write_i64(&mut out, *min_lock_period);
            },
            StakingInstruction::UpdateConfig { new_reward_rate, new_min_lock_period } => {
                out.push(1u8);
                match new_reward_rate {
                    None => {
                        out.push(0u8);
                    },
                    Some(rate) => {
                        out.push(1u8);
                        write_u64(&mut out, *rate);
                    },
                }
                assert(out@ =~= seq![1u8] + opt_u64_le(*new_reward_rate));
                match new_min_lock_period {
                    None => {
                        out.push(0u8);
                    },
                    Some(period) => {
                        out.push(1u8);
                        write_i64(&mut out, *period);
                    },
                }
                assert(out@ =~= seq![1u8] + opt_u64_le(*new_reward_rate) + opt_i64_le(
                    *new_min_lock_period,
                ));
            },
            StakingInstruction::InitializeUser => {
                out.push(2u8);
            },
            StakingInstruction::Stake { amount } => {
                out.push(3u8);
                write_u64(&mut out, *amount);
            },
            StakingInstruction::ClaimRewards => {
                out.push(4u8);
            },
            StakingInstruction::Unstake => {
                out.push(5u8);
            },
        }
        assert(out@ =~= self.encoding());
        out
    }

    /// Reads a payload. Succeeds exactly on the encodings of the six
    /// operations: an unknown tag, a presence byte other than 0 or 1, a
    /// missing byte or a byte left over is refused.
    pub fn unpack(data: &[u8]) -> (ix: Option<Self>)
        ensures
            ix == StakingInstruction::decode(data@),
    {
        let len: usize = data.len();
        let parsed: Option<StakingInstruction> = if len == 0 {
            None
        } else {
            let tag: u8 = data[0];
            if tag == 0 {
                if len == 17 {
                    Some(
                        StakingInstruction::InitializePool {
                            reward_rate: read_u64(data, 1),
                            min_lock_period: read_i64(data, 9),
                        },
                    )
                } else {
                    None
                }
            } else if tag == 1 {
                Self::unpack_update_config(data)
            } else if tag == 2 {
                if len == 1 {
                    Some(StakingInstruction::InitializeUser)
                } else {
                    None
                }
            } else if tag == 3 {
                if len == 9 {
                    Some(StakingInstruction::Stake { amount: read_u64(data, 1) })
                } else {
                    None
                }
            } else if tag == 4 {
                if len == 1 {
                    Some(StakingInstruction::ClaimRewards)
                } else {
                    None
                }
            } else if tag == 5 {
                if len == 1 {
                    Some(StakingInstruction::Unstake)
                } else {
                    None
                }
            } else {
                None
            }
        };
        proof {
            match parsed {
                Some(ix) => {
                    ix.encoding_layout();
                    if data@[0] != 1 {
                        assert(ix.encoding() =~= data@) by {
                            let d = data@;
                            if d[0] == 0 {
                                assert(d =~= seq![d[0]] + (d.subrange(1, 9) + d.subrange(9, 17)));
                            } else if d[0] == 3 {
                                assert(d =~= seq![d[0]] + d.subrange(1, 9));
                            } else {
                                assert(d =~= seq![d[0]] + Seq::<u8>::empty());
                            }
                        }
                    }
                    ix.decode_of_encoding();
                },
                None => {
                    assert forall|ix: StakingInstruction| #[trigger] ix.encoding() != data@ by {
                        ix.encoding_layout();
                        if let StakingInstruction::UpdateConfig {
                            new_reward_rate,
                            new_min_lock_period,
                        } = ix {
                            opt_u64_le_shape(new_reward_rate);
                            opt_i64_le_shape(new_min_lock_period);
                        }
                    }
                },
            }
        }
        parsed
    }

    /// Reads the arguments of `UpdateConfig` behind the tag.
    fn unpack_update_config(data: &[u8]) -> (ix: Option<Self>)
        requires
            data@.len() >= 1,
            data@[0] == 1,
        ensures
            ix matches Some(found) ==> found.encoding() == data@,
            ix is None ==> forall|other: StakingInstruction|
                other is UpdateConfig ==> #[trigger] other.encoding() != data@,
    {
        let len: usize = data.len();
        if len < 2 {
            proof {
                Self::update_config_mismatch(data@);
            }
            return None;
        }
        let first: u8 = data[1];
        let (rate, next): (Option<u64>, usize) = if first == 0 {
            (None, 2)
        } else if first == 1 && len >= 10 {
            (Some(read_u64(data, 2)), 10)
        } else {
            proof {
                Self::update_config_mismatch(data@);
            }
            return None;
        };
        if len <= next {
            proof {
                Self::update_config_mismatch(data@);
            }
            return None;
        }
        let second: u8 = data[next];
        let (period, end): (Option<i64>, usize) = if second == 0 {
            (None, next + 1)
        } else if second == 1 && len >= next + 9 {
            (Some(read_i64(data, next + 1)), next + 9)
        } else {
            proof {
                Self::update_config_mismatch(data@);
            }
            return None;
        };
        if end != len {
            proof {
                Self::update_config_mismatch(data@);
            }
            return None;
        }
        let found = StakingInstruction::UpdateConfig {
            new_reward_rate: rate,
            new_min_lock_period: period,
        };
        proof {
            opt_u64_le_shape(rate);
            opt_i64_le_shape(period);
            let d = data@;
            assert(opt_u64_le(rate) =~= d.subrange(1, next as int));
            assert(opt_i64_le(period) =~= d.subrange(next as int, len as int));
            assert(found.encoding() =~= d);
        }
        Some(found)
    }

    /// A payload that breaks the layout of `UpdateConfig` encodes no
    /// `UpdateConfig`.
    proof fn update_config_mismatch(data: Seq<u8>)
        requires
            ({
                let next: int = if data.len() >= 2 && data[1] == 1 {
                    10
                } else {
                    2
                };
                let end: int = if data.len() > next && data[next] == 1 {
                    next + 9
                } else {
                    next + 1
                };
                ||| data.len() < 2
                ||| data[1] > 1
                ||| data.len() <= next
                ||| data[next] > 1
                ||| data.len() != end
            }),
        ensures
            forall|other: StakingInstruction|
                other is UpdateConfig ==> #[trigger] other.encoding() != data,
    {
        assert forall|other: StakingInstruction|
            other is UpdateConfig implies #[trigger] other.encoding() != data by {
            other.encoding_layout();
            if let StakingInstruction::UpdateConfig { new_reward_rate, new_min_lock_period } =
                other {
                opt_u64_le_shape(new_reward_rate);
                opt_i64_le_shape(new_min_lock_period);
                let a = other.arguments();
                let first = opt_u64_le(new_reward_rate);
                let second = opt_i64_le(new_min_lock_period);
                if other.encoding() == data {
                    assert(data[1] == a[0]);
                    assert(a[0] == first[0]);
                    assert(second[0] == a[first.len() as int]);
                    assert(a[first.len() as int] == data[first.len() as int + 1]);
                }
            }
        }
    }
}

} // verus!
