//! Account identities and the deterministic addresses of the two record kinds.

use vstd::prelude::*;
use vstd::std_specs::cmp::PartialEqSpecImpl;
use solana_program::pubkey::Pubkey;
use crate::codec::{bytes_from, bytes_from_view};

verus! {

/// Domain tag of pool record addresses: the ASCII bytes of `pool`.
pub const SEED_POOL: [u8; 4] = [112u8, 111u8, 111u8, 108u8];

/// Domain tag of user position addresses: the ASCII bytes of `user`.
pub const SEED_USER: [u8; 4] = [117u8, 115u8, 101u8, 114u8];

/// The pool domain tag as a byte string.
pub open spec fn seed_pool() -> Seq<u8> {
    SEED_POOL@
}

/// The user domain tag as a byte string.
pub open spec fn seed_user() -> Seq<u8> {
    SEED_USER@
}

/// A 32-byte account identity.
#[derive(Clone, Copy, Debug, Eq)]
pub struct Address {
    pub bytes: [u8; 32],
}

impl View for Address {
    type V = Seq<u8>;

    open spec fn view(&self) -> Seq<u8> {
        self.bytes@
    }
}

impl PartialEq for Address {
    fn eq(&self, other: &Self) -> (equal: bool) {
        let mut i: usize = 0;
        while i < 32
            invariant
                i <= 32,
                forall|j: int| 0 <= j < i ==> self.bytes[j] == other.bytes[j],
            decreases 32 - i,
        {
            if self.bytes[i] != other.bytes[i] {
                return false;
            }
            i = i + 1;
        }
        assert(self.bytes =~= other.bytes);
        true
    }
}

impl PartialEqSpecImpl for Address {
    open spec fn obeys_eq_spec() -> bool {
        true
    }

    open spec fn eq_spec(&self, other: &Self) -> bool {
        *self == *other
    }
}

impl Default for Address {
    /// The all-zero identity.
    fn default() -> (address: Self)
        ensures
            address@ == Seq::new(32, |i: int| 0u8),
    {
        let address = Address { bytes: [0u8; 32] };
        assert(address@ =~= Seq::new(32, |i: int| 0u8));
        address
    }
}

impl Address {
    /// The identity made of the given 32 bytes.
    pub fn new(bytes: [u8; 32]) -> (address: Self)
        ensures
            address.bytes == bytes,
    {
        Address { bytes }
    }

    /// The 32 bytes of this identity, in order.
    pub fn to_vec(&self) -> (out: Vec<u8>)
        ensures
            out@ == self@,
    {
        let mut out: Vec<u8> = Vec::new();
        let mut i: usize = 0;
        while i < 32
            invariant
                i <= 32,
                out@ == self@.subrange(0, i as int),
            decreases 32 - i,
        {
            out.push(self.bytes[i]);
            assert(out@ =~= self@.subrange(0, i + 1));
            i = i + 1;
        }
        assert(out@ =~= self@);
        out
    }
}

/// Two identities with the same bytes are the same identity.
pub proof fn address_ext_equal(a: Address, b: Address)
    requires
        a@ == b@,
    ensures
        a == b,
{
    assert(forall|i: int| 0 <= i < 32 ==> a.bytes[i] == a@[i]);
    assert(forall|i: int| 0 <= i < 32 ==> b.bytes[i] == b@[i]);
    assert(a.bytes =~= b.bytes);
}

/// The identity whose bytes are `bytes`.
pub open spec fn address_from(bytes: Seq<u8>) -> Address
    recommends
        bytes.len() == 32,
{
    Address { bytes: bytes_from::<32>(bytes) }
}

/// Every sequence of 32 bytes is the bytes of an identity.
pub proof fn address_from_view(bytes: Seq<u8>)
    requires
        bytes.len() == 32,
    ensures
        address_from(bytes)@ == bytes,
{
    bytes_from_view::<32>(bytes);
}

/// An identity is the identity of its bytes.
pub proof fn address_of_view(address: Address)
    ensures
        address_from(address@) == address,
{
    address_from_view(address@);
    address_ext_equal(address_from(address@), address);
}

/// The address and bump seed that `Pubkey::try_find_program_address` derives
/// from a seed list under a program, or `None` where it finds no bump seed or
/// refuses the seeds.
pub uninterp spec fn program_address(seeds: Seq<Seq<u8>>, program: Address) -> Option<
    (Address, u8),
>;

/// Calls `Pubkey::try_find_program_address`. The derivation hashes the seeds,
/// a bump seed and the program identity, so its outcome depends on nothing
/// but the arguments; the contract gives that outcome the name
/// `program_address` and claims nothing else about it.
#[verifier::external_body]
pub(crate) fn derive_program_address(seeds: &Vec<Vec<u8>>, program: &Address) -> (found: Option<
    (Address, u8),
>)
    ensures
        found == program_address(seeds@.map_values(|s: Vec<u8>| s@), *program),
{
    let parts: Vec<&[u8]> = seeds.iter().map(|s| s.as_slice()).collect();
    let program_key = Pubkey::new_from_array(program.bytes);
    match Pubkey::try_find_program_address(&parts, &program_key) {
        Some((key, bump)) => Some((Address { bytes: key.to_bytes() }, bump)),
        None => None,
    }
}

/// The address of a derived pair.
pub open spec fn address_of(found: (Address, u8)) -> Address {
    let (address, _) = found;
    address
}

/// The bump seed of a derived pair.
pub open spec fn bump_of(found: (Address, u8)) -> u8 {
    let (_, bump) = found;
    bump
}

/// Address and bump seed of the pool record of `mint` under `program`.
pub open spec fn pool_address(program: Address, mint: Address) -> Option<(Address, u8)> {
    program_address(seq![seed_pool(), mint@], program)
}

/// Address and bump seed of the position record of `owner` in `pool` under
/// `program`.
pub open spec fn user_address(program: Address, pool: Address, owner: Address) -> Option<
    (Address, u8),
> {
    program_address(seq![seed_user(), pool@, owner@], program)
}

/// The bytes of a domain tag.
fn tag_bytes(tag: &[u8; 4]) -> (out: Vec<u8>)
    ensures
        out@ == tag@,
{
    let mut out: Vec<u8> = Vec::new();
    let mut i: usize = 0;
    while i < 4
        invariant
            i <= 4,
            out@ == tag@.subrange(0, i as int),
        decreases 4 - i,
    {
        out.push(tag[i]);
        assert(out@ =~= tag@.subrange(0, i + 1));
        i = i + 1;
    }
    assert(out@ =~= tag@);
    out
}

/// The bytes of the pool domain tag.
pub fn seed_pool_bytes() -> (tag: Vec<u8>)
    ensures
        tag@ == seed_pool(),
{
    tag_bytes(&SEED_POOL)
}

/// The bytes of the user domain tag.
pub fn seed_user_bytes() -> (tag: Vec<u8>)
    ensures
        tag@ == seed_user(),
{
    tag_bytes(&SEED_USER)
}

/// Derives the pool record's address for a mint. The result is a function of
/// `(program, mint)` alone: two calls with the same arguments return the same
/// pair.
pub fn find_pool_pda(program: &Address, mint: &Address) -> (found: Option<(Address, u8)>)
    ensures
        found == pool_address(*program, *mint),
{
    let mut seeds: Vec<Vec<u8>> = Vec::new();
    seeds.push(seed_pool_bytes());
    seeds.push(mint.to_vec());
    assert(seeds@.map_values(|s: Vec<u8>| s@) =~= seq![seed_pool(), mint@]);
    derive_program_address(&seeds, program)
}

/// Derives the position record's address for an owner in a pool. The result
/// is a function of `(program, pool, owner)` alone.
pub fn find_user_pda(program: &Address, pool: &Address, owner: &Address) -> (found: Option<
    (Address, u8),
>)
    ensures
        found == user_address(*program, *pool, *owner),
{
    let mut seeds: Vec<Vec<u8>> = Vec::new();
    seeds.push(seed_user_bytes());
    seeds.push(pool.to_vec());
    seeds.push(owner.to_vec());
    assert(seeds@.map_values(|s: Vec<u8>| s@) =~= seq![seed_user(), pool@, owner@]);
    derive_program_address(&seeds, program)
}

} // verus!
