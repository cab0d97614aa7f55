//! The minimum balance that exempts an account from rent.

use vstd::prelude::*;
use solana_program::account_info::AccountInfo;
use solana_program::pubkey::Pubkey;
use solana_program::rent::Rent;
use solana_program::sysvar::Sysvar;
use crate::address::Address;
use crate::codec::{le_value, read_u64};

verus! {

/// Bytes charged for every account on top of its data.
pub const ACCOUNT_STORAGE_OVERHEAD: u64 = 128;

/// The minimum balance that `Rent::minimum_balance` gives for `len` bytes of
/// data, under the rent record that `Rent::from_account_info` reads from an
/// account with this key and data; `None` where no rent record is read.
pub uninterp spec fn rent_minimum(key: Address, data: Seq<u8>, len: nat) -> Option<u64>;

/// The charged size, and the rate in the first eight bytes of the rent
/// record times the charged size, fit in 64 bits.
pub open spec fn rent_in_range(data: Seq<u8>, len: nat) -> bool {
    data.len() >= 8 ==> {
        &&& ACCOUNT_STORAGE_OVERHEAD + len <= u64::MAX
        &&& (ACCOUNT_STORAGE_OVERHEAD + len) * le_value(data.subrange(0, 8)) <= u64::MAX
    }
}

/// The balance an account of `len` bytes needs, by the rent record held in
/// the account `(key, data)`: `None` where that account holds no rent
/// record, or where size or rate are too large for the sum to be worked
/// out in 64 bits.
pub open spec fn exempt_minimum(key: Address, data: Seq<u8>, len: nat) -> Option<u64> {
    if rent_in_range(data, len) {
        rent_minimum(key, data, len)
    } else {
        None
    }
}

/// Calls `Rent::from_account_info` on an account made of the key and the
/// data, then `Rent::minimum_balance` on the record read. The first returns
/// an error unless the key is that of the rent record and the data
/// deserialises; the second adds 128 to `len` and multiplies the sum by the
/// record's rate, the first eight bytes of the data, both in 64 bits, and
/// scales the product. `requires` keeps sum and product in range. The
/// outcome depends on key, data and length alone; the contract names it
/// `rent_minimum` and claims nothing else about it.
#[verifier::external_body]
fn rent_minimum_balance(key: &Address, data: &Vec<u8>, len: usize) -> (minimum: Option<u64>)
    requires
        rent_in_range(data@, len as nat),
    ensures
        minimum == rent_minimum(*key, data@, len as nat),
{
    let id = Pubkey::new_from_array(key.bytes);
    let owner = Pubkey::default();
    let mut lamports = 0u64;
    let mut bytes = data.clone();
    let info = AccountInfo::new(&id, false, false, &mut lamports, &mut bytes, &owner, false, 0);
    match Rent::from_account_info(&info) {
        Ok(rent) => Some(rent.minimum_balance(len)),
        Err(_) => None,
    }
}

/// The balance an account of `len` bytes needs to be exempt from rent.
pub fn rent_exempt_minimum(key: &Address, data: &Vec<u8>, len: usize) -> (minimum: Option<u64>)
    ensures
        minimum == exempt_minimum(*key, data@, len as nat),
{
    if data.len() >= 8 {
        let rate: u64 = read_u64(data.as_slice(), 0);
        let charged: u128 = ACCOUNT_STORAGE_OVERHEAD as u128 + len as u128;
        if charged > u64::MAX as u128 {
            return None;
        }
        match charged.checked_mul(rate as u128) {
            None => {
                return None;
            },
            Some(product) => {
                if product > u64::MAX as u128 {
                    return None;
                }
            },
        }
    }
    rent_minimum_balance(key, data, len)
}

} // verus!
