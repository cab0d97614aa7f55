//! What the processor reads of a token-holding account.

use vstd::prelude::*;
use solana_program::program_pack::Pack;
use crate::address::{address_from, Address};
use crate::codec::le_value;

verus! {

/// Size in bytes of the data of a token-holding account.
pub const TOKEN_ACCOUNT_SIZE: usize = 165;

/// The three properties of a token-holding account that the staking rules
/// look at.
#[derive(Clone, Copy, Debug, PartialEq, Eq)]
pub struct TokenAccount {
    /// The token type the account is denominated in.
    pub mint: Address,
    /// Who controls the account.
    pub owner: Address,
    /// The balance.
    pub amount: u64,
}

/// The four bytes at `at` mark an optional field as absent or present.
pub open spec fn option_tag_ok(data: Seq<u8>, at: int) -> bool {
    &&& data[at] == 0 || data[at] == 1
    &&& data[at + 1] == 0
    &&& data[at + 2] == 0
    &&& data[at + 3] == 0
}

/// `data` is the data of a token-holding account in use: 165 bytes, the
/// state byte says initialised or frozen, and the three optional fields
/// (delegate, native reserve, close authority) are marked properly.
pub open spec fn is_token_account(data: Seq<u8>) -> bool {
    &&& data.len() == TOKEN_ACCOUNT_SIZE
    &&& option_tag_ok(data, 72)
    &&& data[108] == 1 || data[108] == 2
    &&& option_tag_ok(data, 109)
    &&& option_tag_ok(data, 129)
}

/// Mint, owner and balance of the token-holding account stored as `data`:
/// the first 32 bytes, the next 32, and the 8 after those, little-endian.
pub open spec fn token_account(data: Seq<u8>) -> Option<TokenAccount> {
    if is_token_account(data) {
        Some(
            TokenAccount {
                mint: address_from(data.subrange(0, 32)),
                owner: address_from(data.subrange(32, 64)),
                amount: le_value(data.subrange(64, 72)) as u64,
            },
        )
    } else {
        None
    }
}

/// Calls `spl_token::state::Account::unpack`. It refuses data that is not
/// 165 bytes long, an optional field whose four marker bytes are neither
/// `0 0 0 0` nor `1 0 0 0`, a state byte above 2, and an account whose state
/// byte is 0 (not initialised); otherwise it reads mint, owner and amount
/// from the fixed offsets 0, 32 and 64. The contract says exactly that.
#[verifier::external_body]
pub(crate) fn unpack_token_account(data: &Vec<u8>) -> (account: Option<TokenAccount>)
    ensures
        account == token_account(data@),
{
    match spl_token::state::Account::unpack(data.as_slice()) {
        Ok(parsed) => Some(
            TokenAccount {
                mint: Address { bytes: parsed.mint.to_bytes() },
                owner: Address { bytes: parsed.owner.to_bytes() },
                amount: parsed.amount,
            },
        ),
        Err(_) => None,
    }
}

} // verus!
