//! Calls into other programs, prepared for the host to carry out.

use vstd::prelude::*;
use solana_program::pubkey::Pubkey;
use solana_program::system_instruction;
use spl_associated_token_account::instruction::create_associated_token_account;
use spl_token::instruction::transfer;
use crate::address::{address_of, derive_program_address, program_address, Address};
use crate::codec::u64_le;

verus! {

/// One account named by a call: its identity and how the callee may use it.
#[derive(Clone, Copy, Debug, PartialEq, Eq)]
pub struct AccountMeta {
    pub pubkey: Address,
    pub is_signer: bool,
    pub is_writable: bool,
}

/// A call into another program.
#[derive(Clone, Debug, PartialEq, Eq)]
pub struct Instruction {
    /// The program that executes the call.
    pub program_id: Address,
    /// The accounts the callee is given.
    pub accounts: Vec<AccountMeta>,
    /// The payload, for the callee to interpret.
    pub data: Vec<u8>,
}

/// An `Instruction` as a mathematical value.
pub struct InstructionView {
    pub program_id: Address,
    pub accounts: Seq<AccountMeta>,
    pub data: Seq<u8>,
}

impl View for Instruction {
    type V = InstructionView;

    open spec fn view(&self) -> InstructionView {
        InstructionView { program_id: self.program_id, accounts: self.accounts@, data: self.data@ }
    }
}

/// The identity under which the associated-token program derives the
/// addresses of the accounts it creates.
pub open spec fn associated_token_program() -> Address {
    Address {
        bytes: [
            140u8, 151u8, 37u8, 143u8, 78u8, 36u8, 137u8, 241u8, 187u8, 61u8, 16u8, 41u8, 20u8,
            142u8, 13u8, 131u8, 11u8, 90u8, 19u8, 153u8, 218u8, 255u8, 16u8, 132u8, 4u8, 142u8,
            123u8, 216u8, 219u8, 233u8, 248u8, 89u8,
        ],
    }
}

/// The identity of the associated-token program.
pub fn associated_token_program_id() -> (id: Address)
    ensures
        id == associated_token_program(),
{
    Address {
        bytes: [
            140u8, 151u8, 37u8, 143u8, 78u8, 36u8, 137u8, 241u8, 187u8, 61u8, 16u8, 41u8, 20u8,
            142u8, 13u8, 131u8, 11u8, 90u8, 19u8, 153u8, 218u8, 255u8, 16u8, 132u8, 4u8, 142u8,
            123u8, 216u8, 219u8, 233u8, 248u8, 89u8,
        ],
    }
}

/// The identity of the token program.
pub open spec fn token_program() -> Address {
    Address {
        bytes: [
            6u8, 221u8, 246u8, 225u8, 215u8, 101u8, 161u8, 147u8, 217u8, 203u8, 225u8, 70u8, 206u8,
            235u8, 121u8, 172u8, 28u8, 180u8, 133u8, 237u8, 95u8, 91u8, 55u8, 145u8, 58u8, 140u8,
            245u8, 133u8, 126u8, 255u8, 0u8, 169u8,
        ],
    }
}

/// The identity of the token program.
pub fn token_program_id() -> (id: Address)
    ensures
        id == token_program(),
{
    Address {
        bytes: [
            6u8, 221u8, 246u8, 225u8, 215u8, 101u8, 161u8, 147u8, 217u8, 203u8, 225u8, 70u8, 206u8,
            235u8, 121u8, 172u8, 28u8, 180u8, 133u8, 237u8, 95u8, 91u8, 55u8, 145u8, 58u8, 140u8,
            245u8, 133u8, 126u8, 255u8, 0u8, 169u8,
        ],
    }
}

/// The identity of the system program: 32 zero bytes.
pub open spec fn system_program() -> Address {
    Address {
        bytes: [
            0u8, 0u8, 0u8, 0u8, 0u8, 0u8, 0u8, 0u8, 0u8, 0u8, 0u8, 0u8, 0u8, 0u8, 0u8, 0u8,
            0u8, 0u8, 0u8, 0u8, 0u8, 0u8, 0u8, 0u8, 0u8, 0u8, 0u8, 0u8, 0u8, 0u8, 0u8, 0u8,
        ],
    }
}

/// The identity of the system program.
pub fn system_program_id() -> (id: Address)
    ensures
        id == system_program(),
{
    Address {
        bytes: [
            0u8, 0u8, 0u8, 0u8, 0u8, 0u8, 0u8, 0u8, 0u8, 0u8, 0u8, 0u8, 0u8, 0u8, 0u8, 0u8,
            0u8, 0u8, 0u8, 0u8, 0u8, 0u8, 0u8, 0u8, 0u8, 0u8, 0u8, 0u8, 0u8, 0u8, 0u8, 0u8,
        ],
    }
}

/// An account the callee may write to.
pub open spec fn writable(pubkey: Address, is_signer: bool) -> AccountMeta {
    AccountMeta { pubkey, is_signer, is_writable: true }
}

/// An account the callee may only read.
pub open spec fn readonly(pubkey: Address, is_signer: bool) -> AccountMeta {
    AccountMeta { pubkey, is_signer, is_writable: false }
}

/// The seeds from which the vault of `wallet` for `mint` is addressed.
pub open spec fn vault_seeds(wallet: Address, token_program: Address, mint: Address) -> Seq<
    Seq<u8>,
> {
    seq![wallet@, token_program@, mint@]
}

/// The call that moves `amount` tokens from `source` to `destination` on
/// the signature of `authority`: tag 3 and the amount, sent to the token
/// program. There is none where `program` is not the token program.
pub open spec fn token_transfer(
    program: Address,
    source: Address,
    destination: Address,
    authority: Address,
    amount: u64,
) -> Option<InstructionView> {
    if program != token_program() {
        None
    } else {
        Some(
            InstructionView {
                program_id: program,
                accounts: seq![
                    writable(source, false),
                    writable(destination, false),
                    readonly(authority, true),
                ],
                data: seq![3u8] + u64_le(amount),
            },
        )
    }
}

/// The call that allocates `space` bytes at `account`, funded with
/// `lamports` by `payer` and owned by `owner`: tag 0 in four bytes, the two
/// numbers and the owner, sent to the system program and signed by both
/// accounts.
pub open spec fn account_creation(
    payer: Address,
    account: Address,
    lamports: u64,
    space: u64,
    owner: Address,
) -> InstructionView {
    InstructionView {
        program_id: system_program(),
        accounts: seq![writable(payer, true), writable(account, true)],
        data: seq![0u8, 0u8, 0u8, 0u8] + u64_le(lamports) + u64_le(space) + owner@,
    }
}

/// The call that creates the token account of `wallet` for `mint` at its
/// derived address, paid for by `payer`: tag 0, sent to the
/// associated-token program.
pub open spec fn vault_creation(
    payer: Address,
    wallet: Address,
    mint: Address,
    token_program: Address,
) -> InstructionView
    recommends
        program_address(vault_seeds(wallet, token_program, mint), associated_token_program())
            is Some,
{
    InstructionView {
        program_id: associated_token_program(),
        accounts: seq![
            writable(payer, true),
            writable(
                address_of(
                    program_address(
                        vault_seeds(wallet, token_program, mint),
                        associated_token_program(),
                    )->0,
                ),
                false,
            ),
            readonly(wallet, false),
            readonly(mint, false),
            readonly(system_program(), false),
            readonly(token_program, false),
        ],
        data: seq![0u8],
    }
}

/// Calls `spl_token::instruction::transfer` with no further signers. It
/// fails only where `token_program` is not the token program's identity.
/// Otherwise the call it builds goes to that program, names source and
/// destination as writable and the authority as a read-only signer, and
/// carries the tag 3 followed by the amount in little-endian order. The
/// contract says exactly that.
#[verifier::external_body]
pub(crate) fn build_token_transfer(
    token_program: &Address,
    source: &Address,
    destination: &Address,
    authority: &Address,
    amount: u64,
) -> (built: Option<Instruction>)
    ensures
        built matches Some(call) ==> token_transfer(
            *token_program,
            *source,
            *destination,
            *authority,
            amount,
        ) == Some(call@),
        built is None ==> token_transfer(*token_program, *source, *destination, *authority, amount)
            is None,
{
    let keys = [token_program, source, destination, authority];
    let keys = keys.map(|a| Pubkey::new_from_array(a.bytes));
    let call = transfer(&keys[0], &keys[1], &keys[2], &keys[3], &[], amount).ok()?;
    let metas = call.accounts.iter().map(|m| AccountMeta {
        pubkey: Address { bytes: m.pubkey.to_bytes() },
        is_signer: m.is_signer,
        is_writable: m.is_writable,
    });
    Some(Instruction {
        program_id: Address { bytes: call.program_id.to_bytes() },
        accounts: metas.collect(),
        data: call.data,
    })
}

/// Calls `solana_program::system_instruction::create_account`, which does
/// not fail. The call it builds goes to the system program, names payer and
/// new account as writable signers, and carries the serialised request: the
/// variant number 0 in four bytes, lamports and space in little-endian
/// order, and the owner. The contract says exactly that.
#[verifier::external_body]
pub(crate) fn build_account_creation(
    payer: &Address,
    account: &Address,
    lamports: u64,
    space: u64,
    owner: &Address,
) -> (call: Instruction)
    ensures
        call@ == account_creation(*payer, *account, lamports, space, *owner),
{
    let keys = [payer, account, owner].map(|a| Pubkey::new_from_array(a.bytes));
    let call = system_instruction::create_account(&keys[0], &keys[1], lamports, space, &keys[2]);
    let metas = call.accounts.iter().map(|m| AccountMeta {
        pubkey: Address { bytes: m.pubkey.to_bytes() },
        is_signer: m.is_signer,
        is_writable: m.is_writable,
    });
    Instruction {
        program_id: Address { bytes: call.program_id.to_bytes() },
        accounts: metas.collect(),
        data: call.data,
    }
}

/// Calls `spl_associated_token_account::instruction::create_associated_token_account`.
/// It derives the new account's address with `Pubkey::find_program_address`
/// from the seeds `(wallet, token_program, mint)` under the
/// associated-token program, and panics where that finds none: `requires`
/// leaves those arguments out. The call it builds goes to the
/// associated-token program, names the payer as writable signer, the derived
/// address as writable, and wallet, mint, system program and token program
/// as read-only, and carries the tag 0. The contract says exactly that.
#[verifier::external_body]
pub(crate) fn build_vault_creation(
    payer: &Address,
    wallet: &Address,
    mint: &Address,
    token_program: &Address,
) -> (call: Instruction)
    requires
        program_address(vault_seeds(*wallet, *token_program, *mint), associated_token_program())
            is Some,
    ensures
        call@ == vault_creation(*payer, *wallet, *mint, *token_program),
{
    let keys = [payer, wallet, mint, token_program].map(|a| Pubkey::new_from_array(a.bytes));
    let call = create_associated_token_account(&keys[0], &keys[1], &keys[2], &keys[3]);
    let metas = call.accounts.iter().map(|m| AccountMeta {
        pubkey: Address { bytes: m.pubkey.to_bytes() },
        is_signer: m.is_signer,
        is_writable: m.is_writable,
    });
    Instruction {
        program_id: Address { bytes: call.program_id.to_bytes() },
        accounts: metas.collect(),
        data: call.data,
    }
}

/// Prepares the creation of the token account of `wallet` for `mint`, or
/// returns `None` where no address can be derived for that account.
pub fn plan_vault_creation(
    payer: &Address,
    wallet: &Address,
    mint: &Address,
    token_program: &Address,
) -> (planned: Option<Instruction>)
    ensures
        planned matches Some(call) ==> program_address(
            vault_seeds(*wallet, *token_program, *mint),
            associated_token_program(),
        ) is Some,
        planned matches Some(call) ==> call@ == vault_creation(
            *payer,
            *wallet,
            *mint,
            *token_program,
        ),
        planned is None ==> program_address(
            vault_seeds(*wallet, *token_program, *mint),
            associated_token_program(),
        ) is None,
{
    let mut seeds: Vec<Vec<u8>> = Vec::new();
    seeds.push(wallet.to_vec());
    seeds.push(token_program.to_vec());
    seeds.push(mint.to_vec());
    assert(seeds@.map_values(|s: Vec<u8>| s@) =~= vault_seeds(*wallet, *token_program, *mint));
    match derive_program_address(&seeds, &associated_token_program_id()) {
        Some(_) => Some(build_vault_creation(payer, wallet, mint, token_program)),
        None => None,
    }
}

} // verus!
