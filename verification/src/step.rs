//! What the processor is shown of the ledger, and what it hands back for the
//! host to carry out.

use vstd::prelude::*;
use crate::address::Address;
use crate::cpi::{Instruction, InstructionView};

verus! {

/// One account reference as the processor is shown it: a snapshot taken by
/// the host when it calls.
#[derive(Clone, Debug, PartialEq, Eq)]
pub struct AccountView {
    /// The account's address.
    pub key: Address,
    /// Whether the account signed the request.
    pub is_signer: bool,
    /// The account's balance in the ledger's own currency.
    pub lamports: u64,
    /// The stored bytes.
    pub data: Vec<u8>,
}

/// A call into another program together with what the host needs to place
/// it: which of the operation's accounts to pass, by position, and, where
/// the call is made in the name of a derived address, that address's seeds.
#[derive(Clone, Debug, PartialEq, Eq)]
pub struct Invocation {
    pub instruction: Instruction,
    pub accounts: Vec<usize>,
    pub signer_seeds: Option<Vec<Vec<u8>>>,
}

/// A movement of tokens: the number of units and the call that moves them.
#[derive(Clone, Debug, PartialEq, Eq)]
pub struct Transfer {
    pub amount: u64,
    pub call: Invocation,
}

/// New contents for the data of one of the operation's accounts, named by
/// position. The contents are as long as the data they replace.
#[derive(Clone, Debug, PartialEq, Eq)]
pub struct Write {
    pub account: usize,
    pub data: Vec<u8>,
}

/// Where an operation stands. Every operation begins at `Start`; the others
/// are handed out by the processor with an allocation and handed back by the
/// host once the allocation has been carried out.
#[derive(Clone, Copy, Debug, PartialEq, Eq, Structural)]
pub enum Stage {
    Start,
    /// `InitializePool`: storage for the pool record has just been created.
    PoolAllocated,
    /// `InitializePool`: the vault has just been created.
    VaultCreated,
    /// `InitializeUser`: storage for the position has just been created.
    UserAllocated,
}

/// What the host must do next.
#[derive(Clone, Debug, PartialEq, Eq)]
pub enum Step {
    /// Carry out the call, then run the operation again at stage `resume`
    /// on fresh snapshots of the same accounts.
    Allocate { call: Invocation, resume: Stage },
    /// Carry out the transfers in order, then persist the writes in order.
    /// The operation is complete.
    Complete { transfers: Vec<Transfer>, writes: Vec<Write> },
}

pub struct InvocationView {
    pub instruction: InstructionView,
    pub accounts: Seq<usize>,
    pub signer_seeds: Option<Seq<Seq<u8>>>,
}

pub struct TransferView {
    pub amount: u64,
    pub call: InvocationView,
}

pub struct WriteView {
    pub account: usize,
    pub data: Seq<u8>,
}

pub enum StepView {
    Allocate { call: InvocationView, resume: Stage },
    Complete { transfers: Seq<TransferView>, writes: Seq<WriteView> },
}

/// A seed list as a sequence of byte strings.
pub open spec fn seeds_view(seeds: Seq<Vec<u8>>) -> Seq<Seq<u8>> {
    seeds.map_values(|s: Vec<u8>| s@)
}

impl View for Invocation {
    type V = InvocationView;

    open spec fn view(&self) -> InvocationView {
        InvocationView {
            instruction: self.instruction@,
            accounts: self.accounts@,
            signer_seeds: match self.signer_seeds {
                Some(seeds) => Some(seeds_view(seeds@)),
                None => None,
            },
        }
    }
}

impl View for Transfer {
    type V = TransferView;

    open spec fn view(&self) -> TransferView {
        TransferView { amount: self.amount, call: self.call@ }
    }
}

impl View for Write {
    type V = WriteView;

    open spec fn view(&self) -> WriteView {
        WriteView { account: self.account, data: self.data@ }
    }
}

impl View for Step {
    type V = StepView;

    open spec fn view(&self) -> StepView {
        match self {
            Step::Allocate { call, resume } => StepView::Allocate { call: call@, resume: *resume },
            Step::Complete { transfers, writes } => StepView::Complete {
                transfers: transfers@.map_values(|t: Transfer| t@),
                writes: writes@.map_values(|w: Write| w@),
            },
        }
    }
}

/// The outcome of an operation as a mathematical value.
pub open spec fn outcome_view(outcome: Result<Step, crate::error::ProgramFault>) -> Result<
    StepView,
    crate::error::ProgramFault,
> {
    match outcome {
        Ok(step) => Ok(step@),
        Err(fault) => Err(fault),
    }
}

/// The step that changes nothing.
pub open spec fn nothing_to_do() -> StepView {
    StepView::Complete { transfers: Seq::empty(), writes: Seq::empty() }
}

} // verus!
