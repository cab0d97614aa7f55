//! A custodial staking ledger: users deposit tokens into a pool's vault,
//! accrue rewards in proportion to time staked, and withdraw principal and
//! rewards once a lock period has passed.
//!
//! The crate decides; it does not act. [`process_instruction`] takes a
//! request, snapshots of the accounts it names and the clock's reading, and
//! returns a [`Step`]: the calls into other programs to make and the bytes
//! to store, or the failure. The host makes the calls in the order given,
//! stores the bytes, and applies all of it or none of it. Where the step is
//! an allocation, the host runs the request again at the stage the step
//! names, on fresh snapshots.
//!
//! - [`state`] holds the two records and their binary layouts,
//!   [`instruction`] the requests and theirs.
//! - [`processor`] and [`provision`] hold the six operations, each with the
//!   function that says what it comes to on every input.
//! - [`laws`] and [`ledger`] state what follows: that totals track
//!   positions, that payouts are exact and covered, that only the authority
//!   configures.
//! - [`address`], [`token`], [`cpi`] and [`rent`] are where the crate meets
//!   the ledger's own libraries: address derivation, token account data,
//!   the calls it prepares, and the rent-exempt minimum.

pub mod address;
pub mod codec;
pub mod cpi;
pub mod error;
pub mod instruction;
pub mod laws;
pub mod ledger;
pub mod processor;
pub mod provision;
pub mod rent;
pub mod reward;
pub mod state;
pub mod step;
pub mod token;

pub use address::{find_pool_pda, find_user_pda, Address, SEED_POOL, SEED_USER};
pub use cpi::{AccountMeta, Instruction};
pub use error::{ProgramFault, StakingError};
pub use instruction::StakingInstruction;
pub use processor::{
    process_claim, process_instruction, process_stake, process_unstake, process_update_config,
};
pub use provision::{process_initialize_pool, process_initialize_user};
pub use state::{StakingPool, UserStake, STAKING_POOL_SIZE, USER_STAKE_SIZE};
pub use step::{AccountView, Invocation, Stage, Step, Transfer, Write};
pub use token::TokenAccount;
