//! A single-asset liquidity pool with flash loans that must be repaid inside
//! the atomic batch that took them.
//!
//! The pool is a deterministic state-transition handler. Its host runs the
//! steps of a batch one after the other and commits all of them or none.
//! Each step is given the accounts it names and answers with the pool
//! record to store and the requests to make of the token program; a step
//! that is refused aborts the batch.
pub mod account;
pub mod address;
pub mod codec;
pub mod cpi;
pub mod error;
pub mod instruction;
pub mod ledger;
pub mod processor;
pub mod state;
pub mod utils;

pub use account::{Account, BatchPlan, Outcome, PlannedInstruction, Sysvars};
pub use address::{Address, AuthorityKind, DerivedAuthority, ID};
pub use cpi::{AccountMeta, Instruction, Invocation, TokenHolding};
pub use error::FlashLoanError;
pub use instruction::{
    borrow, deliquidate_pool, init_pool, liquidate_pool, repay, FlashLoanInstruction,
};
pub use processor::{process, process_instruction, record_position};
pub use state::{Deposit, LoanTerms, Pool, Withdrawal};
pub use utils::{burn_tokens, create_ata, create_mint, mint_tokens, transfer_tokens};
