//! The operations of the pool and their handlers.
pub mod borrow;
pub mod flash_loan;
pub mod init_pool;
pub mod liquidate_pool;
pub mod repay;

pub use borrow::borrow;
pub use flash_loan::FlashLoanInstruction;
pub use init_pool::init_pool;
pub use liquidate_pool::{deliquidate_pool, liquidate_pool};
pub use repay::repay;
