//! Failure kinds of the flash-loan pool.
use vstd::prelude::*;

verus! {

/// Every way an operation on the pool can be refused.
///
/// A refusal aborts the whole atomic batch the operation belongs to; the
/// engine never retries and never applies an operation in part.
#[derive(Clone, Copy, Debug, PartialEq, Eq, Structural)]
pub enum FlashLoanError {
    /// The derivation salt does not reproduce the stored control address.
    InvalidAuthority,
    /// The pool holds less than the loan asks for.
    InsufficientLiquidity,
    /// The repayment differs from what the loan declared as due.
    InvalidRepaymentAmount,
    /// The loan is not repaid inside the batch that took it.
    LoanMustBeRepaidImmediately,
    /// A loan is already open in this batch.
    FlashLoanAlreadyTaken,
    /// The asset of an account is not the expected one.
    InvalidTokenMint,
    /// Overflow, underflow or division by zero.
    MathError,
    /// The account may not perform the action.
    UnauthorizedAccess,
    /// The paying account holds too little.
    InsufficientFunds,
    /// An account's content or address is not what the operation needs.
    InvalidAccountData,
    /// The pool identifier does not name the stored pool, or the pool's
    /// time window has closed.
    InvalidPoolId,
    /// An amount is zero, or too small to be worth one share.
    InvalidAmount,
    /// The acting party did not sign the batch.
    MissingRequiredSignature,
    /// The operation's bytes do not encode one of the five operations.
    InvalidInstructionData,
    /// A loan is not directly followed by its matching repayment.
    InvalidInstructionSequence,
    /// The pool record's storage is below the minimum balance that keeps it.
    NotProvisioned,
    /// Fewer accounts were passed than the operation reads.
    NotEnoughAccountKeys,
    /// The token program account is not the token program.
    IncorrectProgramId,
}

impl FlashLoanError {
    /// The numeric code under which the host reports this failure.
    pub open spec fn spec_code(self) -> u32 {
        match self {
            FlashLoanError::InvalidAuthority => 0,
            FlashLoanError::InsufficientLiquidity => 1,
            FlashLoanError::InvalidRepaymentAmount => 2,
            FlashLoanError::LoanMustBeRepaidImmediately => 3,
            FlashLoanError::FlashLoanAlreadyTaken => 4,
            FlashLoanError::InvalidTokenMint => 5,
            FlashLoanError::MathError => 6,
            FlashLoanError::UnauthorizedAccess => 7,
            FlashLoanError::InsufficientFunds => 8,
            FlashLoanError::InvalidAccountData => 9,
            FlashLoanError::InvalidPoolId => 10,
            FlashLoanError::InvalidAmount => 11,
            FlashLoanError::MissingRequiredSignature => 12,
            FlashLoanError::InvalidInstructionData => 13,
            FlashLoanError::InvalidInstructionSequence => 14,
            FlashLoanError::NotProvisioned => 15,
            FlashLoanError::NotEnoughAccountKeys => 16,
            FlashLoanError::IncorrectProgramId => 17,
        }
    }

    /// The text shown for this failure.
    pub open spec fn spec_message(self) -> Seq<char> {
        match self {
            FlashLoanError::InvalidAuthority => "Invalid authority provided."@,
            FlashLoanError::InsufficientLiquidity => "Insufficient liquidity in pool."@,
            FlashLoanError::InvalidRepaymentAmount => "Repayment amount is incorrect."@,
            FlashLoanError::LoanMustBeRepaidImmediately => "Loan must be repaid in the same transaction."@,
            FlashLoanError::FlashLoanAlreadyTaken => "Flash loan has already been taken."@,
            FlashLoanError::InvalidTokenMint => "Token mismatch detected."@,
            FlashLoanError::MathError => "Arithmetic overflow or underflow occurred."@,
            FlashLoanError::UnauthorizedAccess => "Unauthorized account access."@,
            FlashLoanError::InsufficientFunds => "Insufficient funds in the account"@,
            FlashLoanError::InvalidAccountData => "Invalid ATA passed who's owner isn't the specified borrower"@,
            FlashLoanError::InvalidPoolId => "Invalid pool id passed in the instruction as it doesnt match with the pool's pda pool_id"@,
            FlashLoanError::InvalidAmount => "Amount can't be zero"@,
            FlashLoanError::MissingRequiredSignature => "The passed account is_signer flag is set to false"@,
            FlashLoanError::InvalidInstructionData => "Invalid instruction data provided"@,
            FlashLoanError::InvalidInstructionSequence => "Borrow must be followed by its matching repay"@,
            FlashLoanError::NotProvisioned => "Pool account is not rent exempt"@,
            FlashLoanError::NotEnoughAccountKeys => "Not enough account keys given to the instruction"@,
            FlashLoanError::IncorrectProgramId => "Incorrect program id for instruction"@,
        }
    }

    /// Returns the numeric code of this failure.
    pub fn code(&self) -> (c: u32)
        ensures
            c == self.spec_code(),
    {
        match self {
            FlashLoanError::InvalidAuthority => 0,
            FlashLoanError::InsufficientLiquidity => 1,
            FlashLoanError::InvalidRepaymentAmount => 2,
            FlashLoanError::LoanMustBeRepaidImmediately => 3,
            FlashLoanError::FlashLoanAlreadyTaken => 4,
            FlashLoanError::InvalidTokenMint => 5,
            FlashLoanError::MathError => 6,
            FlashLoanError::UnauthorizedAccess => 7,
            FlashLoanError::InsufficientFunds => 8,
            FlashLoanError::InvalidAccountData => 9,
            FlashLoanError::InvalidPoolId => 10,
            FlashLoanError::InvalidAmount => 11,
            FlashLoanError::MissingRequiredSignature => 12,
            FlashLoanError::InvalidInstructionData => 13,
            FlashLoanError::InvalidInstructionSequence => 14,
            FlashLoanError::NotProvisioned => 15,
            FlashLoanError::NotEnoughAccountKeys => 16,
            FlashLoanError::IncorrectProgramId => 17,
        }
    }

    /// Returns the text shown for this failure.
    pub fn message(&self) -> (text: String)
        ensures
            text@ == self.spec_message(),
    {
        match self {
            FlashLoanError::InvalidAuthority => "Invalid authority provided.".to_owned(),
            FlashLoanError::InsufficientLiquidity => "Insufficient liquidity in pool.".to_owned(),
            FlashLoanError::InvalidRepaymentAmount => "Repayment amount is incorrect.".to_owned(),
            FlashLoanError::LoanMustBeRepaidImmediately => "Loan must be repaid in the same transaction.".to_owned(),
            FlashLoanError::FlashLoanAlreadyTaken => "Flash loan has already been taken.".to_owned(),
            FlashLoanError::InvalidTokenMint => "Token mismatch detected.".to_owned(),
            FlashLoanError::MathError => "Arithmetic overflow or underflow occurred.".to_owned(),
            FlashLoanError::UnauthorizedAccess => "Unauthorized account access.".to_owned(),
            FlashLoanError::InsufficientFunds => "Insufficient funds in the account".to_owned(),
            FlashLoanError::InvalidAccountData => "Invalid ATA passed who's owner isn't the specified borrower".to_owned(),
            FlashLoanError::InvalidPoolId => "Invalid pool id passed in the instruction as it doesnt match with the pool's pda pool_id".to_owned(),
            FlashLoanError::InvalidAmount => "Amount can't be zero".to_owned(),
            FlashLoanError::MissingRequiredSignature => "The passed account is_signer flag is set to false".to_owned(),
            FlashLoanError::InvalidInstructionData => "Invalid instruction data provided".to_owned(),
            FlashLoanError::InvalidInstructionSequence => "Borrow must be followed by its matching repay".to_owned(),
            FlashLoanError::NotProvisioned => "Pool account is not rent exempt".to_owned(),
            FlashLoanError::NotEnoughAccountKeys => "Not enough account keys given to the instruction".to_owned(),
            FlashLoanError::IncorrectProgramId => "Incorrect program id for instruction".to_owned(),
        }
    }
}

} // verus!
