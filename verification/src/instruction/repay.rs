//! Repay: the second half of a flash loan.
//!
//! The repayment itself cannot know what the loan declared as due. It moves
//! the amount it declares; the loan before it was granted only because it
//! read that declaration and found it equal to the amount due.
use vstd::prelude::*;
use crate::account::{result_view, Account, Outcome, OutcomeView, Sysvars};
use crate::address::{Address, TOKEN_PROGRAM_ID};
use crate::cpi::transfer_instruction;
use crate::error::FlashLoanError;
use crate::state::{spec_truncated_time, truncated_time, Pool};
use crate::utils::{signed, transfer_tokens};

verus! {

/// Accounts that a repayment reads: the borrower, the pool record, the
/// borrower's token account, the vault, the token program, and the account
/// through which the host shows the time.
pub const REPAY_ACCOUNTS: usize = 6;

/// What a repayment of `amount` to pool `pool_id` does, or why it is
/// refused. The first condition that fails decides.
pub open spec fn spec_repay(
    program_id: Address,
    accounts: Seq<Account>,
    pool_id: u8,
    amount: u64,
    sysvars: Sysvars,
) -> Result<OutcomeView, FlashLoanError> {
    if accounts.len() < REPAY_ACCOUNTS {
        Err(FlashLoanError::NotEnoughAccountKeys)
    } else if spec_truncated_time(sysvars.unix_timestamp) > pool_id {
        Err(FlashLoanError::InvalidPoolId)
    } else if !accounts[0].is_signer {
        Err(FlashLoanError::MissingRequiredSignature)
    } else if amount == 0 {
        Err(FlashLoanError::InvalidAmount)
    } else if Pool::spec_unpack(accounts[1].data@) is None {
        Err(FlashLoanError::InvalidAccountData)
    } else {
        let pool = Pool::spec_unpack(accounts[1].data@)->Some_0;
        if pool_id != pool.pool_id {
            Err(FlashLoanError::InvalidPoolId)
        } else if accounts[3].key@ != pool.vault@ {
            Err(FlashLoanError::InvalidAccountData)
        } else if accounts[4].key@ != TOKEN_PROGRAM_ID@ {
            Err(FlashLoanError::IncorrectProgramId)
        } else {
            Ok(
                OutcomeView {
                    pool,
                    invocations: seq![
                        signed(
                            transfer_instruction(
                                accounts[4].key,
                                accounts[2].key,
                                pool.vault,
                                accounts[0].key,
                                amount,
                            ),
                            None,
                        ),
                    ],
                },
            )
        }
    }
}

/// Repays `amount` to pool `pool_id`: asks the host for one transfer, of
/// `amount`, from the borrower's token account to the pool's vault, on the
/// borrower's own signature. The pool record is not changed.
pub fn repay(
    program_id: &Address,
    accounts: &[Account],
    pool_id: u8,
    amount: u64,
    sysvars: &Sysvars,
) -> (result: Result<Outcome, FlashLoanError>)
    ensures
        result_view(result) == spec_repay(*program_id, accounts@, pool_id, amount, *sysvars),
        result matches Ok(outcome) ==> outcome.pool.wf(),
{
    if accounts.len() < REPAY_ACCOUNTS {
        return Err(FlashLoanError::NotEnoughAccountKeys);
    }
    let borrower = &accounts[0];
    let pool_account = &accounts[1];
    let source = &accounts[2];
    let vault = &accounts[3];
    let token_program = &accounts[4];
    if truncated_time(sysvars.unix_timestamp) > pool_id {
        return Err(FlashLoanError::InvalidPoolId);
    }
    if !borrower.is_signer {
        return Err(FlashLoanError::MissingRequiredSignature);
    }
    if amount == 0 {
        return Err(FlashLoanError::InvalidAmount);
    }
    let pool = match Pool::unpack(pool_account.data.as_slice()) {
        Ok(p) => p,
        Err(e) => {
            return Err(e);
        },
    };
    if pool_id != pool.pool_id {
        return Err(FlashLoanError::InvalidPoolId);
    }
    if !vault.key.same_as(&pool.vault) {
        return Err(FlashLoanError::InvalidAccountData);
    }
    let request = match transfer_tokens(
        &source.key,
        &pool.vault,
        &borrower.key,
        &token_program.key,
        amount,
        None,
    ) {
        Ok(r) => r,
        Err(e) => {
            return Err(e);
        },
    };
    let ghost expected = request@;
    let mut invocations = Vec::new();
    invocations.push(request);
    let outcome = Outcome { pool, invocations };
    assert(outcome@.invocations =~= seq![expected]);
    Ok(outcome)
}

/// A repayment that names another pool than the record it is shown is
/// refused with `InvalidPoolId`, whatever stands in the place of the vault
/// and the token program.
pub proof fn repayment_to_another_pool_is_refused(
    program_id: Address,
    accounts: Seq<Account>,
    pool_id: u8,
    amount: u64,
    sysvars: Sysvars,
)
    requires
        accounts.len() >= REPAY_ACCOUNTS,
        spec_truncated_time(sysvars.unix_timestamp) <= pool_id,
        accounts[0].is_signer,
        amount != 0,
        Pool::spec_unpack(accounts[1].data@) matches Some(pool) && pool.pool_id != pool_id,
    ensures
        spec_repay(program_id, accounts, pool_id, amount, sysvars) == Err::<
            OutcomeView,
            FlashLoanError,
        >(FlashLoanError::InvalidPoolId),
{
}

} // verus!
