//! Borrow: the first half of a flash loan.
//!
//! The host offers no way to call the borrower back and see that the loan
//! is repaid. The loan is therefore granted only if the plan of the batch
//! shows, in the step right after the loan, a repayment to the same pool of
//! exactly the amount due. The look ahead reads what that step declares;
//! it is made before any funds move.
use vstd::prelude::*;
use crate::account::{result_view, Account, Outcome, OutcomeView, Sysvars};
use crate::address::{reproduces, signer_seeds_of, Address, AuthorityKind, DerivedAuthority, TOKEN_PROGRAM_ID};
use crate::cpi::{is_token_account, transfer_instruction, unpack_token_account, TokenHolding};
use crate::error::FlashLoanError;
use crate::state::{spec_truncated_time, truncated_time, Pool};
use crate::utils::{signed, transfer_tokens};

verus! {

/// Accounts that a loan reads: the borrower, the pool record, the vault, the
/// borrower's token account, the token program, and the two accounts through
/// which the host shows the plan of the batch and the time.
pub const BORROW_ACCOUNTS: usize = 7;

/// Whether the token account `destination` can receive a loan: it exists,
/// is a token account in use, belongs to `borrower` and is denominated in
/// `mint`.
pub open spec fn spec_can_receive(destination: Account, borrower: Address, mint: Address) -> bool {
    &&& destination.lamports != 0
    &&& is_token_account(destination.data@)
    &&& destination.data@.subrange(32, 64) == borrower@
    &&& destination.data@.subrange(0, 32) == mint@
}

/// Decides from what a token account holds whether it belongs to `owner`
/// and is denominated in `mint`.
pub fn holding_matches(holding: &TokenHolding, owner: &Address, mint: &Address) -> (matches: bool)
    ensures
        matches == (holding.owner@ == owner@ && holding.mint@ == mint@),
{
    holding.owner.same_as(owner) && holding.mint.same_as(mint)
}

/// What a loan of `amount` from pool `pool_id` does, or why it is refused.
/// The first condition that fails decides: the look at the next step comes
/// before the salt is recomputed, and the vault's account is judged after
/// both.
pub open spec fn spec_borrow(
    program_id: Address,
    accounts: Seq<Account>,
    pool_id: u8,
    amount: u64,
    mint: Address,
    bump: u8,
    sysvars: Sysvars,
) -> Result<OutcomeView, FlashLoanError> {
    if accounts.len() < BORROW_ACCOUNTS {
        Err(FlashLoanError::NotEnoughAccountKeys)
    } else if spec_truncated_time(sysvars.unix_timestamp) > pool_id {
        Err(FlashLoanError::InvalidPoolId)
    } else if !accounts[0].is_signer {
        Err(FlashLoanError::MissingRequiredSignature)
    } else if amount == 0 {
        Err(FlashLoanError::InvalidAmount)
    } else if Pool::spec_unpack(accounts[1].data@) is None {
        Err(FlashLoanError::InvalidAccountData)
    } else {
        let pool = Pool::spec_unpack(accounts[1].data@)->Some_0;
        if pool_id != pool.pool_id {
            Err(FlashLoanError::InvalidPoolId)
        } else if !spec_can_receive(accounts[3], accounts[0].key, mint) {
            Err(FlashLoanError::InvalidAccountData)
        } else if pool.spec_loan_terms(amount) is Err {
            Err(FlashLoanError::MathError)
        } else if !sysvars.batch.repay_follows(
            program_id,
            pool_id,
            pool.spec_loan_terms(amount)->Ok_0.total_due,
        ) {
            Err(FlashLoanError::InvalidInstructionSequence)
        } else if !reproduces(AuthorityKind::Vault, program_id@, pool_id, bump, pool.vault@) {
            Err(FlashLoanError::InvalidAuthority)
        } else if accounts[2].key@ != pool.vault@ {
            Err(FlashLoanError::InvalidAccountData)
        } else if accounts[4].key@ != TOKEN_PROGRAM_ID@ {
            Err(FlashLoanError::IncorrectProgramId)
        } else {
            Ok(
                OutcomeView {
                    pool,
                    invocations: seq![
                        signed(
                            transfer_instruction(
                                accounts[4].key,
                                accounts[2].key,
                                accounts[3].key,
                                pool.vault,
                                amount,
                            ),
                            Some(signer_seeds_of(AuthorityKind::Vault, pool_id, bump)),
                        ),
                    ],
                },
            )
        }
    }
}

/// Grants a loan of `amount` from pool `pool_id` to the first account, to be
/// paid into its token account for the asset `mint`.
///
/// The loan is granted only if the next step of the batch is addressed to
/// `program_id` and declares a repayment to the same pool of the amount
/// plus the fee, and if `bump` reproduces the vault's address. It then asks
/// the host for one transfer, of `amount`, from the vault to the borrower's
/// token account, signed by the vault's derived address. The pool record
/// is not changed.
pub fn borrow(
    program_id: &Address,
    accounts: &[Account],
    pool_id: u8,
    amount: u64,
    mint: &Address,
    bump: u8,
    sysvars: &Sysvars,
) -> (result: Result<Outcome, FlashLoanError>)
    ensures
        result_view(result) == spec_borrow(
            *program_id,
            accounts@,
            pool_id,
            amount,
            *mint,
            bump,
            *sysvars,
        ),
        result matches Ok(outcome) ==> outcome.pool.wf(),
{
    if accounts.len() < BORROW_ACCOUNTS {
        return Err(FlashLoanError::NotEnoughAccountKeys);
    }
    let borrower = &accounts[0];
    let pool_account = &accounts[1];
    let vault = &accounts[2];
    let destination = &accounts[3];
    let token_program = &accounts[4];
    if truncated_time(sysvars.unix_timestamp) > pool_id {
        return Err(FlashLoanError::InvalidPoolId);
    }
    if !borrower.is_signer {
        return Err(FlashLoanError::MissingRequiredSignature);
    }
    if amount == 0 {
        return Err(FlashLoanError::InvalidAmount);
    }
    let pool = match Pool::unpack(pool_account.data.as_slice()) {
        Ok(p) => p,
        Err(e) => {
            return Err(e);
        },
    };
    if pool_id != pool.pool_id {
        return Err(FlashLoanError::InvalidPoolId);
    }
    if destination.lamports == 0 {
        return Err(FlashLoanError::InvalidAccountData);
    }
    match unpack_token_account(destination.data.as_slice()) {
        Ok(holding) => {
            if !holding_matches(&holding, &borrower.key, mint) {
                return Err(FlashLoanError::InvalidAccountData);
            }
        },
        Err(_) => {
            return Err(FlashLoanError::InvalidAccountData);
        },
    }
    let terms = match pool.loan_terms(amount) {
        Ok(t) => t,
        Err(e) => {
            return Err(e);
        },
    };
    if !sysvars.batch.check_repay_follows(program_id, pool_id, terms.total_due) {
        return Err(FlashLoanError::InvalidInstructionSequence);
    }
    let authority = match DerivedAuthority::recompute(
        AuthorityKind::Vault,
        program_id,
        pool_id,
        bump,
        &pool.vault,
    ) {
        Ok(a) => a,
        Err(e) => {
            return Err(e);
        },
    };
    if !vault.key.same_as(&pool.vault) {
        return Err(FlashLoanError::InvalidAccountData);
    }
    let request = match transfer_tokens(
        &vault.key,
        &destination.key,
        &authority.address(),
        &token_program.key,
        amount,
        Some(authority.signer_seeds()),
    ) {
        Ok(r) => r,
        Err(e) => {
            return Err(e);
        },
    };
    let ghost expected = request@;
    let mut invocations = Vec::new();
    invocations.push(request);
    let outcome = Outcome { pool, invocations };
    assert(outcome@.invocations =~= seq![expected]);
    Ok(outcome)
}

/// A loan is never granted unless its repayment follows: where a loan is
/// granted, the step right after it is addressed to the same program and
/// declares a repayment to the same pool of exactly the amount plus the
/// fee. The loan then moves the amount and nothing else, and leaves the
/// pool record as it was.
pub proof fn granted_loan_is_repaid_next(
    program_id: Address,
    accounts: Seq<Account>,
    pool_id: u8,
    amount: u64,
    mint: Address,
    bump: u8,
    sysvars: Sysvars,
)
    requires
        spec_borrow(program_id, accounts, pool_id, amount, mint, bump, sysvars) is Ok,
    ensures
        Pool::spec_unpack(accounts[1].data@) matches Some(pool) && pool.spec_loan_terms(amount)
            matches Ok(terms) && sysvars.batch.repay_follows(program_id, pool_id, terms.total_due)
            && terms.total_due >= amount && spec_borrow(
            program_id,
            accounts,
            pool_id,
            amount,
            mint,
            bump,
            sysvars,
        )->Ok_0.pool == pool,
        spec_borrow(program_id, accounts, pool_id, amount, mint, bump, sysvars)->Ok_0.invocations.len()
            == 1,
{
    let pool = Pool::spec_unpack(accounts[1].data@)->Some_0;
    pool.loan_is_due_with_fee(amount);
}

/// A loan that passes every check that comes before the look at the next
/// step, and is not followed by its matching repayment, is refused with
/// `InvalidInstructionSequence`; and whatever else holds, it is refused.
pub proof fn loan_without_repayment_is_refused(
    program_id: Address,
    accounts: Seq<Account>,
    pool_id: u8,
    amount: u64,
    mint: Address,
    bump: u8,
    sysvars: Sysvars,
    due: u64,
)
    requires
        accounts.len() >= BORROW_ACCOUNTS,
        Pool::spec_unpack(accounts[1].data@) matches Some(pool) && pool.spec_loan_terms(amount)
            matches Ok(terms) && terms.total_due == due,
        !sysvars.batch.repay_follows(program_id, pool_id, due),
    ensures
        spec_borrow(program_id, accounts, pool_id, amount, mint, bump, sysvars) is Err,
        spec_truncated_time(sysvars.unix_timestamp) <= pool_id && accounts[0].is_signer && amount
            != 0 && Pool::spec_unpack(accounts[1].data@)->Some_0.pool_id == pool_id
            && spec_can_receive(accounts[3], accounts[0].key, mint) ==> spec_borrow(
            program_id,
            accounts,
            pool_id,
            amount,
            mint,
            bump,
            sysvars,
        ) == Err::<OutcomeView, FlashLoanError>(FlashLoanError::InvalidInstructionSequence),
{
}

} // verus!
