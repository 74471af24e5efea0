//! Deposit and withdraw: liquidity in exchange for shares, and back.
use vstd::prelude::*;
use crate::account::{result_view, Account, Outcome, OutcomeView};
use crate::address::{
    get_associated_token_address, is_derived_address, reproduces, signer_seeds_of,
    spec_associated_token_address, Address, AuthorityKind, DerivedAuthority, TOKEN_PROGRAM_ID,
};
use crate::cpi::{burn_instruction, mint_to_instruction, transfer_instruction};
use crate::error::FlashLoanError;
use crate::state::Pool;
use crate::utils::{burn_tokens, mint_tokens, signed, transfer_tokens};

verus! {

/// Accounts that a deposit and a withdrawal read: the user, the user's
/// token account for the asset, the pool record, the vault, the share mint,
/// the user's share account, and the token program.
pub const LIQUIDITY_ACCOUNTS: usize = 7;

/// What a deposit of `token_amount` into pool `pool_id` does, or why it is
/// refused. The first condition that fails decides: the user's token
/// account is judged before the division, the share mint's account after
/// it, and the vault's account last of the accounts.
pub open spec fn spec_liquidate_pool(
    program_id: Address,
    accounts: Seq<Account>,
    pool_id: u8,
    token_amount: u64,
) -> Result<OutcomeView, FlashLoanError> {
    if accounts.len() < LIQUIDITY_ACCOUNTS {
        Err(FlashLoanError::NotEnoughAccountKeys)
    } else if !accounts[0].is_signer {
        Err(FlashLoanError::MissingRequiredSignature)
    } else if Pool::spec_unpack(accounts[2].data@) is None {
        Err(FlashLoanError::InvalidAccountData)
    } else {
        let pool = Pool::spec_unpack(accounts[2].data@)->Some_0;
        if pool.pool_id != pool_id {
            Err(FlashLoanError::InvalidPoolId)
        } else if spec_associated_token_address(accounts[0].key@, pool.token_mint@) != Some(
            accounts[1].key@,
        ) {
            Err(FlashLoanError::InvalidAccountData)
        } else if pool.total_liquidity == 0 {
            Err(FlashLoanError::MathError)
        } else if accounts[4].key@ != pool.lp_mint@ {
            Err(FlashLoanError::InvalidAccountData)
        } else {
            match pool.spec_deposit(token_amount) {
                Err(e) => Err(e),
                Ok(deposit) => {
                    if !reproduces(
                        AuthorityKind::LpMint,
                        program_id@,
                        pool_id,
                        pool.lp_mint_bump,
                        pool.lp_mint@,
                    ) {
                        Err(FlashLoanError::InvalidAuthority)
                    } else if accounts[3].key@ != pool.vault@ {
                        Err(FlashLoanError::InvalidAccountData)
                    } else if accounts[6].key@ != TOKEN_PROGRAM_ID@ {
                        Err(FlashLoanError::IncorrectProgramId)
                    } else {
                        Ok(
                            OutcomeView {
                                pool: deposit.pool,
                                invocations: seq![
                                    signed(
                                        transfer_instruction(
                                            accounts[6].key,
                                            accounts[1].key,
                                            pool.vault,
                                            accounts[0].key,
                                            token_amount,
                                        ),
                                        None,
                                    ),
                                    signed(
                                        mint_to_instruction(
                                            accounts[6].key,
                                            pool.lp_mint,
                                            accounts[5].key,
                                            pool.lp_mint,
                                            deposit.lp_minted,
                                        ),
                                        Some(
                                            signer_seeds_of(
                                                AuthorityKind::LpMint,
                                                pool_id,
                                                pool.lp_mint_bump,
                                            ),
                                        ),
                                    ),
                                ],
                            },
                        )
                    }
                },
            }
        }
    }
}

/// Deposits `token_amount` units into pool `pool_id` for the first account.
///
/// The user's token account must be the canonical one of the user for the
/// pool's asset. The user earns the deposit's rounded-down share of the
/// pool's liquidity, times the shares outstanding. The host is asked to
/// move the amount from the user's token account into the vault and to mint
/// the shares to the user's share account, signed by the share mint's
/// derived address. The record returned holds the new totals.
pub fn liquidate_pool(program_id: &Address, accounts: &[Account], pool_id: u8, token_amount: u64) -> (result:
    Result<Outcome, FlashLoanError>)
    ensures
        result_view(result) == spec_liquidate_pool(*program_id, accounts@, pool_id, token_amount),
        result matches Ok(outcome) ==> outcome.pool.wf(),
{
    if accounts.len() < LIQUIDITY_ACCOUNTS {
        return Err(FlashLoanError::NotEnoughAccountKeys);
    }
    let user = &accounts[0];
    let user_token_account = &accounts[1];
    let pool_account = &accounts[2];
    let vault = &accounts[3];
    let lp_mint = &accounts[4];
    let user_lp_account = &accounts[5];
    let token_program = &accounts[6];
    if !user.is_signer {
        return Err(FlashLoanError::MissingRequiredSignature);
    }
    let pool = match Pool::unpack(pool_account.data.as_slice()) {
        Ok(p) => p,
        Err(e) => {
            return Err(e);
        },
    };
    if pool.pool_id != pool_id {
        return Err(FlashLoanError::InvalidPoolId);
    }
    let canonical = get_associated_token_address(&user.key, &pool.token_mint);
    if !is_derived_address(&canonical, &user_token_account.key) {
        return Err(FlashLoanError::InvalidAccountData);
    }
    if pool.total_liquidity == 0 {
        return Err(FlashLoanError::MathError);
    }
    if !lp_mint.key.same_as(&pool.lp_mint) {
        return Err(FlashLoanError::InvalidAccountData);
    }
    let deposit = match pool.deposit(token_amount) {
        Ok(d) => d,
        Err(e) => {
            return Err(e);
        },
    };
    let mint_authority = match DerivedAuthority::recompute(
        AuthorityKind::LpMint,
        program_id,
        pool_id,
        pool.lp_mint_bump,
        &pool.lp_mint,
    ) {
        Ok(a) => a,
        Err(e) => {
            return Err(e);
        },
    };
    if !vault.key.same_as(&pool.vault) {
        return Err(FlashLoanError::InvalidAccountData);
    }
    let pay_in = match transfer_tokens(
        &user_token_account.key,
        &pool.vault,
        &user.key,
        &token_program.key,
        token_amount,
        None,
    ) {
        Ok(r) => r,
        Err(e) => {
            return Err(e);
        },
    };
    let issue = match mint_tokens(
        &pool.lp_mint,
        &user_lp_account.key,
        &mint_authority.address(),
        &token_program.key,
        deposit.lp_minted,
        mint_authority.signer_seeds(),
    ) {
        Ok(r) => r,
        Err(e) => {
            return Err(e);
        },
    };
    let ghost expected = seq![pay_in@, issue@];
    let mut invocations = Vec::new();
    invocations.push(pay_in);
    invocations.push(issue);
    let outcome = Outcome { pool: deposit.pool, invocations };
    assert(outcome@.invocations =~= expected);
    Ok(outcome)
}

/// What a withdrawal of `lp_amount` shares from pool `pool_id` does, or why
/// it is refused. The first condition that fails decides: the payment is
/// computed before the user's share account is judged, and taken off the
/// books after it; the vault's account is judged last of the accounts.
pub open spec fn spec_deliquidate_pool(
    program_id: Address,
    accounts: Seq<Account>,
    pool_id: u8,
    lp_amount: u64,
) -> Result<OutcomeView, FlashLoanError> {
    if accounts.len() < LIQUIDITY_ACCOUNTS {
        Err(FlashLoanError::NotEnoughAccountKeys)
    } else if !accounts[0].is_signer {
        Err(FlashLoanError::MissingRequiredSignature)
    } else if Pool::spec_unpack(accounts[2].data@) is None {
        Err(FlashLoanError::InvalidAccountData)
    } else {
        let pool = Pool::spec_unpack(accounts[2].data@)->Some_0;
        if pool.pool_id != pool_id {
            Err(FlashLoanError::InvalidPoolId)
        } else if accounts[4].key@ != pool.lp_mint@ {
            Err(FlashLoanError::InvalidAccountData)
        } else if pool.spec_payout(lp_amount) is Err {
            Err(pool.spec_payout(lp_amount)->Err_0)
        } else if spec_associated_token_address(accounts[0].key@, pool.lp_mint@) != Some(
            accounts[5].key@,
        ) {
            Err(FlashLoanError::InvalidAccountData)
        } else {
            match pool.spec_withdraw(lp_amount) {
                Err(e) => Err(e),
                Ok(withdrawal) => {
                    if !reproduces(
                        AuthorityKind::Vault,
                        program_id@,
                        pool_id,
                        pool.bump,
                        pool.vault@,
                    ) {
                        Err(FlashLoanError::InvalidAuthority)
                    } else if accounts[3].key@ != pool.vault@ {
                        Err(FlashLoanError::InvalidAccountData)
                    } else if accounts[6].key@ != TOKEN_PROGRAM_ID@ {
                        Err(FlashLoanError::IncorrectProgramId)
                    } else {
                        Ok(
                            OutcomeView {
                                pool: withdrawal.pool,
                                invocations: seq![
                                    signed(
                                        burn_instruction(
                                            accounts[6].key,
                                            accounts[5].key,
                                            pool.lp_mint,
                                            accounts[0].key,
                                            lp_amount,
                                        ),
                                        None,
                                    ),
                                    signed(
                                        transfer_instruction(
                                            accounts[6].key,
                                            pool.vault,
                                            accounts[1].key,
                                            pool.vault,
                                            withdrawal.tokens_out,
                                        ),
                                        Some(
                                            signer_seeds_of(AuthorityKind::Vault, pool_id, pool.bump),
                                        ),
                                    ),
                                ],
                            },
                        )
                    }
                },
            }
        }
    }
}

/// Withdraws `lp_amount` shares from pool `pool_id` for the first account.
///
/// The user's share account must be the canonical one of the user for the
/// pool's shares. The shares pay their rounded-down share of the shares
/// outstanding, times the pool's liquidity. The host is asked to burn the
/// shares from the user's share account and to move the payment from the
/// vault to the user's token account, signed by the vault's derived
/// address. The record returned holds the new totals.
pub fn deliquidate_pool(program_id: &Address, accounts: &[Account], pool_id: u8, lp_amount: u64) -> (result:
    Result<Outcome, FlashLoanError>)
    ensures
        result_view(result) == spec_deliquidate_pool(*program_id, accounts@, pool_id, lp_amount),
        result matches Ok(outcome) ==> outcome.pool.wf(),
{
    if accounts.len() < LIQUIDITY_ACCOUNTS {
        return Err(FlashLoanError::NotEnoughAccountKeys);
    }
    let user = &accounts[0];
    let user_token_account = &accounts[1];
    let pool_account = &accounts[2];
    let vault = &accounts[3];
    let lp_mint = &accounts[4];
    let user_lp_account = &accounts[5];
    let token_program = &accounts[6];
    if !user.is_signer {
        return Err(FlashLoanError::MissingRequiredSignature);
    }
    let pool = match Pool::unpack(pool_account.data.as_slice()) {
        Ok(p) => p,
        Err(e) => {
            return Err(e);
        },
    };
    if pool.pool_id != pool_id {
        return Err(FlashLoanError::InvalidPoolId);
    }
    if !lp_mint.key.same_as(&pool.lp_mint) {
        return Err(FlashLoanError::InvalidAccountData);
    }
    match pool.payout(lp_amount) {
        Ok(_) => {},
        Err(e) => {
            return Err(e);
        },
    }
    let canonical = get_associated_token_address(&user.key, &pool.lp_mint);
    if !is_derived_address(&canonical, &user_lp_account.key) {
        return Err(FlashLoanError::InvalidAccountData);
    }
    let withdrawal = match pool.withdraw(lp_amount) {
        Ok(w) => w,
        Err(e) => {
            return Err(e);
        },
    };
    let vault_authority = match DerivedAuthority::recompute(
        AuthorityKind::Vault,
        program_id,
        pool_id,
        pool.bump,
        &pool.vault,
    ) {
        Ok(a) => a,
        Err(e) => {
            return Err(e);
        },
    };
    if !vault.key.same_as(&pool.vault) {
        return Err(FlashLoanError::InvalidAccountData);
    }
    let redeem = match burn_tokens(
        &user_lp_account.key,
        &pool.lp_mint,
        &user.key,
        &token_program.key,
        lp_amount,
    ) {
        Ok(r) => r,
        Err(e) => {
            return Err(e);
        },
    };
    let pay_out = match transfer_tokens(
        &pool.vault,
        &user_token_account.key,
        &vault_authority.address(),
        &token_program.key,
        withdrawal.tokens_out,
        Some(vault_authority.signer_seeds()),
    ) {
        Ok(r) => r,
        Err(e) => {
            return Err(e);
        },
    };
    let ghost expected = seq![redeem@, pay_out@];
    let mut invocations = Vec::new();
    invocations.push(redeem);
    invocations.push(pay_out);
    let outcome = Outcome { pool: withdrawal.pool, invocations };
    assert(outcome@.invocations =~= expected);
    Ok(outcome)
}

/// A deposit into an empty pool is a `MathError`, whatever stands in the
/// place of the share mint, the vault and the token program: only the
/// creation of a pool can seed it.
pub proof fn deposit_into_empty_pool_is_math_error(
    program_id: Address,
    accounts: Seq<Account>,
    pool_id: u8,
    token_amount: u64,
)
    requires
        accounts.len() >= LIQUIDITY_ACCOUNTS,
        accounts[0].is_signer,
        Pool::spec_unpack(accounts[2].data@) matches Some(pool) && pool.pool_id == pool_id
            && pool.total_liquidity == 0 && spec_associated_token_address(
            accounts[0].key@,
            pool.token_mint@,
        ) == Some(accounts[1].key@),
    ensures
        spec_liquidate_pool(program_id, accounts, pool_id, token_amount) == Err::<
            OutcomeView,
            FlashLoanError,
        >(FlashLoanError::MathError),
{
}

/// A deposit that its arithmetic refuses is refused as the arithmetic says,
/// whatever stands in the place of the vault and the token program.
pub proof fn deposit_refused_by_its_arithmetic(
    program_id: Address,
    accounts: Seq<Account>,
    pool_id: u8,
    token_amount: u64,
)
    requires
        accounts.len() >= LIQUIDITY_ACCOUNTS,
        accounts[0].is_signer,
        Pool::spec_unpack(accounts[2].data@) matches Some(pool) && pool.pool_id == pool_id
            && accounts[4].key@ == pool.lp_mint@ && pool.spec_deposit(token_amount) is Err
            && spec_associated_token_address(accounts[0].key@, pool.token_mint@) == Some(
            accounts[1].key@,
        ),
    ensures
        spec_liquidate_pool(program_id, accounts, pool_id, token_amount) == Err::<
            OutcomeView,
            FlashLoanError,
        >(Pool::spec_unpack(accounts[2].data@)->Some_0.spec_deposit(token_amount)->Err_0),
{
}

/// Shares that pay nothing, or whose payment cannot be computed, are
/// refused as the arithmetic says before any account but the share mint's
/// is judged: a pool without shares and a payment that does not fit are a
/// `MathError`, a payment of nothing is an `InvalidAmount`.
pub proof fn withdrawal_refused_by_its_payment(
    program_id: Address,
    accounts: Seq<Account>,
    pool_id: u8,
    lp_amount: u64,
)
    requires
        accounts.len() >= LIQUIDITY_ACCOUNTS,
        accounts[0].is_signer,
        Pool::spec_unpack(accounts[2].data@) matches Some(pool) && pool.pool_id == pool_id
            && accounts[4].key@ == pool.lp_mint@ && pool.spec_payout(lp_amount) is Err,
    ensures
        spec_deliquidate_pool(program_id, accounts, pool_id, lp_amount) == Err::<
            OutcomeView,
            FlashLoanError,
        >(Pool::spec_unpack(accounts[2].data@)->Some_0.spec_payout(lp_amount)->Err_0),
{
}

/// A withdrawal from the user's canonical share account that would take
/// more than the pool has is a `MathError`, whatever stands in the place of
/// the vault and the token program.
pub proof fn withdrawal_beyond_the_pool_is_math_error(
    program_id: Address,
    accounts: Seq<Account>,
    pool_id: u8,
    lp_amount: u64,
)
    requires
        accounts.len() >= LIQUIDITY_ACCOUNTS,
        accounts[0].is_signer,
        Pool::spec_unpack(accounts[2].data@) matches Some(pool) && pool.pool_id == pool_id
            && accounts[4].key@ == pool.lp_mint@ && pool.spec_payout(lp_amount) is Ok
            && pool.spec_withdraw(lp_amount) is Err && spec_associated_token_address(
            accounts[0].key@,
            pool.lp_mint@,
        ) == Some(accounts[5].key@),
    ensures
        spec_deliquidate_pool(program_id, accounts, pool_id, lp_amount) == Err::<
            OutcomeView,
            FlashLoanError,
        >(FlashLoanError::MathError),
{
}

} // verus!
