//! Initialize: creates a pool, its vault and its share mint.
use vstd::prelude::*;
use crate::account::{result_view, Account, Outcome, OutcomeView, Sysvars};
use crate::address::{reproduces, signer_seeds_of, Address, AuthorityKind, DerivedAuthority, TOKEN_PROGRAM_ID};
use crate::cpi::{initialize_mint_instruction, mint_to_instruction, transfer_instruction};
use crate::error::FlashLoanError;
use crate::state::{spec_truncated_time, truncated_time, Pool};
use crate::utils::{create_mint, mint_tokens, signed, transfer_tokens};

verus! {

/// Accounts that the creation of a pool reads: the initializer, the pool
/// record, the asset's mint, the vault, the share mint, the initializer's
/// share account, the rent account, the token program, and the account
/// through which the host shows the time.
pub const INIT_POOL_ACCOUNTS: usize = 9;

/// Decimals of a pool's shares.
pub const LP_DECIMALS: u8 = 9;

/// What the creation of a pool does, or why it is refused. The first
/// condition that fails decides: the amount, the provisioning of the record
/// and the two salts are judged before the fee rate.
pub open spec fn spec_init_pool(
    program_id: Address,
    accounts: Seq<Account>,
    initial_amount: u64,
    fees_bps: u16,
    mint: Address,
    bump: u8,
    lp_mint_bump: u8,
    sysvars: Sysvars,
) -> Result<OutcomeView, FlashLoanError> {
    let pool_id = spec_truncated_time(sysvars.unix_timestamp);
    if accounts.len() < INIT_POOL_ACCOUNTS {
        Err(FlashLoanError::NotEnoughAccountKeys)
    } else if !accounts[0].is_signer {
        Err(FlashLoanError::MissingRequiredSignature)
    } else if initial_amount == 0 {
        Err(FlashLoanError::InvalidAmount)
    } else if accounts[1].lamports < sysvars.rent_exempt_minimum {
        Err(FlashLoanError::NotProvisioned)
    } else if !reproduces(AuthorityKind::Vault, program_id@, pool_id, bump, accounts[3].key@) {
        Err(FlashLoanError::InvalidAuthority)
    } else if !reproduces(
        AuthorityKind::LpMint,
        program_id@,
        pool_id,
        lp_mint_bump,
        accounts[4].key@,
    ) {
        Err(FlashLoanError::InvalidAuthority)
    } else {
        match Pool::spec_open(
            mint,
            accounts[4].key,
            accounts[3].key,
            pool_id,
            initial_amount,
            fees_bps,
            bump,
            lp_mint_bump,
        ) {
            Err(e) => Err(e),
            Ok(pool) => {
                if accounts[7].key@ != TOKEN_PROGRAM_ID@ {
                    Err(FlashLoanError::IncorrectProgramId)
                } else {
                    Ok(
                        OutcomeView {
                            pool,
                            invocations: seq![
                                signed(
                                    transfer_instruction(
                                        accounts[7].key,
                                        accounts[0].key,
                                        accounts[3].key,
                                        accounts[0].key,
                                        initial_amount,
                                    ),
                                    None,
                                ),
                                signed(
                                    initialize_mint_instruction(
                                        accounts[7].key,
                                        accounts[4].key,
                                        accounts[4].key,
                                        LP_DECIMALS,
                                    ),
                                    Some(signer_seeds_of(AuthorityKind::LpMint, pool_id, lp_mint_bump)),
                                ),
                                signed(
                                    mint_to_instruction(
                                        accounts[7].key,
                                        accounts[4].key,
                                        accounts[5].key,
                                        accounts[4].key,
                                        initial_amount,
                                    ),
                                    Some(signer_seeds_of(AuthorityKind::LpMint, pool_id, lp_mint_bump)),
                                ),
                            ],
                        },
                    )
                }
            },
        }
    }
}

/// Creates a pool for the asset `mint` with `initial_amount` units and a
/// loan fee of `fees_bps` basis points.
///
/// The pool's identifier is the current time in its truncated form. The
/// vault and the share mint must be the addresses that `bump` and
/// `lp_mint_bump` derive for that identifier. The new record holds as much
/// liquidity as shares: the first deposit defines a share price of one. The
/// host is asked to move the initial amount from the initializer into the
/// vault, to create the share mint, and to mint `initial_amount` shares to
/// the initializer's share account.
pub fn init_pool(
    program_id: &Address,
    accounts: &[Account],
    initial_amount: u64,
    fees_bps: u16,
    mint: Address,
    bump: u8,
    lp_mint_bump: u8,
    sysvars: &Sysvars,
) -> (result: Result<Outcome, FlashLoanError>)
    ensures
        result_view(result) == spec_init_pool(
            *program_id,
            accounts@,
            initial_amount,
            fees_bps,
            mint,
            bump,
            lp_mint_bump,
            *sysvars,
        ),
        result matches Ok(outcome) ==> outcome.pool.wf(),
{
    if accounts.len() < INIT_POOL_ACCOUNTS {
        return Err(FlashLoanError::NotEnoughAccountKeys);
    }
    let user = &accounts[0];
    let pool_account = &accounts[1];
    let vault = &accounts[3];
    let lp_mint = &accounts[4];
    let user_lp_account = &accounts[5];
    let token_program = &accounts[7];
    if !user.is_signer {
        return Err(FlashLoanError::MissingRequiredSignature);
    }
    if initial_amount == 0 {
        return Err(FlashLoanError::InvalidAmount);
    }
    if pool_account.lamports < sysvars.rent_exempt_minimum {
        return Err(FlashLoanError::NotProvisioned);
    }
    let pool_id = truncated_time(sysvars.unix_timestamp);
    let vault_authority = match DerivedAuthority::recompute(
        AuthorityKind::Vault,
        program_id,
        pool_id,
        bump,
        &vault.key,
    ) {
        Ok(a) => a,
        Err(e) => {
            return Err(e);
        },
    };
    let mint_authority = match DerivedAuthority::recompute(
        AuthorityKind::LpMint,
        program_id,
        pool_id,
        lp_mint_bump,
        &lp_mint.key,
    ) {
        Ok(a) => a,
        Err(e) => {
            return Err(e);
        },
    };
    let pool = match Pool::open(
        mint,
        lp_mint.key,
        vault.key,
        pool_id,
        initial_amount,
        fees_bps,
        bump,
        lp_mint_bump,
    ) {
        Ok(p) => p,
        Err(e) => {
            return Err(e);
        },
    };
    let fund = match transfer_tokens(
        &user.key,
        &vault_authority.address(),
        &user.key,
        &token_program.key,
        initial_amount,
        None,
    ) {
        Ok(r) => r,
        Err(e) => {
            return Err(e);
        },
    };
    let create = match create_mint(
        &lp_mint.key,
        &mint_authority.address(),
        LP_DECIMALS,
        &token_program.key,
        mint_authority.signer_seeds(),
    ) {
        Ok(r) => r,
        Err(e) => {
            return Err(e);
        },
    };
    let issue = match mint_tokens(
        &lp_mint.key,
        &user_lp_account.key,
        &mint_authority.address(),
        &token_program.key,
        initial_amount,
        mint_authority.signer_seeds(),
    ) {
        Ok(r) => r,
        Err(e) => {
            return Err(e);
        },
    };
    let ghost expected = seq![fund@, create@, issue@];
    let mut invocations = Vec::new();
    invocations.push(fund);
    invocations.push(create);
    invocations.push(issue);
    let outcome = Outcome { pool, invocations };
    assert(outcome@.invocations =~= expected);
    Ok(outcome)
}

/// A pool is never created empty: with an initial amount of zero the
/// creation is refused, and with `InvalidAmount` wherever enough accounts
/// were passed and the initializer signed.
pub proof fn empty_pool_is_refused(
    program_id: Address,
    accounts: Seq<Account>,
    fees_bps: u16,
    mint: Address,
    bump: u8,
    lp_mint_bump: u8,
    sysvars: Sysvars,
)
    ensures
        spec_init_pool(program_id, accounts, 0, fees_bps, mint, bump, lp_mint_bump, sysvars) is Err,
        accounts.len() >= INIT_POOL_ACCOUNTS && accounts[0].is_signer ==> spec_init_pool(
            program_id,
            accounts,
            0,
            fees_bps,
            mint,
            bump,
            lp_mint_bump,
            sysvars,
        ) == Err::<OutcomeView, FlashLoanError>(FlashLoanError::InvalidAmount),
{
}

/// A pool that was created starts at a share price of one: it holds the
/// initial amount both as liquidity and as shares.
pub proof fn new_pool_is_priced_at_one(
    program_id: Address,
    accounts: Seq<Account>,
    initial_amount: u64,
    fees_bps: u16,
    mint: Address,
    bump: u8,
    lp_mint_bump: u8,
    sysvars: Sysvars,
)
    requires
        spec_init_pool(
            program_id,
            accounts,
            initial_amount,
            fees_bps,
            mint,
            bump,
            lp_mint_bump,
            sysvars,
        ) is Ok,
    ensures
        ({
            let pool = spec_init_pool(
                program_id,
                accounts,
                initial_amount,
                fees_bps,
                mint,
                bump,
                lp_mint_bump,
                sysvars,
            )->Ok_0.pool;
            &&& pool.total_liquidity == initial_amount
            &&& pool.total_lp_supply == initial_amount
            &&& pool.fees_bps == fees_bps
            &&& initial_amount > 0
            &&& pool.wf()
        }),
{
}

} // verus!
