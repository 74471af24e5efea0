//! What the requests of a step do to the vault.
//!
//! The pool's books say what the vault should hold. The laws below say what
//! the requests of each step ask the token program to move into and out of
//! the vault, so that books and vault can be held against each other: a
//! deposit, a withdrawal and the creation of a pool move exactly what they
//! book, and a loan with its repayment leaves in the vault exactly the fee,
//! which no step books.
use vstd::prelude::*;
use vstd::bytes::spec_u64_to_le_bytes;
use crate::account::{Account, Sysvars};
use crate::address::{Address, TOKEN_PROGRAM_ID};
use crate::codec::{read_back_u64, spec_read_u64};
use crate::cpi::{
    burn_instruction, initialize_mint_instruction, mint_to_instruction, transfer_instruction,
    InvocationView,
};
use crate::instruction::borrow::spec_borrow;
use crate::instruction::init_pool::spec_init_pool;
use crate::instruction::liquidate_pool::{spec_deliquidate_pool, spec_liquidate_pool};
use crate::instruction::repay::spec_repay;
use crate::state::{spec_fee, Pool};
use crate::utils::signed;

verus! {

/// The transfer that `request` asks of the token program: its source, its
/// destination and its amount. A request of another kind asks for none.
pub open spec fn transfer_of(request: InvocationView) -> Option<(Address, Address, u64)> {
    let ix = request.instruction;
    if ix.program_id@ == TOKEN_PROGRAM_ID@ && ix.accounts.len() == 3 && ix.data.len() == 9
        && ix.data[0] == 3 {
        Some((ix.accounts[0].pubkey, ix.accounts[1].pubkey, spec_read_u64(ix.data, 1)))
    } else {
        None
    }
}

/// By how much `request` raises the balance of `vault`.
pub open spec fn vault_change_of(request: InvocationView, vault: Address) -> int {
    match transfer_of(request) {
        Some((source, destination, amount)) => {
            (if destination@ == vault@ {
                amount as int
            } else {
                0
            }) - (if source@ == vault@ {
                amount as int
            } else {
                0
            })
        },
        None => 0,
    }
}

/// By how much `requests`, made one after the other, raise the balance of
/// `vault`.
pub open spec fn vault_change(requests: Seq<InvocationView>, vault: Address) -> int
    decreases requests.len(),
{
    if requests.len() == 0 {
        0
    } else {
        vault_change(requests.drop_last(), vault) + vault_change_of(requests.last(), vault)
    }
}

/// A transfer request asks for the transfer it was built for.
pub proof fn transfer_request_moves_its_amount(
    token_program: Address,
    source: Address,
    destination: Address,
    authority: Address,
    amount: u64,
    seeds: Option<Seq<Seq<u8>>>,
)
    requires
        token_program@ == TOKEN_PROGRAM_ID@,
    ensures
        transfer_of(
            signed(transfer_instruction(token_program, source, destination, authority, amount), seeds),
        ) == Some((source, destination, amount)),
{
    read_back_u64(seq![3u8], amount, Seq::empty());
    let data = transfer_instruction(token_program, source, destination, authority, amount).data;
    assert(data =~= seq![3u8] + spec_u64_to_le_bytes(amount) + Seq::empty());
}

/// Requests to mint, to burn and to create a mint move nothing.
pub proof fn other_requests_move_nothing(
    token_program: Address,
    a: Address,
    b: Address,
    c: Address,
    amount: u64,
    decimals: u8,
    seeds: Option<Seq<Seq<u8>>>,
)
    ensures
        transfer_of(signed(mint_to_instruction(token_program, a, b, c, amount), seeds)) is None,
        transfer_of(signed(burn_instruction(token_program, a, b, c, amount), seeds)) is None,
        transfer_of(signed(initialize_mint_instruction(token_program, a, b, decimals), seeds))
            is None,
{
}

/// The requests of one, two and three steps add up.
proof fn vault_change_unfolds(a: InvocationView, b: InvocationView, c: InvocationView, vault: Address)
    ensures
        vault_change(seq![a], vault) == vault_change_of(a, vault),
        vault_change(seq![a, b], vault) == vault_change_of(a, vault) + vault_change_of(b, vault),
        vault_change(seq![a, b, c], vault) == vault_change_of(a, vault) + vault_change_of(b, vault)
            + vault_change_of(c, vault),
{
    assert(seq![a].drop_last() =~= Seq::<InvocationView>::empty());
    assert(seq![a, b].drop_last() =~= seq![a]);
    assert(seq![a, b, c].drop_last() =~= seq![a, b]);
    reveal_with_fuel(vault_change, 4);
}

/// The creation of a pool moves into the vault exactly the liquidity that
/// the new record books.
pub proof fn init_moves_what_it_books(
    program_id: Address,
    accounts: Seq<Account>,
    initial_amount: u64,
    fees_bps: u16,
    mint: Address,
    bump: u8,
    lp_mint_bump: u8,
    sysvars: Sysvars,
)
    requires
        spec_init_pool(
            program_id,
            accounts,
            initial_amount,
            fees_bps,
            mint,
            bump,
            lp_mint_bump,
            sysvars,
        ) is Ok,
        accounts[0].key@ != accounts[3].key@,
    ensures
        ({
            let created = spec_init_pool(
                program_id,
                accounts,
                initial_amount,
                fees_bps,
                mint,
                bump,
                lp_mint_bump,
                sysvars,
            )->Ok_0;
            vault_change(created.invocations, created.pool.vault) == created.pool.total_liquidity
        }),
{
    let created = spec_init_pool(
        program_id,
        accounts,
        initial_amount,
        fees_bps,
        mint,
        bump,
        lp_mint_bump,
        sysvars,
    )->Ok_0;
    let requests = created.invocations;
    transfer_request_moves_its_amount(
        accounts[7].key,
        accounts[0].key,
        accounts[3].key,
        accounts[0].key,
        initial_amount,
        None,
    );
    vault_change_unfolds(requests[0], requests[1], requests[2], created.pool.vault);
    assert(requests =~= seq![requests[0], requests[1], requests[2]]);
}

/// A deposit moves into the vault exactly the liquidity that it books.
pub proof fn deposit_moves_what_it_books(
    program_id: Address,
    accounts: Seq<Account>,
    pool_id: u8,
    token_amount: u64,
)
    requires
        spec_liquidate_pool(program_id, accounts, pool_id, token_amount) is Ok,
        accounts[1].key@ != accounts[3].key@,
    ensures
        ({
            let before = Pool::spec_unpack(accounts[2].data@)->Some_0;
            let done = spec_liquidate_pool(program_id, accounts, pool_id, token_amount)->Ok_0;
            &&& vault_change(done.invocations, before.vault) == done.pool.total_liquidity
                - before.total_liquidity
            &&& vault_change(done.invocations, before.vault) == token_amount
        }),
{
    let before = Pool::spec_unpack(accounts[2].data@)->Some_0;
    let done = spec_liquidate_pool(program_id, accounts, pool_id, token_amount)->Ok_0;
    let requests = done.invocations;
    transfer_request_moves_its_amount(
        accounts[6].key,
        accounts[1].key,
        before.vault,
        accounts[0].key,
        token_amount,
        None,
    );
    vault_change_unfolds(requests[0], requests[1], requests[1], before.vault);
    assert(requests =~= seq![requests[0], requests[1]]);
}

/// A withdrawal moves out of the vault exactly the liquidity that it takes
/// off the books.
pub proof fn withdrawal_moves_what_it_books(
    program_id: Address,
    accounts: Seq<Account>,
    pool_id: u8,
    lp_amount: u64,
)
    requires
        spec_deliquidate_pool(program_id, accounts, pool_id, lp_amount) is Ok,
        accounts[1].key@ != accounts[3].key@,
    ensures
        ({
            let before = Pool::spec_unpack(accounts[2].data@)->Some_0;
            let done = spec_deliquidate_pool(program_id, accounts, pool_id, lp_amount)->Ok_0;
            vault_change(done.invocations, before.vault) == done.pool.total_liquidity
                - before.total_liquidity
        }),
{
    let before = Pool::spec_unpack(accounts[2].data@)->Some_0;
    let done = spec_deliquidate_pool(program_id, accounts, pool_id, lp_amount)->Ok_0;
    let requests = done.invocations;
    let paid = before.spec_withdraw(lp_amount)->Ok_0.tokens_out;
    transfer_request_moves_its_amount(
        accounts[6].key,
        before.vault,
        accounts[1].key,
        before.vault,
        paid,
        requests[1].signer_seeds,
    );
    vault_change_unfolds(requests[0], requests[1], requests[1], before.vault);
    assert(requests =~= seq![requests[0], requests[1]]);
}

/// A loan and the repayment that it read in the next step leave in the
/// vault exactly the fee: the loan takes the amount out, the repayment
/// puts the amount and the fee in. Neither touches the books, so after the
/// pair the vault holds the fee beyond what the books say.
pub proof fn loan_and_repayment_leave_the_fee(
    program_id: Address,
    pool_id: u8,
    amount: u64,
    mint: Address,
    bump: u8,
    loan_accounts: Seq<Account>,
    loan_sysvars: Sysvars,
    repay_accounts: Seq<Account>,
    repay_sysvars: Sysvars,
)
    requires
        spec_borrow(program_id, loan_accounts, pool_id, amount, mint, bump, loan_sysvars) is Ok,
        Pool::spec_unpack(repay_accounts[1].data@) == Pool::spec_unpack(loan_accounts[1].data@),
        spec_repay(
            program_id,
            repay_accounts,
            pool_id,
            Pool::spec_unpack(loan_accounts[1].data@)->Some_0.spec_loan_terms(amount)->Ok_0.total_due,
            repay_sysvars,
        ) is Ok,
        loan_accounts[3].key@ != loan_accounts[2].key@,
        repay_accounts[2].key@ != repay_accounts[3].key@,
    ensures
        ({
            let pool = Pool::spec_unpack(loan_accounts[1].data@)->Some_0;
            let due = pool.spec_loan_terms(amount)->Ok_0.total_due;
            let lent = spec_borrow(
                program_id,
                loan_accounts,
                pool_id,
                amount,
                mint,
                bump,
                loan_sysvars,
            )->Ok_0;
            let repaid = spec_repay(program_id, repay_accounts, pool_id, due, repay_sysvars)->Ok_0;
            &&& loan_sysvars.batch.repay_follows(program_id, pool_id, due)
            &&& vault_change(lent.invocations, pool.vault) == -(amount as int)
            &&& vault_change(repaid.invocations, pool.vault) == due
            &&& vault_change(lent.invocations, pool.vault) + vault_change(
                repaid.invocations,
                pool.vault,
            ) == spec_fee(amount, pool.fees_bps)
            &&& spec_fee(amount, pool.fees_bps) >= 0
            &&& lent.pool == pool
            &&& repaid.pool == pool
        }),
{
    let pool = Pool::spec_unpack(loan_accounts[1].data@)->Some_0;
    let due = pool.spec_loan_terms(amount)->Ok_0.total_due;
    let lent = spec_borrow(program_id, loan_accounts, pool_id, amount, mint, bump, loan_sysvars)->Ok_0;
    let repaid = spec_repay(program_id, repay_accounts, pool_id, due, repay_sysvars)->Ok_0;
    pool.loan_is_due_with_fee(amount);
    transfer_request_moves_its_amount(
        loan_accounts[4].key,
        loan_accounts[2].key,
        loan_accounts[3].key,
        pool.vault,
        amount,
        lent.invocations[0].signer_seeds,
    );
    transfer_request_moves_its_amount(
        repay_accounts[4].key,
        repay_accounts[2].key,
        pool.vault,
        repay_accounts[0].key,
        due,
        None,
    );
    vault_change_unfolds(lent.invocations[0], lent.invocations[0], lent.invocations[0], pool.vault);
    vault_change_unfolds(
        repaid.invocations[0],
        repaid.invocations[0],
        repaid.invocations[0],
        pool.vault,
    );
    assert(lent.invocations =~= seq![lent.invocations[0]]);
    assert(repaid.invocations =~= seq![repaid.invocations[0]]);
}

} // verus!
