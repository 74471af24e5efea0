//! Dispatch: from an operation to the handler of its kind.
use vstd::prelude::*;
use crate::account::{
    is_repay, is_repay_of, one_repayment_serves_one_loan, result_view, Account, Outcome,
    OutcomeView, PlannedInstruction, Sysvars,
};
use crate::address::Address;
use crate::error::FlashLoanError;
use crate::instruction::borrow::{borrow, granted_loan_is_repaid_next, spec_borrow};
use crate::instruction::flash_loan::{FlashLoanInstruction, TAG_DELIQUIDATE_POOL, TAG_LIQUIDATE_POOL};
use crate::instruction::init_pool::{init_pool, spec_init_pool};
use crate::instruction::liquidate_pool::{
    deliquidate_pool, liquidate_pool, spec_deliquidate_pool, spec_liquidate_pool,
};
use crate::instruction::repay::{repay, spec_repay};
use crate::ledger::{transfer_of, transfer_request_moves_its_amount};
use crate::state::{spec_fee, Pool};

verus! {

/// What a step does: what the handler of its kind does with its fields.
pub open spec fn spec_process(
    program_id: Address,
    accounts: Seq<Account>,
    instruction: FlashLoanInstruction,
    sysvars: Sysvars,
) -> Result<OutcomeView, FlashLoanError> {
    match instruction {
        FlashLoanInstruction::InitPool { initial_amount, fees_bps, bump, mint, lp_mint_bump } => {
            spec_init_pool(
                program_id,
                accounts,
                initial_amount,
                fees_bps,
                mint,
                bump,
                lp_mint_bump,
                sysvars,
            )
        },
        FlashLoanInstruction::LiquidatePool { pool_id, token_amount } => {
            spec_liquidate_pool(program_id, accounts, pool_id, token_amount)
        },
        FlashLoanInstruction::DeLiquidatePool { pool_id, lp_amount } => {
            spec_deliquidate_pool(program_id, accounts, pool_id, lp_amount)
        },
        FlashLoanInstruction::Borrow { pool_id, amount, mint, bump } => {
            spec_borrow(program_id, accounts, pool_id, amount, mint, bump, sysvars)
        },
        FlashLoanInstruction::Repay { pool_id, amount } => {
            spec_repay(program_id, accounts, pool_id, amount, sysvars)
        },
    }
}

/// What a step with the bytes `data` does: bytes that encode no operation
/// are refused before any handler runs.
pub open spec fn spec_process_instruction(
    program_id: Address,
    accounts: Seq<Account>,
    data: Seq<u8>,
    sysvars: Sysvars,
) -> Result<OutcomeView, FlashLoanError> {
    match FlashLoanInstruction::spec_unpack(data) {
        Some(instruction) => spec_process(program_id, accounts, instruction, sysvars),
        None => Err(FlashLoanError::InvalidInstructionData),
    }
}

/// Where the accounts of a step hold the pool record: third for a deposit
/// and a withdrawal, second for every other step.
pub open spec fn spec_record_position(data: Seq<u8>) -> usize {
    if data.len() > 0 && (data[0] == TAG_LIQUIDATE_POOL || data[0] == TAG_DELIQUIDATE_POOL) {
        2
    } else {
        1
    }
}

/// Returns the position, among the accounts of the step with the bytes
/// `instruction_data`, of the account that holds the pool record.
pub fn record_position(instruction_data: &[u8]) -> (position: usize)
    ensures
        position == spec_record_position(instruction_data@),
{
    if instruction_data.len() > 0 && (instruction_data[0] == TAG_LIQUIDATE_POOL
        || instruction_data[0] == TAG_DELIQUIDATE_POOL) {
        2
    } else {
        1
    }
}

/// Runs the handler of the operation's kind on its fields.
pub fn process(
    program_id: &Address,
    accounts: &[Account],
    instruction: FlashLoanInstruction,
    sysvars: &Sysvars,
) -> (result: Result<Outcome, FlashLoanError>)
    ensures
        result_view(result) == spec_process(*program_id, accounts@, instruction, *sysvars),
        result matches Ok(outcome) ==> outcome.pool.wf(),
{
    match instruction {
        FlashLoanInstruction::InitPool { initial_amount, fees_bps, bump, mint, lp_mint_bump } => {
            init_pool(
                program_id,
                accounts,
                initial_amount,
                fees_bps,
                mint,
                bump,
                lp_mint_bump,
                sysvars,
            )
        },
        FlashLoanInstruction::Borrow { pool_id, amount, mint, bump } => {
            borrow(program_id, accounts, pool_id, amount, &mint, bump, sysvars)
        },
        FlashLoanInstruction::Repay { pool_id, amount } => {
            repay(program_id, accounts, pool_id, amount, sysvars)
        },
        FlashLoanInstruction::LiquidatePool { pool_id, token_amount } => {
            liquidate_pool(program_id, accounts, pool_id, token_amount)
        },
        FlashLoanInstruction::DeLiquidatePool { pool_id, lp_amount } => {
            deliquidate_pool(program_id, accounts, pool_id, lp_amount)
        },
    }
}

/// Decodes the bytes of a step and runs the handler of its kind.
///
/// Fails with `InvalidInstructionData` where the bytes encode none of the
/// five operations.
pub fn process_instruction(
    program_id: &Address,
    accounts: &[Account],
    instruction_data: &[u8],
    sysvars: &Sysvars,
) -> (result: Result<Outcome, FlashLoanError>)
    ensures
        result_view(result) == spec_process_instruction(
            *program_id,
            accounts@,
            instruction_data@,
            *sysvars,
        ),
        result matches Ok(outcome) ==> outcome.pool.wf(),
{
    match FlashLoanInstruction::unpack(instruction_data) {
        Ok(instruction) => process(program_id, accounts, instruction, sysvars),
        Err(e) => Err(e),
    }
}

/// In a batch of which every step succeeds, every loan is directly followed
/// by its repayment, and the repayment is carried out.
///
/// The batch is given by its plan and by the accounts and the host values
/// that each step is shown. If the step at `at` is a loan of `amount` from
/// pool `pool_id`, then the next step exists, is addressed to the same
/// program, and is a repayment to pool `pool_id` of the amount plus the fee
/// of the pool that the loan was shown; that step asks for one transfer, of
/// exactly that sum, into the vault of the pool that it is shown itself.
pub proof fn committed_batch_repays_every_loan(
    program_id: Address,
    plan: Seq<PlannedInstruction>,
    accounts: Seq<Seq<Account>>,
    sysvars: Seq<Sysvars>,
    at: int,
    pool_id: u8,
    amount: u64,
    mint: Address,
    bump: u8,
)
    requires
        accounts.len() == plan.len(),
        sysvars.len() == plan.len(),
        forall|i: int|
            0 <= i < plan.len() ==> (#[trigger] sysvars[i]).batch.instructions@ == plan
                && sysvars[i].batch.current_index == i,
        forall|i: int|
            0 <= i < plan.len() && (#[trigger] plan[i]).program_id@ == program_id@
                ==> spec_process_instruction(program_id, accounts[i], plan[i].data@, sysvars[i])
                is Ok,
        0 <= at < plan.len(),
        plan[at].program_id@ == program_id@,
        FlashLoanInstruction::encodes_borrow(plan[at].data@, pool_id, amount, mint, bump),
    ensures
        ({
            let lender = Pool::spec_unpack(accounts[at][1].data@)->Some_0;
            let due = lender.spec_loan_terms(amount)->Ok_0.total_due;
            let receiver = Pool::spec_unpack(accounts[at + 1][1].data@)->Some_0;
            let repaid = spec_repay(program_id, accounts[at + 1], pool_id, due, sysvars[at + 1]);
            &&& at + 1 < plan.len()
            &&& lender.spec_loan_terms(amount) is Ok
            &&& due == amount + spec_fee(amount, lender.fees_bps)
            &&& is_repay_of(plan[at + 1], program_id, pool_id, due)
            &&& spec_process_instruction(
                program_id,
                accounts[at + 1],
                plan[at + 1].data@,
                sysvars[at + 1],
            ) == repaid
            &&& repaid is Ok
            &&& receiver.pool_id == pool_id
            &&& repaid->Ok_0.invocations.len() == 1
            &&& transfer_of(repaid->Ok_0.invocations[0]) == Some(
                (accounts[at + 1][2].key, receiver.vault, due),
            )
        }),
{
    let loan = FlashLoanInstruction::Borrow { pool_id, amount, mint, bump };
    loan.decodes_to_what_it_encodes(plan[at].data@);
    assert(sysvars[at].batch.instructions@ == plan);
    assert(spec_process_instruction(program_id, accounts[at], plan[at].data@, sysvars[at]) is Ok);
    granted_loan_is_repaid_next(
        program_id,
        accounts[at],
        pool_id,
        amount,
        mint,
        bump,
        sysvars[at],
    );
    let lender = Pool::spec_unpack(accounts[at][1].data@)->Some_0;
    lender.loan_is_due_with_fee(amount);
    let due = lender.spec_loan_terms(amount)->Ok_0.total_due;
    let next = at + 1;
    assert(is_repay_of(plan[next], program_id, pool_id, due));
    let repayment = FlashLoanInstruction::Repay { pool_id, amount: due };
    repayment.decodes_to_what_it_encodes(plan[next].data@);
    assert(sysvars[next].batch.instructions@ == plan);
    assert(spec_process_instruction(program_id, accounts[next], plan[next].data@, sysvars[next])
        is Ok);
    let receiver = Pool::spec_unpack(accounts[next][1].data@)->Some_0;
    transfer_request_moves_its_amount(
        accounts[next][4].key,
        accounts[next][2].key,
        receiver.vault,
        accounts[next][0].key,
        due,
        None,
    );
}

/// In a batch that holds a single repayment, two loans cannot both be
/// granted, whatever their accounts and amounts: the later one, or the
/// earlier one, finds no repayment in the step after itself.
pub proof fn two_loans_one_repayment(
    program_id: Address,
    pool_id: u8,
    first: Sysvars,
    first_accounts: Seq<Account>,
    first_amount: u64,
    first_mint: Address,
    first_bump: u8,
    second: Sysvars,
    second_accounts: Seq<Account>,
    second_amount: u64,
    second_mint: Address,
    second_bump: u8,
)
    requires
        first.batch.instructions@ == second.batch.instructions@,
        first.batch.current_index < second.batch.current_index,
        second.batch.current_index < second.batch.instructions@.len(),
        forall|i: int, j: int|
            0 <= i < first.batch.instructions@.len() && 0 <= j < first.batch.instructions@.len()
                && is_repay(first.batch.instructions@[i], program_id) && is_repay(
                first.batch.instructions@[j],
                program_id,
            ) ==> i == j,
    ensures
        spec_borrow(
            program_id,
            first_accounts,
            pool_id,
            first_amount,
            first_mint,
            first_bump,
            first,
        ) is Err || spec_borrow(
            program_id,
            second_accounts,
            pool_id,
            second_amount,
            second_mint,
            second_bump,
            second,
        ) is Err,
{
    let one = spec_borrow(
        program_id,
        first_accounts,
        pool_id,
        first_amount,
        first_mint,
        first_bump,
        first,
    );
    let two = spec_borrow(
        program_id,
        second_accounts,
        pool_id,
        second_amount,
        second_mint,
        second_bump,
        second,
    );
    if one is Ok && two is Ok {
        granted_loan_is_repaid_next(
            program_id,
            first_accounts,
            pool_id,
            first_amount,
            first_mint,
            first_bump,
            first,
        );
        granted_loan_is_repaid_next(
            program_id,
            second_accounts,
            pool_id,
            second_amount,
            second_mint,
            second_bump,
            second,
        );
        let first_pool = Pool::spec_unpack(first_accounts[1].data@)->Some_0;
        let second_pool = Pool::spec_unpack(second_accounts[1].data@)->Some_0;
        one_repayment_serves_one_loan(
            first.batch.instructions@,
            program_id,
            first.batch.current_index as int,
            second.batch.current_index as int,
            pool_id,
            first_pool.spec_loan_terms(first_amount)->Ok_0.total_due,
            second_pool.spec_loan_terms(second_amount)->Ok_0.total_due,
        );
    }
}

} // verus!
