//! What the host shows the pool of a batch: the accounts of a step, the
//! time, the minimum balance that keeps a record, and the plan of the batch.
use vstd::prelude::*;
use crate::address::Address;
use crate::cpi::{invocation_views, Invocation, InvocationView};
use crate::error::FlashLoanError;
use crate::instruction::flash_loan::{FlashLoanInstruction, AMOUNT_OP_LEN, TAG_REPAY};
use crate::state::Pool;

verus! {

/// An account as a step of a batch sees it.
#[derive(Clone, Debug, PartialEq, Eq)]
pub struct Account {
    /// The account's address.
    pub key: Address,
    /// The program that owns the account.
    pub owner: Address,
    /// The account's balance of the host's own currency.
    pub lamports: u64,
    /// The account's content.
    pub data: Vec<u8>,
    /// Whether the account signed the batch.
    pub is_signer: bool,
    /// Whether the step may change the account.
    pub is_writable: bool,
}

/// One step of a batch as the plan shows it: the program it is addressed
/// to and its undecoded bytes.
#[derive(Clone, Debug, PartialEq, Eq)]
pub struct PlannedInstruction {
    pub program_id: Address,
    pub data: Vec<u8>,
}

/// The steps of the batch in the order in which the host runs them, and the
/// position of the step that is running. The plan is only read: looking at
/// a step does not run it.
#[derive(Clone, Debug, PartialEq, Eq)]
pub struct BatchPlan {
    pub current_index: u16,
    pub instructions: Vec<PlannedInstruction>,
}

/// What the host tells a step besides its accounts.
#[derive(Clone, Debug, PartialEq, Eq)]
pub struct Sysvars {
    /// The current time, in seconds.
    pub unix_timestamp: i64,
    /// The least balance at which the host keeps a pool record.
    pub rent_exempt_minimum: u64,
    /// The plan of the batch.
    pub batch: BatchPlan,
}

/// What a step that succeeded asks of the host: to store the pool record
/// and to make the requests, in their order.
#[derive(Clone, Debug, PartialEq, Eq)]
pub struct Outcome {
    pub pool: Pool,
    pub invocations: Vec<Invocation>,
}

/// The outcome of a step, as a mathematical value.
pub struct OutcomeView {
    pub pool: Pool,
    pub invocations: Seq<InvocationView>,
}

impl View for Outcome {
    type V = OutcomeView;

    open spec fn view(&self) -> OutcomeView {
        OutcomeView { pool: self.pool, invocations: invocation_views(self.invocations@) }
    }
}

/// The result of a step, as a mathematical value.
pub open spec fn result_view(result: Result<Outcome, FlashLoanError>) -> Result<
    OutcomeView,
    FlashLoanError,
> {
    match result {
        Ok(outcome) => Ok(outcome@),
        Err(e) => Err(e),
    }
}

/// Whether `step` is addressed to `program_id` and encodes a repayment of
/// `amount` to pool `pool_id`.
pub open spec fn is_repay_of(step: PlannedInstruction, program_id: Address, pool_id: u8, amount: u64) -> bool {
    step.program_id@ == program_id@ && FlashLoanInstruction::encodes_repay(step.data@, pool_id, amount)
}

/// Whether `step` is addressed to `program_id` and encodes a repayment.
pub open spec fn is_repay(step: PlannedInstruction, program_id: Address) -> bool {
    step.program_id@ == program_id@ && step.data@.len() == AMOUNT_OP_LEN && step.data@[0] == TAG_REPAY
}

/// Whether the step right after position `index` exists, is addressed to
/// `program_id` and encodes a repayment of `amount` to pool `pool_id`.
pub open spec fn repay_follows_at(
    steps: Seq<PlannedInstruction>,
    index: int,
    program_id: Address,
    pool_id: u8,
    amount: u64,
) -> bool {
    index + 1 < steps.len() && is_repay_of(steps[index + 1], program_id, pool_id, amount)
}

impl BatchPlan {
    /// The step at position `index`, if the batch has one there.
    pub open spec fn spec_peek(self, index: int) -> Option<PlannedInstruction> {
        if 0 <= index < self.instructions@.len() {
            Some(self.instructions@[index])
        } else {
            None
        }
    }

    /// Whether the step right after the running one is a repayment of
    /// `amount` to pool `pool_id`, addressed to `program_id`.
    pub open spec fn repay_follows(self, program_id: Address, pool_id: u8, amount: u64) -> bool {
        repay_follows_at(self.instructions@, self.current_index as int, program_id, pool_id, amount)
    }

    /// Returns the position of the running step.
    pub fn current_step_index(&self) -> (index: usize)
        ensures
            index == self.current_index,
    {
        self.current_index as usize
    }

    /// Looks at the step at position `index` without running it.
    pub fn peek(&self, index: usize) -> (step: Option<&PlannedInstruction>)
        ensures
            match step {
                Some(s) => self.spec_peek(index as int) == Some(*s),
                None => self.spec_peek(index as int) is None,
            },
    {
        if index < self.instructions.len() {
            Some(&self.instructions[index])
        } else {
            None
        }
    }

    /// Decides whether the step right after the running one is addressed to
    /// `program_id` and declares a repayment of exactly `amount` to pool
    /// `pool_id`. The step is decoded, not run.
    pub fn check_repay_follows(&self, program_id: &Address, pool_id: u8, amount: u64) -> (follows:
        bool)
        ensures
            follows == self.repay_follows(*program_id, pool_id, amount),
    {
        let next = self.current_step_index() + 1;
        let step = match self.peek(next) {
            Some(s) => s,
            None => {
                return false;
            },
        };
        if !step.program_id.same_as(program_id) {
            return false;
        }
        match FlashLoanInstruction::unpack(step.data.as_slice()) {
            Ok(FlashLoanInstruction::Repay { pool_id: repay_pool_id, amount: repay_amount }) => {
                repay_pool_id == pool_id && repay_amount == amount
            },
            Ok(_) => false,
            Err(_) => false,
        }
    }
}

/// A batch with a single repayment cannot satisfy two loans: each loan
/// looks for its repayment in the step right after itself, and two loans
/// look at two different steps.
pub proof fn one_repayment_serves_one_loan(
    steps: Seq<PlannedInstruction>,
    program_id: Address,
    first: int,
    second: int,
    pool_id: u8,
    first_due: u64,
    second_due: u64,
)
    requires
        0 <= first < second < steps.len(),
        forall|i: int, j: int|
            0 <= i < steps.len() && 0 <= j < steps.len() && is_repay(steps[i], program_id)
                && is_repay(steps[j], program_id) ==> i == j,
    ensures
        !(repay_follows_at(steps, first, program_id, pool_id, first_due) && repay_follows_at(
            steps,
            second,
            program_id,
            pool_id,
            second_due,
        )),
{
    if repay_follows_at(steps, first, program_id, pool_id, first_due) && repay_follows_at(
        steps,
        second,
        program_id,
        pool_id,
        second_due,
    ) {
        assert(is_repay(steps[first + 1], program_id));
        assert(is_repay(steps[second + 1], program_id));
    }
}

} // verus!
