//! The pool record and its share accounting.
//!
//! All conversions between base-asset units and shares divide first and
//! round down: rounding favours the pool, and an operation that rounds to
//! nothing is refused.
use vstd::prelude::*;
use vstd::bytes::{spec_u16_to_le_bytes, spec_u64_to_le_bytes};
use crate::address::{address_ext, Address};
use crate::codec::{
    read_back_u16, read_back_u64, read_u16, read_u64, spec_read_u16, spec_read_u64,
    write_back_u16, write_back_u64, write_u16, write_u64,
};
use crate::error::FlashLoanError;

verus! {

/// Basis points in the whole.
pub const BPS_DENOMINATOR: u64 = 10_000;

/// The highest fee rate a pool can charge, in basis points.
pub const MAX_FEE_BPS: u16 = 10_000;

/// The record of one pool.
#[derive(Clone, Copy, Debug, PartialEq, Eq)]
pub struct Pool {
    /// The asset the pool holds.
    pub token_mint: Address,
    /// The share-accounting unit of the pool.
    pub lp_mint: Address,
    /// The account that holds the pool's balance of the asset.
    pub vault: Address,
    /// Identifier of the pool, which doubles as the end of its time window.
    pub pool_id: u8,
    /// Units of the asset that the pool owns on its books.
    pub total_liquidity: u64,
    /// Shares outstanding.
    pub total_lp_supply: u64,
    /// Fee charged on a loan, in basis points.
    pub fees_bps: u16,
    /// Salt of the vault's control address.
    pub bump: u8,
    /// Salt of the share mint's control address.
    pub lp_mint_bump: u8,
}

/// What a loan costs.
#[derive(Clone, Copy, Debug, PartialEq, Eq)]
pub struct LoanTerms {
    /// The fee: the pool's rate on the principal, rounded down.
    pub fee: u64,
    /// Principal plus fee: what the repayment must declare.
    pub total_due: u64,
}

/// A deposit that the pool accepted.
#[derive(Clone, Copy, Debug, PartialEq, Eq)]
pub struct Deposit {
    /// The pool after the deposit.
    pub pool: Pool,
    /// Shares to mint to the depositor.
    pub lp_minted: u64,
}

/// A withdrawal that the pool accepted.
#[derive(Clone, Copy, Debug, PartialEq, Eq)]
pub struct Withdrawal {
    /// The pool after the withdrawal.
    pub pool: Pool,
    /// Units of the asset to pay out.
    pub tokens_out: u64,
}

/// The fee on `amount` at `fees_bps` basis points, rounded down.
pub open spec fn spec_fee(amount: u64, fees_bps: u16) -> int {
    (amount * fees_bps) / 10_000
}

/// The low eight bits of a time stamp: the form in which a time is compared
/// with a pool identifier.
pub open spec fn spec_truncated_time(unix_timestamp: i64) -> u8 {
    (unix_timestamp % 256) as u8
}

/// Returns the low eight bits of a time stamp.
pub fn truncated_time(unix_timestamp: i64) -> (t: u8)
    ensures
        t == spec_truncated_time(unix_timestamp),
{
    let low: i64 = unix_timestamp & 0xff;
    assert(low == unix_timestamp % 256 && 0 <= low < 256) by (bit_vector)
        requires
            low == unix_timestamp & 0xff,
    ;
    low as u8
}

impl Pool {
    /// A pool is consistent when it has liquidity exactly if it has shares
    /// outstanding, and its fee rate is at most the whole.
    pub open spec fn wf(self) -> bool {
        &&& self.total_liquidity == 0 <==> self.total_lp_supply == 0
        &&& self.fees_bps <= MAX_FEE_BPS
    }

    /// The pool that `open` creates.
    pub open spec fn spec_open(
        token_mint: Address,
        lp_mint: Address,
        vault: Address,
        pool_id: u8,
        initial_amount: u64,
        fees_bps: u16,
        bump: u8,
        lp_mint_bump: u8,
    ) -> Result<Pool, FlashLoanError> {
        if initial_amount == 0 {
            Err(FlashLoanError::InvalidAmount)
        } else if fees_bps > MAX_FEE_BPS {
            Err(FlashLoanError::InvalidInstructionData)
        } else {
            Ok(
                Pool {
                    token_mint,
                    lp_mint,
                    vault,
                    pool_id,
                    total_liquidity: initial_amount,
                    total_lp_supply: initial_amount,
                    fees_bps,
                    bump,
                    lp_mint_bump,
                },
            )
        }
    }

    /// Creates the record of a new pool. The first deposit defines a share
    /// price of one: the pool starts with as many shares as units.
    ///
    /// Fails with `InvalidAmount` for an initial amount of zero, and with
    /// `InvalidInstructionData` for a fee rate above the whole.
    pub fn open(
        token_mint: Address,
        lp_mint: Address,
        vault: Address,
        pool_id: u8,
        initial_amount: u64,
        fees_bps: u16,
        bump: u8,
        lp_mint_bump: u8,
    ) -> (opened: Result<Pool, FlashLoanError>)
        ensures
            opened == Pool::spec_open(
                token_mint,
                lp_mint,
                vault,
                pool_id,
                initial_amount,
                fees_bps,
                bump,
                lp_mint_bump,
            ),
            opened matches Ok(p) ==> p.wf(),
    {
        if initial_amount == 0 {
            return Err(FlashLoanError::InvalidAmount);
        }
        if fees_bps > MAX_FEE_BPS {
            return Err(FlashLoanError::InvalidInstructionData);
        }
        Ok(
            Pool {
                token_mint,
                lp_mint,
                vault,
                pool_id,
                total_liquidity: initial_amount,
                total_lp_supply: initial_amount,
                fees_bps,
                bump,
                lp_mint_bump,
            },
        )
    }

    /// The terms of a loan of `amount`: the fee is the pool's rate on the
    /// amount, rounded down, and the amount due is the amount plus the fee.
    /// A product or a sum that does not fit in 64 bits is a `MathError`.
    pub open spec fn spec_loan_terms(self, amount: u64) -> Result<LoanTerms, FlashLoanError> {
        if amount * self.fees_bps > u64::MAX {
            Err(FlashLoanError::MathError)
        } else if amount + spec_fee(amount, self.fees_bps) > u64::MAX {
            Err(FlashLoanError::MathError)
        } else {
            Ok(
                LoanTerms {
                    fee: spec_fee(amount, self.fees_bps) as u64,
                    total_due: (amount + spec_fee(amount, self.fees_bps)) as u64,
                },
            )
        }
    }

    /// Computes the fee and the amount due on a loan of `amount`.
    pub fn loan_terms(&self, amount: u64) -> (terms: Result<LoanTerms, FlashLoanError>)
        ensures
            terms == self.spec_loan_terms(amount),
    {
        let product = match amount.checked_mul(self.fees_bps as u64) {
            Some(p) => p,
            None => {
                return Err(FlashLoanError::MathError);
            },
        };
        let fee = product / BPS_DENOMINATOR;
        match amount.checked_add(fee) {
            Some(total_due) => Ok(LoanTerms { fee, total_due }),
            None => Err(FlashLoanError::MathError),
        }
    }

    /// What a deposit of `amount` does: the depositor's share is the amount
    /// divided by the pool's liquidity, rounded down, and earns that many
    /// times the shares outstanding.
    pub open spec fn spec_deposit(self, amount: u64) -> Result<Deposit, FlashLoanError> {
        let share = amount as int / self.total_liquidity as int;
        let minted = share * self.total_lp_supply;
        if self.total_liquidity == 0 {
            Err(FlashLoanError::MathError)
        } else if minted > u64::MAX {
            Err(FlashLoanError::MathError)
        } else if minted == 0 {
            Err(FlashLoanError::InvalidAmount)
        } else if self.total_liquidity + amount > u64::MAX || self.total_lp_supply + minted
            > u64::MAX {
            Err(FlashLoanError::MathError)
        } else {
            Ok(
                Deposit {
                    pool: Pool {
                        total_liquidity: (self.total_liquidity + amount) as u64,
                        total_lp_supply: (self.total_lp_supply + minted) as u64,
                        ..self
                    },
                    lp_minted: minted as u64,
                },
            )
        }
    }

    /// Adds `amount` to the pool's liquidity, and the shares that the
    /// depositor earns to the shares outstanding.
    ///
    /// Fails with `MathError` on an empty pool, which only `open` can seed,
    /// and where a total would not fit in 64 bits; with `InvalidAmount`
    /// where the deposit is too small to earn a share.
    pub fn deposit(&self, amount: u64) -> (done: Result<Deposit, FlashLoanError>)
        ensures
            done == self.spec_deposit(amount),
            self.wf() && done is Ok ==> done->Ok_0.pool.wf(),
    {
        let share = match amount.checked_div(self.total_liquidity) {
            Some(s) => s,
            None => {
                return Err(FlashLoanError::MathError);
            },
        };
        let minted = match share.checked_mul(self.total_lp_supply) {
            Some(m) => m,
            None => {
                return Err(FlashLoanError::MathError);
            },
        };
        if minted == 0 {
            return Err(FlashLoanError::InvalidAmount);
        }
        let total_liquidity = match self.total_liquidity.checked_add(amount) {
            Some(t) => t,
            None => {
                return Err(FlashLoanError::MathError);
            },
        };
        let total_lp_supply = match self.total_lp_supply.checked_add(minted) {
            Some(t) => t,
            None => {
                return Err(FlashLoanError::MathError);
            },
        };
        Ok(Deposit { pool: Pool { total_liquidity, total_lp_supply, ..*self }, lp_minted: minted })
    }

    /// What `lp_amount` shares pay: the withdrawer's share is the amount
    /// divided by the shares outstanding, rounded down, and pays that many
    /// times the pool's liquidity. A pool without shares and a payment that
    /// does not fit in 64 bits are a `MathError`; a payment of nothing is an
    /// `InvalidAmount`.
    pub open spec fn spec_payout(self, lp_amount: u64) -> Result<u64, FlashLoanError> {
        let share = lp_amount as int / self.total_lp_supply as int;
        let tokens_out = share * self.total_liquidity;
        if self.total_lp_supply == 0 {
            Err(FlashLoanError::MathError)
        } else if tokens_out > u64::MAX {
            Err(FlashLoanError::MathError)
        } else if tokens_out == 0 {
            Err(FlashLoanError::InvalidAmount)
        } else {
            Ok(tokens_out as u64)
        }
    }

    /// Computes what `lp_amount` shares pay.
    pub fn payout(&self, lp_amount: u64) -> (paid: Result<u64, FlashLoanError>)
        ensures
            paid == self.spec_payout(lp_amount),
    {
        let share = match lp_amount.checked_div(self.total_lp_supply) {
            Some(s) => s,
            None => {
                return Err(FlashLoanError::MathError);
            },
        };
        let tokens_out = match share.checked_mul(self.total_liquidity) {
            Some(t) => t,
            None => {
                return Err(FlashLoanError::MathError);
            },
        };
        if tokens_out == 0 {
            return Err(FlashLoanError::InvalidAmount);
        }
        Ok(tokens_out)
    }

    /// What a withdrawal of `lp_amount` shares does: it pays what the shares
    /// pay, and takes the payment off the pool's liquidity and the shares
    /// off the shares outstanding. A payment or shares beyond what the pool
    /// has are a `MathError`.
    pub open spec fn spec_withdraw(self, lp_amount: u64) -> Result<Withdrawal, FlashLoanError> {
        match self.spec_payout(lp_amount) {
            Err(e) => Err(e),
            Ok(tokens_out) => {
                if tokens_out > self.total_liquidity || lp_amount > self.total_lp_supply {
                    Err(FlashLoanError::MathError)
                } else {
                    Ok(
                        Withdrawal {
                            pool: Pool {
                                total_liquidity: (self.total_liquidity - tokens_out) as u64,
                                total_lp_supply: (self.total_lp_supply - lp_amount) as u64,
                                ..self
                            },
                            tokens_out,
                        },
                    )
                }
            },
        }
    }

    /// Takes `lp_amount` shares off the shares outstanding, and the units of
    /// the asset that they pay off the pool's liquidity.
    ///
    /// Fails with `MathError` on a pool without shares, and where the
    /// payment or the shares exceed what the pool has; with `InvalidAmount`
    /// where the shares are too few to pay anything.
    pub fn withdraw(&self, lp_amount: u64) -> (done: Result<Withdrawal, FlashLoanError>)
        ensures
            done == self.spec_withdraw(lp_amount),
            self.wf() && done is Ok ==> done->Ok_0.pool.wf(),
    {
        let tokens_out = match self.payout(lp_amount) {
            Ok(t) => t,
            Err(e) => {
                return Err(e);
            },
        };
        let total_liquidity = match self.total_liquidity.checked_sub(tokens_out) {
            Some(t) => t,
            None => {
                return Err(FlashLoanError::MathError);
            },
        };
        let total_lp_supply = match self.total_lp_supply.checked_sub(lp_amount) {
            Some(t) => t,
            None => {
                return Err(FlashLoanError::MathError);
            },
        };
        proof {
            if self.wf() {
                self.withdraw_is_all_or_nothing(lp_amount);
            }
        }
        Ok(Withdrawal { pool: Pool { total_liquidity, total_lp_supply, ..*self }, tokens_out })
    }

    /// The pool after fees that sit in the vault are credited to its books.
    pub open spec fn spec_reconcile(self, vault_balance: u64) -> Result<Pool, FlashLoanError> {
        if vault_balance < self.total_liquidity {
            Err(FlashLoanError::InsufficientFunds)
        } else if self.total_lp_supply == 0 && vault_balance > 0 {
            Err(FlashLoanError::MathError)
        } else {
            Ok(Pool { total_liquidity: vault_balance, ..self })
        }
    }

    /// Credits what the vault holds beyond the pool's books, which is what
    /// loans have paid in fees, to the pool's liquidity.
    ///
    /// Fails with `InsufficientFunds` where the vault holds less than the
    /// books say, and with `MathError` where there is a balance but no share
    /// to credit it to.
    pub fn reconcile(&self, vault_balance: u64) -> (booked: Result<Pool, FlashLoanError>)
        ensures
            booked == self.spec_reconcile(vault_balance),
            self.wf() && booked is Ok ==> booked->Ok_0.wf(),
    {
        if vault_balance < self.total_liquidity {
            return Err(FlashLoanError::InsufficientFunds);
        }
        if self.total_lp_supply == 0 && vault_balance > 0 {
            return Err(FlashLoanError::MathError);
        }
        Ok(Pool { total_liquidity: vault_balance, ..*self })
    }

    /// A withdrawal from a consistent pool succeeds exactly when it takes
    /// every share outstanding, and then pays the pool's whole liquidity:
    /// fewer shares round down to nothing, and more than exist cannot be
    /// taken.
    pub proof fn withdraw_is_all_or_nothing(self, lp_amount: u64)
        requires
            self.wf(),
        ensures
            self.spec_withdraw(lp_amount) is Ok <==> self.total_lp_supply > 0 && lp_amount
                == self.total_lp_supply,
            self.spec_withdraw(lp_amount) matches Ok(w) ==> w.tokens_out == self.total_liquidity
                && w.pool.total_liquidity == 0 && w.pool.total_lp_supply == 0 && w.pool.wf(),
    {
        let supply = self.total_lp_supply as int;
        let liquidity = self.total_liquidity as int;
        if supply > 0 {
            let share = lp_amount as int / supply;
            if lp_amount < supply {
                assert(share == 0) by (nonlinear_arith)
                    requires
                        0 <= lp_amount < supply,
                        share == lp_amount as int / supply,
                ;
                assert(share * liquidity == 0) by (nonlinear_arith)
                    requires
                        share == 0,
                ;
            } else if lp_amount == supply {
                assert(share == 1) by (nonlinear_arith)
                    requires
                        lp_amount == supply,
                        supply > 0,
                        share == lp_amount as int / supply,
                ;
                assert(share * liquidity == liquidity) by (nonlinear_arith)
                    requires
                        share == 1,
                ;
            } else {
                assert(share >= 1) by (nonlinear_arith)
                    requires
                        lp_amount > supply,
                        supply > 0,
                        share == lp_amount as int / supply,
                ;
                assert(share * liquidity >= liquidity) by (nonlinear_arith)
                    requires
                        share >= 1,
                        liquidity >= 0,
                ;
            }
        }
    }
}

impl Pool {
    /// The pool after the deposits of `amounts`, one after the other, where
    /// every one of them is accepted.
    pub open spec fn spec_deposit_all(self, amounts: Seq<u64>) -> Result<Pool, FlashLoanError>
        decreases amounts.len(),
    {
        if amounts.len() == 0 {
            Ok(self)
        } else {
            match self.spec_deposit(amounts[0]) {
                Ok(d) => d.pool.spec_deposit_all(amounts.drop_first()),
                Err(e) => Err(e),
            }
        }
    }

    /// Whether the share price of `self` is at least that of `before`:
    /// liquidity per share, compared without rounding.
    pub open spec fn price_at_least(self, before: Pool) -> bool {
        self.total_liquidity * before.total_lp_supply >= before.total_liquidity
            * self.total_lp_supply
    }

    /// A deposit into a consistent pool leaves it consistent and does not
    /// lower the share price, neither exactly nor as a rounded-down quotient.
    pub proof fn deposit_keeps_share_price(self, amount: u64)
        requires
            self.wf(),
            self.spec_deposit(amount) is Ok,
        ensures
            self.spec_deposit(amount)->Ok_0.pool.wf(),
            self.spec_deposit(amount)->Ok_0.pool.total_lp_supply > 0,
            self.spec_deposit(amount)->Ok_0.pool.price_at_least(self),
            self.spec_deposit(amount)->Ok_0.pool.total_liquidity as int / self.spec_deposit(
                amount,
            )->Ok_0.pool.total_lp_supply as int >= self.total_liquidity as int
                / self.total_lp_supply as int,
    {
        let after = self.spec_deposit(amount)->Ok_0.pool;
        let l = self.total_liquidity as int;
        let s = self.total_lp_supply as int;
        let a = amount as int;
        let k = a / l;
        let l2 = after.total_liquidity as int;
        let s2 = after.total_lp_supply as int;
        assert(l2 == l + a && s2 == s + k * s);
        assert(k * l <= a) by (nonlinear_arith)
            requires
                l > 0,
                a >= 0,
                k == a / l,
        ;
        assert(l2 * s >= l * s2) by (nonlinear_arith)
            requires
                l2 == l + a,
                s2 == s + k * s,
                k * l <= a,
                s >= 0,
        ;
        let q = l / s;
        assert(q * s <= l) by (nonlinear_arith)
            requires
                s > 0,
                l >= 0,
                q == l / s,
        ;
        assert(q * s2 <= l2) by (nonlinear_arith)
            requires
                q * s <= l,
                l2 * s >= l * s2,
                s > 0,
                s2 > 0,
                q >= 0,
                l >= 0,
                l2 >= 0,
        ;
        assert(l2 / s2 >= q) by (nonlinear_arith)
            requires
                q * s2 <= l2,
                s2 > 0,
        ;
    }

    /// Over any sequence of accepted deposits the pool stays consistent and
    /// its share price never falls.
    pub proof fn deposits_keep_share_price(self, amounts: Seq<u64>)
        requires
            self.wf(),
            self.spec_deposit_all(amounts) is Ok,
        ensures
            self.spec_deposit_all(amounts)->Ok_0.wf(),
            self.spec_deposit_all(amounts)->Ok_0.price_at_least(self),
            self.spec_deposit_all(amounts)->Ok_0.total_lp_supply == 0
                <==> self.spec_deposit_all(amounts)->Ok_0.total_liquidity == 0,
        decreases amounts.len(),
    {
        if amounts.len() > 0 {
            let next = self.spec_deposit(amounts[0])->Ok_0.pool;
            let last = self.spec_deposit_all(amounts)->Ok_0;
            self.deposit_keeps_share_price(amounts[0]);
            next.deposits_keep_share_price(amounts.drop_first());
            let l0 = self.total_liquidity as int;
            let s0 = self.total_lp_supply as int;
            let l1 = next.total_liquidity as int;
            let s1 = next.total_lp_supply as int;
            let l2 = last.total_liquidity as int;
            let s2 = last.total_lp_supply as int;
            assert(l2 * s0 >= l0 * s2) by (nonlinear_arith)
                requires
                    l1 * s0 >= l0 * s1,
                    l2 * s1 >= l1 * s2,
                    s1 > 0,
                    s0 >= 0,
                    s2 >= 0,
                    l0 >= 0,
                    l1 >= 0,
                    l2 >= 0,
            ;
        }
    }

    /// The shares that a deposit earns, withdrawn at once, never pay more
    /// than was deposited. They are fewer than the shares then outstanding,
    /// so their share rounds down to nothing and the withdrawal is refused.
    pub proof fn round_trip_never_profits(self, amount: u64)
        requires
            self.wf(),
            self.spec_deposit(amount) is Ok,
        ensures
            self.spec_deposit(amount)->Ok_0.pool.spec_withdraw(
                self.spec_deposit(amount)->Ok_0.lp_minted,
            ) matches Ok(w) ==> w.tokens_out <= amount,
            self.spec_deposit(amount)->Ok_0.pool.spec_withdraw(
                self.spec_deposit(amount)->Ok_0.lp_minted,
            ) == Err::<Withdrawal, FlashLoanError>(FlashLoanError::InvalidAmount),
    {
        let d = self.spec_deposit(amount)->Ok_0;
        let minted = d.lp_minted as int;
        let supply = d.pool.total_lp_supply as int;
        let liquidity = d.pool.total_liquidity as int;
        assert(supply == self.total_lp_supply + minted);
        assert(0 < minted < supply);
        let share = minted / supply;
        assert(share == 0) by (nonlinear_arith)
            requires
                0 <= minted < supply,
                share == minted / supply,
        ;
        assert(share * liquidity == 0) by (nonlinear_arith)
            requires
                share == 0,
        ;
    }

    /// A loan that is granted is due with its fee: at least the principal,
    /// and at a rate of at most the whole no more than twice the principal.
    pub proof fn loan_is_due_with_fee(self, amount: u64)
        requires
            self.spec_loan_terms(amount) is Ok,
        ensures
            self.spec_loan_terms(amount)->Ok_0.total_due == amount + self.spec_loan_terms(
                amount,
            )->Ok_0.fee,
            self.spec_loan_terms(amount)->Ok_0.total_due >= amount,
            self.wf() ==> self.spec_loan_terms(amount)->Ok_0.fee <= amount,
    {
        let bps = self.fees_bps as int;
        let a = amount as int;
        assert(a * bps >= 0) by (nonlinear_arith)
            requires
                a >= 0,
                bps >= 0,
        ;
        if self.wf() {
            assert(a * bps <= a * 10_000) by (nonlinear_arith)
                requires
                    a >= 0,
                    0 <= bps <= 10_000,
            ;
        }
    }

    /// An amount so close to the top of the 64-bit range that even a fee of
    /// one basis point does not fit beside it is refused with `MathError`.
    pub proof fn loan_overflow_is_refused(self, amount: u64)
        requires
            self.fees_bps >= 1,
            amount + amount / 10_000 > u64::MAX,
        ensures
            self.spec_loan_terms(amount) == Err::<LoanTerms, FlashLoanError>(
                FlashLoanError::MathError,
            ),
    {
        let bps = self.fees_bps as int;
        let a = amount as int;
        assert(a * bps >= a) by (nonlinear_arith)
            requires
                a >= 0,
                bps >= 1,
        ;
    }

    /// Crediting the vault's surplus to the books does not lower the share
    /// price.
    pub proof fn reconcile_keeps_share_price(self, vault_balance: u64)
        requires
            self.spec_reconcile(vault_balance) is Ok,
        ensures
            self.spec_reconcile(vault_balance)->Ok_0.price_at_least(self),
            self.spec_reconcile(vault_balance)->Ok_0.total_liquidity == vault_balance,
    {
        let l = self.total_liquidity as int;
        let v = vault_balance as int;
        let s = self.total_lp_supply as int;
        assert(v * s >= l * s) by (nonlinear_arith)
            requires
                v >= l,
                s >= 0,
        ;
    }
}

/// Bytes in a stored pool record.
pub const POOL_LEN: usize = 117;

impl Pool {
    /// Bytes in a stored pool record.
    pub const LEN: usize = 117;

    /// The stored form of a pool: the three addresses, the identifier, the
    /// two totals and the fee rate in little-endian order, and the two salts.
    pub open spec fn spec_pack(self) -> Seq<u8> {
        self.token_mint@ + self.lp_mint@ + self.vault@ + seq![self.pool_id] + spec_u64_to_le_bytes(
            self.total_liquidity,
        ) + spec_u64_to_le_bytes(self.total_lp_supply) + spec_u16_to_le_bytes(self.fees_bps)
            + seq![self.bump, self.lp_mint_bump]
    }

    /// Whether `data` is the stored form of this pool.
    pub open spec fn stored_in(self, data: Seq<u8>) -> bool {
        &&& data.len() == POOL_LEN
        &&& self.token_mint@ == data.subrange(0, 32)
        &&& self.lp_mint@ == data.subrange(32, 64)
        &&& self.vault@ == data.subrange(64, 96)
        &&& self.pool_id == data[96]
        &&& self.total_liquidity == spec_read_u64(data, 97)
        &&& self.total_lp_supply == spec_read_u64(data, 105)
        &&& self.fees_bps == spec_read_u16(data, 113)
        &&& self.bump == data[115]
        &&& self.lp_mint_bump == data[116]
    }

    /// Whether `data` is the stored form of a consistent pool.
    pub open spec fn holds_pool(data: Seq<u8>) -> bool {
        &&& data.len() == POOL_LEN
        &&& spec_read_u64(data, 97) == 0 <==> spec_read_u64(data, 105) == 0
        &&& spec_read_u16(data, 113) <= MAX_FEE_BPS
    }

    /// The pool whose stored form is `data`, where `data` holds a consistent
    /// pool.
    pub open spec fn spec_unpack(data: Seq<u8>) -> Option<Pool> {
        if Pool::holds_pool(data) {
            Some(choose|p: Pool| p.stored_in(data))
        } else {
            None
        }
    }

    /// Writes the pool in its stored form.
    pub fn pack(&self) -> (bytes: Vec<u8>)
        ensures
            bytes@ == self.spec_pack(),
            bytes@.len() == POOL_LEN,
    {
        let mut bytes: Vec<u8> = Vec::new();
        self.token_mint.write_to(&mut bytes);
        self.lp_mint.write_to(&mut bytes);
        self.vault.write_to(&mut bytes);
        bytes.push(self.pool_id);
        write_u64(&mut bytes, self.total_liquidity);
        write_u64(&mut bytes, self.total_lp_supply);
        write_u16(&mut bytes, self.fees_bps);
        bytes.push(self.bump);
        bytes.push(self.lp_mint_bump);
        assert(bytes@ =~= self.spec_pack());
        bytes
    }

    /// Reads a pool from its stored form.
    ///
    /// Fails with `InvalidAccountData` unless `data` has the length of a
    /// record and holds a consistent pool.
    pub fn unpack(data: &[u8]) -> (read: Result<Pool, FlashLoanError>)
        ensures
            read is Ok <==> Pool::holds_pool(data@),
            read matches Ok(p) ==> p.stored_in(data@) && p.wf() && Pool::spec_unpack(data@) == Some(p),
            read matches Err(e) ==> e == FlashLoanError::InvalidAccountData,
    {
        if data.len() != POOL_LEN {
            return Err(FlashLoanError::InvalidAccountData);
        }
        let pool = Pool {
            token_mint: Address::from_slice(data, 0),
            lp_mint: Address::from_slice(data, 32),
            vault: Address::from_slice(data, 64),
            pool_id: data[96],
            total_liquidity: read_u64(data, 97),
            total_lp_supply: read_u64(data, 105),
            fees_bps: read_u16(data, 113),
            bump: data[115],
            lp_mint_bump: data[116],
        };
        if (pool.total_liquidity == 0) != (pool.total_lp_supply == 0) {
            return Err(FlashLoanError::InvalidAccountData);
        }
        if pool.fees_bps > MAX_FEE_BPS {
            return Err(FlashLoanError::InvalidAccountData);
        }
        proof {
            let chosen = choose|p: Pool| p.stored_in(data@);
            pool.stored_form_is_unique(chosen, data@);
        }
        Ok(pool)
    }

    /// A consistent pool is read back from its stored form.
    pub proof fn unpack_of_pack(self)
        requires
            self.wf(),
        ensures
            Pool::holds_pool(self.spec_pack()),
            self.stored_in(self.spec_pack()),
    {
        let data = self.spec_pack();
        let head = self.token_mint@ + self.lp_mint@ + self.vault@ + seq![self.pool_id];
        let liquidity = spec_u64_to_le_bytes(self.total_liquidity);
        let supply = spec_u64_to_le_bytes(self.total_lp_supply);
        let fee = spec_u16_to_le_bytes(self.fees_bps);
        let salts = seq![self.bump, self.lp_mint_bump];
        read_back_u64(head, self.total_liquidity, supply + fee + salts);
        read_back_u64(head + liquidity, self.total_lp_supply, fee + salts);
        read_back_u16(head + liquidity + supply, self.fees_bps, salts);
        assert(data =~= head + liquidity + (supply + fee + salts));
        assert(data =~= head + liquidity + supply + (fee + salts));
        assert(data =~= head + liquidity + supply + fee + salts);
        assert(data.subrange(0, 32) =~= self.token_mint@);
        assert(data.subrange(32, 64) =~= self.lp_mint@);
        assert(data.subrange(64, 96) =~= self.vault@);
    }

    /// The stored form of the pool that was read from `data` is `data`.
    pub proof fn pack_of_unpack(self, data: Seq<u8>)
        requires
            self.stored_in(data),
        ensures
            self.spec_pack() == data,
    {
        write_back_u64(data, 97);
        write_back_u64(data, 105);
        write_back_u16(data, 113);
        assert(self.spec_pack() =~= data);
    }

    /// No two pools have the same stored form.
    pub proof fn stored_form_is_unique(self, other: Pool, data: Seq<u8>)
        requires
            self.stored_in(data),
            other.stored_in(data),
        ensures
            self == other,
    {
        address_ext(self.token_mint, other.token_mint);
        address_ext(self.lp_mint, other.lp_mint);
        address_ext(self.vault, other.vault);
    }
}

} // verus!
