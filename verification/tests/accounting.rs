use flash_loan::{Address, Deposit, FlashLoanError, LoanTerms, Pool, Withdrawal};

fn address(tag: u8) -> Address {
    Address::new([tag; 32])
}

fn pool(total_liquidity: u64, total_lp_supply: u64, fees_bps: u16) -> Pool {
    Pool {
        token_mint: address(1),
        lp_mint: address(2),
        vault: address(3),
        pool_id: 7,
        total_liquidity,
        total_lp_supply,
        fees_bps,
        bump: 255,
        lp_mint_bump: 254,
    }
}

fn with_totals(p: &Pool, total_liquidity: u64, total_lp_supply: u64) -> Pool {
    Pool { total_liquidity, total_lp_supply, ..*p }
}

#[test]
fn fee_of_fifty_basis_points_on_a_million() {
    let terms = pool(1_000_000, 1_000_000, 50).loan_terms(1_000_000).unwrap();
    assert_eq!(terms.fee, 5_000);
    assert_eq!(terms.total_due, 1_005_000);
}

#[test]
fn fee_is_rounded_down() {
    let p = pool(1_000_000, 1_000_000, 50);
    assert_eq!(p.loan_terms(1_000), Ok(LoanTerms { fee: 5, total_due: 1_005 }));
    assert_eq!(p.loan_terms(199), Ok(LoanTerms { fee: 0, total_due: 199 }));
    assert_eq!(p.loan_terms(200), Ok(LoanTerms { fee: 1, total_due: 201 }));
    assert_eq!(p.loan_terms(399), Ok(LoanTerms { fee: 1, total_due: 400 }));
    assert_eq!(p.loan_terms(0), Ok(LoanTerms { fee: 0, total_due: 0 }));
    assert_eq!(pool(1, 1, 0).loan_terms(u64::MAX), Ok(LoanTerms { fee: 0, total_due: u64::MAX }));
    assert_eq!(pool(1, 1, 10_000).loan_terms(77), Ok(LoanTerms { fee: 77, total_due: 154 }));
    assert_eq!(pool(1, 1, 9_999).loan_terms(10_000), Ok(LoanTerms { fee: 9_999, total_due: 19_999 }));
}

#[test]
fn loan_near_the_top_of_the_range_is_a_math_error() {
    let p = pool(1_000_000, 1_000_000, 50);
    assert_eq!(p.loan_terms(u64::MAX), Err(FlashLoanError::MathError));
    assert_eq!(p.loan_terms(u64::MAX / 50 + 1), Err(FlashLoanError::MathError));
    assert_eq!(pool(1, 1, 1).loan_terms(u64::MAX), Err(FlashLoanError::MathError));
    // the largest amount whose product with the rate still fits
    let most = u64::MAX / 50;
    assert_eq!(p.loan_terms(most), Ok(LoanTerms { fee: most / 200, total_due: most + most / 200 }));
    // at one basis point the product always fits and only the sum decides
    let edge = u64::MAX - u64::MAX / 10_001;
    let one = pool(1, 1, 1);
    assert_eq!(one.loan_terms(edge - 1).unwrap().total_due, edge - 1 + (edge - 1) / 10_000);
    assert!(one.loan_terms(edge - 1).unwrap().total_due > u64::MAX - 2);
    assert_eq!(one.loan_terms(edge + 1), Err(FlashLoanError::MathError));
}

#[test]
fn open_starts_at_a_price_of_one() {
    let opened = Pool::open(address(1), address(2), address(3), 7, 1_000_000, 50, 255, 254);
    assert_eq!(opened, Ok(pool(1_000_000, 1_000_000, 50)));
    assert_eq!(
        Pool::open(address(1), address(2), address(3), 7, 0, 50, 255, 254),
        Err(FlashLoanError::InvalidAmount)
    );
    assert_eq!(
        Pool::open(address(1), address(2), address(3), 7, 0, 10_001, 255, 254),
        Err(FlashLoanError::InvalidAmount)
    );
    assert_eq!(
        Pool::open(address(1), address(2), address(3), 7, 1, 10_001, 255, 254),
        Err(FlashLoanError::InvalidInstructionData)
    );
    assert_eq!(
        Pool::open(address(1), address(2), address(3), 7, u64::MAX, 10_000, 255, 254),
        Ok(pool(u64::MAX, u64::MAX, 10_000))
    );
}

#[test]
fn deposit_earns_whole_multiples_of_the_supply() {
    let p = pool(1_000, 3_000, 50);
    assert_eq!(p.deposit(1_000), Ok(Deposit { pool: with_totals(&p, 2_000, 6_000), lp_minted: 3_000 }));
    assert_eq!(p.deposit(1_999), Ok(Deposit { pool: with_totals(&p, 2_999, 6_000), lp_minted: 3_000 }));
    assert_eq!(p.deposit(2_000), Ok(Deposit { pool: with_totals(&p, 3_000, 9_000), lp_minted: 6_000 }));
    assert_eq!(p.deposit(999), Err(FlashLoanError::InvalidAmount));
    assert_eq!(p.deposit(0), Err(FlashLoanError::InvalidAmount));
}

#[test]
fn deposit_math_errors() {
    assert_eq!(pool(0, 0, 50).deposit(1_000), Err(FlashLoanError::MathError));
    assert_eq!(pool(0, 0, 50).deposit(0), Err(FlashLoanError::MathError));
    // the shares earned do not fit
    assert_eq!(pool(1, u64::MAX, 50).deposit(2), Err(FlashLoanError::MathError));
    // the liquidity does not fit
    assert_eq!(pool(u64::MAX, 1, 50).deposit(u64::MAX), Err(FlashLoanError::MathError));
    // the supply does not fit
    assert_eq!(pool(1, u64::MAX, 50).deposit(1), Err(FlashLoanError::MathError));
    // too small a deposit is refused before the totals are added up
    assert_eq!(pool(u64::MAX, 1, 50).deposit(u64::MAX - 1), Err(FlashLoanError::InvalidAmount));
    let half = 1u64 << 63;
    assert_eq!(
        pool(half - 1, 1, 50).deposit(half),
        Ok(Deposit { pool: with_totals(&pool(0, 0, 50), u64::MAX, 2), lp_minted: 1 })
    );
}

#[test]
fn withdraw_pays_out_only_the_whole_supply() {
    let p = pool(750, 500, 50);
    assert_eq!(p.withdraw(500), Ok(Withdrawal { pool: with_totals(&p, 0, 0), tokens_out: 750 }));
    assert_eq!(p.withdraw(499), Err(FlashLoanError::InvalidAmount));
    assert_eq!(p.withdraw(1), Err(FlashLoanError::InvalidAmount));
    assert_eq!(p.withdraw(0), Err(FlashLoanError::InvalidAmount));
    assert_eq!(p.withdraw(501), Err(FlashLoanError::MathError));
    assert_eq!(p.withdraw(999), Err(FlashLoanError::MathError));
    assert_eq!(p.withdraw(1_000), Err(FlashLoanError::MathError));
    assert_eq!(p.withdraw(u64::MAX), Err(FlashLoanError::MathError));
    assert_eq!(pool(0, 0, 50).withdraw(1), Err(FlashLoanError::MathError));
    assert_eq!(pool(0, 0, 50).withdraw(0), Err(FlashLoanError::MathError));
    let all = pool(u64::MAX, u64::MAX, 50);
    assert_eq!(all.withdraw(u64::MAX), Ok(Withdrawal { pool: with_totals(&all, 0, 0), tokens_out: u64::MAX }));
}

#[test]
fn share_price_never_falls_over_deposits() {
    let mut p = pool(1_000_000, 700_000, 50);
    for amount in [1_000_000u64, 2_500_000, 4_500_000, 9_000_001, 36_000_001, 40_000_000_000] {
        let before = p;
        p = p.deposit(amount).unwrap().pool;
        assert_eq!((p.total_liquidity == 0), (p.total_lp_supply == 0));
        let exact = (p.total_liquidity as u128) * (before.total_lp_supply as u128)
            >= (before.total_liquidity as u128) * (p.total_lp_supply as u128);
        assert!(exact);
        assert!(p.total_liquidity / p.total_lp_supply >= before.total_liquidity / before.total_lp_supply);
    }
    assert_eq!(p.total_liquidity, 40_054_000_002);
    assert_eq!(p.total_lp_supply, 22_400_000 * 741);
}

#[test]
fn shares_of_a_deposit_withdrawn_at_once_pay_no_more_than_was_deposited() {
    for (liquidity, supply, amount) in [
        (1_000_000u64, 1_000_000u64, 1_000_000u64),
        (1_000, 3_000, 2_999),
        (1, 1, 1),
        (7, 1_000_000, 700),
        (1_000_000, 1, 999_999_999),
    ] {
        let deposit = pool(liquidity, supply, 50).deposit(amount).unwrap();
        match deposit.pool.withdraw(deposit.lp_minted) {
            Ok(w) => assert!(w.tokens_out <= amount),
            Err(e) => assert_eq!(e, FlashLoanError::InvalidAmount),
        }
        assert_eq!(deposit.pool.withdraw(deposit.lp_minted), Err(FlashLoanError::InvalidAmount));
    }
}

#[test]
fn reconcile_books_the_surplus_of_the_vault() {
    let p = pool(1_000_000, 1_000_000, 50);
    assert_eq!(p.reconcile(1_000_005), Ok(with_totals(&p, 1_000_005, 1_000_000)));
    assert_eq!(p.reconcile(1_000_000), Ok(p));
    assert_eq!(p.reconcile(999_999), Err(FlashLoanError::InsufficientFunds));
    assert_eq!(pool(0, 0, 50).reconcile(0), Ok(pool(0, 0, 50)));
    assert_eq!(pool(0, 0, 50).reconcile(5), Err(FlashLoanError::MathError));
}

#[test]
fn truncated_time_keeps_the_low_eight_bits() {
    assert_eq!(flash_loan::state::truncated_time(0), 0);
    assert_eq!(flash_loan::state::truncated_time(255), 255);
    assert_eq!(flash_loan::state::truncated_time(256), 0);
    assert_eq!(flash_loan::state::truncated_time(1_700_000_000), (1_700_000_000i64 % 256) as u8);
    assert_eq!(flash_loan::state::truncated_time(-1), 255);
    assert_eq!(flash_loan::state::truncated_time(i64::MIN), 0);
    assert_eq!(flash_loan::state::truncated_time(i64::MAX), 255);
}

#[test]
fn every_failure_has_its_code_and_text() {
    let all = [
        (FlashLoanError::InvalidAuthority, "Invalid authority provided."),
        (FlashLoanError::InsufficientLiquidity, "Insufficient liquidity in pool."),
        (FlashLoanError::InvalidRepaymentAmount, "Repayment amount is incorrect."),
        (FlashLoanError::LoanMustBeRepaidImmediately, "Loan must be repaid in the same transaction."),
        (FlashLoanError::FlashLoanAlreadyTaken, "Flash loan has already been taken."),
        (FlashLoanError::InvalidTokenMint, "Token mismatch detected."),
        (FlashLoanError::MathError, "Arithmetic overflow or underflow occurred."),
        (FlashLoanError::UnauthorizedAccess, "Unauthorized account access."),
        (FlashLoanError::InsufficientFunds, "Insufficient funds in the account"),
        (FlashLoanError::InvalidAccountData, "Invalid ATA passed who's owner isn't the specified borrower"),
        (
            FlashLoanError::InvalidPoolId,
            "Invalid pool id passed in the instruction as it doesnt match with the pool's pda pool_id",
        ),
        (FlashLoanError::InvalidAmount, "Amount can't be zero"),
        (FlashLoanError::MissingRequiredSignature, "The passed account is_signer flag is set to false"),
        (FlashLoanError::InvalidInstructionData, "Invalid instruction data provided"),
        (FlashLoanError::InvalidInstructionSequence, "Borrow must be followed by its matching repay"),
        (FlashLoanError::NotProvisioned, "Pool account is not rent exempt"),
        (FlashLoanError::NotEnoughAccountKeys, "Not enough account keys given to the instruction"),
        (FlashLoanError::IncorrectProgramId, "Incorrect program id for instruction"),
    ];
    for (code, (error, text)) in all.iter().enumerate() {
        assert_eq!(error.code(), code as u32);
        assert_eq!(error.message(), *text);
    }
}
