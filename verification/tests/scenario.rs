use std::collections::BTreeMap;

use flash_loan::{
    process_instruction, Account, Address, BatchPlan, FlashLoanError, FlashLoanInstruction,
    Invocation, PlannedInstruction, Pool, Sysvars,
};
use solana_program::account_info::AccountInfo;
use solana_program::program_error::ProgramError;
use solana_program::pubkey::Pubkey;
use spl_token::solana_program::program_option::COption;
use spl_token::solana_program::program_pack::Pack;

fn addr(key: &Pubkey) -> Address {
    Address::new(key.to_bytes())
}

fn key(address: &Address) -> Pubkey {
    Pubkey::new_from_array(address.bytes)
}

#[derive(Clone)]
struct Stored {
    lamports: u64,
    data: Vec<u8>,
    owner: Pubkey,
}

/// The token program's accounts, changed by the token program's own code.
#[derive(Clone)]
struct Ledger {
    accounts: BTreeMap<[u8; 32], Stored>,
}

impl Ledger {
    fn put(&mut self, key: &Pubkey, owner: Pubkey, data: Vec<u8>) {
        self.accounts.insert(key.to_bytes(), Stored { lamports: 1_000_000_000, data, owner });
    }

    fn put_token_account(&mut self, key: &Pubkey, mint: &Pubkey, owner: &Pubkey, amount: u64) {
        let holding = spl_token::state::Account {
            mint: *mint,
            owner: *owner,
            amount,
            delegate: COption::None,
            state: spl_token::state::AccountState::Initialized,
            is_native: COption::None,
            delegated_amount: 0,
            close_authority: COption::None,
        };
        let mut data = vec![0u8; spl_token::state::Account::LEN];
        spl_token::state::Account::pack(holding, &mut data).unwrap();
        self.put(key, spl_token::id(), data);
    }

    fn balance(&self, key: &Pubkey) -> u64 {
        spl_token::state::Account::unpack(&self.accounts[&key.to_bytes()].data).unwrap().amount
    }

    fn supply(&self, mint: &Pubkey) -> u64 {
        spl_token::state::Mint::unpack(&self.accounts[&mint.to_bytes()].data).unwrap().supply
    }

    /// The account as a step of the pool sees it.
    fn show(&self, key: &Pubkey, is_signer: bool) -> Account {
        let stored = self.accounts.get(&key.to_bytes());
        Account {
            key: addr(key),
            owner: addr(&stored.map(|s| s.owner).unwrap_or_default()),
            lamports: stored.map(|s| s.lamports).unwrap_or(0),
            data: stored.map(|s| s.data.clone()).unwrap_or_default(),
            is_signer,
            is_writable: true,
        }
    }

    /// Makes one request of the token program, as the host would: an account
    /// counts as signer if it signed the batch or if the seeds given with
    /// the request derive its address under the pool's program.
    fn perform(
        &mut self,
        program: &Pubkey,
        request: &Invocation,
        batch_signers: &[Pubkey],
    ) -> Result<(), ProgramError> {
        assert_eq!(request.instruction.program_id, addr(&spl_token::id()));
        let derived = request.signer_seeds.as_ref().map(|seeds| {
            let parts: Vec<&[u8]> = seeds.iter().map(|s| s.as_slice()).collect();
            Pubkey::create_program_address(&parts, program).unwrap()
        });
        let mut keys: Vec<Pubkey> = Vec::new();
        for meta in &request.instruction.accounts {
            if !keys.contains(&key(&meta.pubkey)) {
                keys.push(key(&meta.pubkey));
            }
        }
        let mut stored: Vec<Stored> =
            keys.iter().map(|k| self.accounts.remove(&k.to_bytes()).unwrap()).collect();
        let result = {
            let unique: Vec<AccountInfo> = keys
                .iter()
                .zip(stored.iter_mut())
                .map(|(k, s)| {
                    AccountInfo::new(k, false, true, &mut s.lamports, &mut s.data, &s.owner, false)
                })
                .collect();
            let infos: Vec<AccountInfo> = request
                .instruction
                .accounts
                .iter()
                .map(|meta| {
                    let k = key(&meta.pubkey);
                    let at = keys.iter().position(|other| *other == k).unwrap();
                    let mut info = unique[at].clone();
                    info.is_signer =
                        meta.is_signer && (batch_signers.contains(&k) || derived == Some(k));
                    info.is_writable = meta.is_writable;
                    info
                })
                .collect();
            spl_token::processor::Processor::process(
                &spl_token::id(),
                &infos,
                &request.instruction.data,
            )
        };
        for (k, s) in keys.iter().zip(stored.into_iter()) {
            self.accounts.insert(k.to_bytes(), s);
        }
        result
    }
}

struct Host {
    program: Pubkey,
    user: Pubkey,
    mint: Pubkey,
    pool_key: Pubkey,
    vault: Pubkey,
    lp_mint: Pubkey,
    user_tokens: Pubkey,
    user_shares: Pubkey,
    ledger: Ledger,
}

fn program_with_salts(pool_id: u8, vault_salt: u8, lp_salt: u8) -> Pubkey {
    let mut n: u32 = 0;
    loop {
        let mut bytes = [0xF1u8; 32];
        bytes[..4].copy_from_slice(&n.to_le_bytes());
        let id = Pubkey::new_from_array(bytes);
        let (_, v) = Pubkey::find_program_address(&[b"vault", &[pool_id]], &id);
        let (_, l) = Pubkey::find_program_address(&[b"lp_mint", &[pool_id]], &id);
        if v == vault_salt && l == lp_salt {
            return id;
        }
        n += 1;
    }
}

impl Host {
    /// A host at time 0 on which no pool exists yet. The user holds
    /// `funds` units to seed a pool with, and `pocket` units besides.
    fn new(funds: u64, pocket: u64) -> Host {
        let program = program_with_salts(0, 255, 255);
        let (vault, _) = Pubkey::find_program_address(&[b"vault", &[0]], &program);
        let (lp_mint, _) = Pubkey::find_program_address(&[b"lp_mint", &[0]], &program);
        let user = Pubkey::new_from_array([0x22; 32]);
        let mint = Pubkey::new_from_array([0x11; 32]);
        #[allow(deprecated)]
        let user_tokens = spl_associated_token_account::get_associated_token_address(&user, &mint);
        #[allow(deprecated)]
        let user_shares = spl_associated_token_account::get_associated_token_address(&user, &lp_mint);
        let mut ledger = Ledger { accounts: BTreeMap::new() };
        ledger.put_token_account(&user, &mint, &user, funds);
        ledger.put_token_account(&user_tokens, &mint, &user, pocket);
        ledger.put_token_account(&vault, &mint, &vault, 0);
        ledger.put_token_account(&user_shares, &lp_mint, &user, 0);
        ledger.put(&lp_mint, spl_token::id(), vec![0u8; spl_token::state::Mint::LEN]);
        let mut rent = Vec::new();
        rent.extend_from_slice(&1u64.to_le_bytes());
        rent.extend_from_slice(&1.0f64.to_le_bytes());
        rent.push(0);
        ledger.put(&solana_program::sysvar::rent::id(), solana_program::sysvar::id(), rent);
        let pool_key = Pubkey::new_from_array([0x33; 32]);
        ledger.put(&pool_key, program, vec![0u8; 117]);
        Host { program, user, mint, pool_key, vault, lp_mint, user_tokens, user_shares, ledger }
    }

    fn pool(&self) -> Pool {
        Pool::unpack(&self.ledger.accounts[&self.pool_key.to_bytes()].data).unwrap()
    }

    fn accounts_of(&self, op: &FlashLoanInstruction) -> Vec<Account> {
        let l = &self.ledger;
        let other = Pubkey::new_from_array([0x77; 32]);
        match op {
            FlashLoanInstruction::InitPool { .. } => vec![
                l.show(&self.user, true),
                l.show(&self.pool_key, false),
                l.show(&self.mint, false),
                l.show(&self.vault, false),
                l.show(&self.lp_mint, false),
                l.show(&self.user_shares, false),
                l.show(&solana_program::sysvar::rent::id(), false),
                l.show(&spl_token::id(), false),
                l.show(&other, false),
            ],
            FlashLoanInstruction::LiquidatePool { .. } | FlashLoanInstruction::DeLiquidatePool { .. } => vec![
                l.show(&self.user, true),
                l.show(&self.user_tokens, false),
                l.show(&self.pool_key, false),
                l.show(&self.vault, false),
                l.show(&self.lp_mint, false),
                l.show(&self.user_shares, false),
                l.show(&spl_token::id(), false),
            ],
            FlashLoanInstruction::Borrow { .. } => vec![
                l.show(&self.user, true),
                l.show(&self.pool_key, false),
                l.show(&self.vault, false),
                l.show(&self.user_tokens, false),
                l.show(&spl_token::id(), false),
                l.show(&other, false),
                l.show(&other, false),
            ],
            FlashLoanInstruction::Repay { .. } => vec![
                l.show(&self.user, true),
                l.show(&self.pool_key, false),
                l.show(&self.user_tokens, false),
                l.show(&self.vault, false),
                l.show(&spl_token::id(), false),
                l.show(&other, false),
            ],
        }
    }

    /// Runs a batch: every step in order, each with the plan of the whole
    /// batch before it. If a step or a request of it fails, nothing of the
    /// batch remains.
    fn run(&mut self, batch: &[FlashLoanInstruction]) -> Result<(), String> {
        let before = self.ledger.clone();
        let plan: Vec<PlannedInstruction> = batch
            .iter()
            .map(|op| PlannedInstruction { program_id: addr(&self.program), data: op.pack() })
            .collect();
        for (at, op) in batch.iter().enumerate() {
            let sysvars = Sysvars {
                unix_timestamp: 0,
                rent_exempt_minimum: 1_000,
                batch: BatchPlan { current_index: at as u16, instructions: plan.clone() },
            };
            let done = process_instruction(
                &addr(&self.program),
                &self.accounts_of(op),
                &op.pack(),
                &sysvars,
            );
            let outcome = match done {
                Ok(outcome) => outcome,
                Err(e) => {
                    self.ledger = before;
                    return Err(format!("{:?}", e));
                }
            };
            for request in &outcome.invocations {
                if let Err(e) = self.ledger.perform(&self.program, request, &[self.user]) {
                    self.ledger = before;
                    return Err(format!("{:?}", e));
                }
            }
            self.ledger.accounts.get_mut(&self.pool_key.to_bytes()).unwrap().data = outcome.pool.pack();
        }
        Ok(())
    }

    fn init(&self, initial_amount: u64, fees_bps: u16) -> FlashLoanInstruction {
        FlashLoanInstruction::InitPool {
            initial_amount,
            fees_bps,
            bump: 255,
            mint: addr(&self.mint),
            lp_mint_bump: 255,
        }
    }

    fn borrow(&self, amount: u64) -> FlashLoanInstruction {
        FlashLoanInstruction::Borrow { pool_id: 0, amount, mint: addr(&self.mint), bump: 255 }
    }
}

fn repay(amount: u64) -> FlashLoanInstruction {
    FlashLoanInstruction::Repay { pool_id: 0, amount }
}

#[test]
fn pool_of_a_million_lends_a_thousand_and_keeps_the_fee() {
    let mut host = Host::new(1_000_000, 5);
    host.run(&[host.init(1_000_000, 50)]).unwrap();
    let pool = host.pool();
    assert_eq!(pool.total_liquidity, 1_000_000);
    assert_eq!(pool.total_lp_supply, 1_000_000);
    assert_eq!(pool.fees_bps, 50);
    assert_eq!(host.ledger.balance(&host.vault), 1_000_000);
    assert_eq!(host.ledger.balance(&host.user), 0);
    assert_eq!(host.ledger.supply(&host.lp_mint), 1_000_000);
    assert_eq!(host.ledger.balance(&host.user_shares), 1_000_000);

    host.run(&[host.borrow(1_000), repay(1_005)]).unwrap();
    assert_eq!(host.ledger.balance(&host.vault), 1_000_005);
    assert_eq!(host.ledger.balance(&host.user_tokens), 0);
    assert_eq!(host.pool().total_liquidity, 1_000_000);
    assert_eq!(host.pool().total_lp_supply, 1_000_000);

    let booked = host.pool().reconcile(host.ledger.balance(&host.vault)).unwrap();
    assert_eq!(booked.total_liquidity, 1_000_005);
    assert_eq!(booked.total_lp_supply, 1_000_000);
}

#[test]
fn loan_moves_nothing_unless_its_repayment_follows() {
    let mut host = Host::new(1_000_000, 2_000);
    host.run(&[host.init(1_000_000, 50)]).unwrap();
    let refused = Err(format!("{:?}", FlashLoanError::InvalidInstructionSequence));
    let before = host.ledger.accounts.iter().map(|(k, s)| (*k, s.data.clone())).collect::<Vec<_>>();
    assert_eq!(host.run(&[host.borrow(1_000)]), refused);
    assert_eq!(host.run(&[host.borrow(1_000), repay(1_004)]), refused);
    assert_eq!(host.run(&[host.borrow(1_000), repay(1_006)]), refused);
    assert_eq!(host.run(&[host.borrow(1_000), repay(1_000)]), refused);
    assert_eq!(
        host.run(&[host.borrow(1_000), FlashLoanInstruction::Repay { pool_id: 1, amount: 1_005 }]),
        refused
    );
    assert_eq!(host.run(&[host.borrow(1_000), host.borrow(1_000), repay(1_005)]), refused);
    assert_eq!(host.run(&[repay(1_005), host.borrow(1_000)]), refused);
    let after = host.ledger.accounts.iter().map(|(k, s)| (*k, s.data.clone())).collect::<Vec<_>>();
    assert_eq!(before, after);
    assert_eq!(host.ledger.balance(&host.vault), 1_000_000);
    assert_eq!(host.ledger.balance(&host.user_tokens), 2_000);
}

#[test]
fn repeated_loans_leave_their_fees_in_the_vault() {
    let mut host = Host::new(1_000_000, 2_000);
    host.run(&[host.init(1_000_000, 50)]).unwrap();
    host.run(&[host.borrow(1_000), repay(1_005), host.borrow(200_000), repay(201_000)]).unwrap();
    // the borrower cannot pay the fee on a loan of the whole pool: the
    // token program refuses the repayment, and the loan is undone with it
    host.run(&[host.borrow(1_000_000), repay(1_005_000)]).unwrap_err();
    assert_eq!(host.ledger.balance(&host.vault), 1_001_005);
    host.run(&[host.borrow(199), repay(199)]).unwrap();
    assert_eq!(host.ledger.balance(&host.vault), 1_001_005);
    assert_eq!(host.ledger.balance(&host.user_tokens), 995);
    assert_eq!(host.pool().total_liquidity, 1_000_000);
    let booked = host.pool().reconcile(host.ledger.balance(&host.vault)).unwrap();
    assert_eq!(booked.total_liquidity, 1_001_005);
}
