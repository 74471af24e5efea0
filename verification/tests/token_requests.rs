use flash_loan::address::{
    authority_matches, get_associated_token_address, is_derived_address,
    ASSOCIATED_TOKEN_PROGRAM_ID, LP_MINT_SEED, RENT_SYSVAR_ID, SYSTEM_PROGRAM_ID, TOKEN_PROGRAM_ID,
    VAULT_SEED,
};
use flash_loan::{
    burn_tokens, create_ata, create_mint, mint_tokens, transfer_tokens, AccountMeta, Address,
    AuthorityKind, DerivedAuthority, FlashLoanError, Instruction,
};
use solana_program::pubkey::Pubkey;
use spl_token::solana_program::instruction::Instruction as OutsideInstruction;

fn addr(key: &Pubkey) -> Address {
    Address::new(key.to_bytes())
}

fn party(tag: u8) -> Pubkey {
    let mut bytes = [tag; 32];
    bytes[0] = 1;
    Pubkey::new_from_array(bytes)
}

fn same(ours: &Instruction, theirs: &OutsideInstruction) {
    assert_eq!(ours.program_id, addr(&theirs.program_id));
    assert_eq!(ours.data, theirs.data);
    let metas: Vec<AccountMeta> = theirs
        .accounts
        .iter()
        .map(|m| AccountMeta { pubkey: addr(&m.pubkey), is_signer: m.is_signer, is_writable: m.is_writable })
        .collect();
    assert_eq!(ours.accounts, metas);
}

#[test]
fn well_known_addresses() {
    let deployed: Pubkey = "EgB1zom79Ek4LkvJjafbkUMTwDK9sZQKEzNnrNFHpHHz".parse().unwrap();
    assert_eq!(flash_loan::ID, deployed.to_bytes());
    assert_eq!(TOKEN_PROGRAM_ID, spl_token::id().to_bytes());
    assert_eq!(ASSOCIATED_TOKEN_PROGRAM_ID, spl_associated_token_account::id().to_bytes());
    assert_eq!(RENT_SYSVAR_ID, solana_program::sysvar::rent::id().to_bytes());
    assert_eq!(SYSTEM_PROGRAM_ID, [0u8; 32]);
    assert_eq!(&VAULT_SEED, b"vault");
    assert_eq!(&LP_MINT_SEED, b"lp_mint");
}

#[test]
fn transfer_request_is_the_token_crate_s() {
    let (source, destination, authority) = (party(2), party(3), party(4));
    for amount in [0u64, 1, 1_000, 1_005_000, u64::MAX] {
        let theirs =
            spl_token::instruction::transfer(&spl_token::id(), &source, &destination, &authority, &[], amount)
                .unwrap();
        let ours = transfer_tokens(
            &addr(&source),
            &addr(&destination),
            &addr(&authority),
            &addr(&spl_token::id()),
            amount,
            None,
        )
        .unwrap();
        same(&ours.instruction, &theirs);
        assert_eq!(ours.signer_seeds, None);
        assert_eq!(ours.instruction.data[0], 3);
        assert_eq!(ours.instruction.data[1..], amount.to_le_bytes());
        assert_eq!(
            ours.instruction.accounts,
            vec![
                AccountMeta { pubkey: addr(&source), is_signer: false, is_writable: true },
                AccountMeta { pubkey: addr(&destination), is_signer: false, is_writable: true },
                AccountMeta { pubkey: addr(&authority), is_signer: true, is_writable: false },
            ]
        );
    }
    let seeds = vec![b"vault".to_vec(), vec![9], vec![255]];
    let signed = transfer_tokens(
        &addr(&source),
        &addr(&destination),
        &addr(&authority),
        &addr(&spl_token::id()),
        5,
        Some(seeds.clone()),
    )
    .unwrap();
    assert_eq!(signed.signer_seeds, Some(seeds));
}

#[test]
fn mint_request_is_the_token_crate_s() {
    let (mint, destination, authority) = (party(2), party(3), party(4));
    let theirs =
        spl_token::instruction::mint_to(&spl_token::id(), &mint, &destination, &authority, &[], 6_000).unwrap();
    let seeds = vec![b"lp_mint".to_vec(), vec![9], vec![254]];
    let ours = mint_tokens(
        &addr(&mint),
        &addr(&destination),
        &addr(&authority),
        &addr(&spl_token::id()),
        6_000,
        seeds.clone(),
    )
    .unwrap();
    same(&ours.instruction, &theirs);
    assert_eq!(ours.signer_seeds, Some(seeds));
    assert_eq!(ours.instruction.data, vec![7, 0x70, 0x17, 0, 0, 0, 0, 0, 0]);
}

#[test]
fn burn_request_is_the_token_crate_s() {
    let (account, mint, authority) = (party(2), party(3), party(4));
    let theirs =
        spl_token::instruction::burn(&spl_token::id(), &account, &mint, &authority, &[], 500).unwrap();
    let ours =
        burn_tokens(&addr(&account), &addr(&mint), &addr(&authority), &addr(&spl_token::id()), 500)
            .unwrap();
    same(&ours.instruction, &theirs);
    assert_eq!(ours.signer_seeds, None);
    assert_eq!(ours.instruction.data, vec![8, 0xF4, 0x01, 0, 0, 0, 0, 0, 0]);
    assert_eq!(ours.instruction.accounts[0].pubkey, addr(&account));
    assert_eq!(ours.instruction.accounts[1].pubkey, addr(&mint));
}

#[test]
fn create_mint_request_is_the_token_crate_s() {
    let (mint, authority) = (party(2), party(3));
    let theirs =
        spl_token::instruction::initialize_mint(&spl_token::id(), &mint, &authority, None, 9).unwrap();
    let seeds = vec![b"lp_mint".to_vec(), vec![0], vec![255]];
    let ours =
        create_mint(&addr(&mint), &addr(&authority), 9, &addr(&spl_token::id()), seeds.clone()).unwrap();
    same(&ours.instruction, &theirs);
    assert_eq!(ours.signer_seeds, Some(seeds));
    assert_eq!(ours.instruction.data.len(), 35);
    assert_eq!(ours.instruction.data[..2], [0, 9]);
    assert_eq!(ours.instruction.data[2..34], authority.to_bytes());
    assert_eq!(ours.instruction.data[34], 0);
    assert_eq!(
        ours.instruction.accounts,
        vec![
            AccountMeta { pubkey: addr(&mint), is_signer: false, is_writable: true },
            AccountMeta { pubkey: Address::new(RENT_SYSVAR_ID), is_signer: false, is_writable: false },
        ]
    );
}

#[test]
fn create_account_request_is_the_token_crate_s() {
    let (payer, wallet, mint) = (party(2), party(3), party(4));
    let theirs = spl_associated_token_account::instruction::create_associated_token_account(
        &payer,
        &wallet,
        &mint,
        &spl_token::id(),
    );
    let ours = create_ata(&addr(&payer), &addr(&wallet), &addr(&mint), &addr(&spl_token::id())).unwrap();
    same(&ours.instruction, &theirs);
    assert_eq!(ours.signer_seeds, None);
    assert_eq!(ours.instruction.data, vec![0]);
    assert_eq!(ours.instruction.program_id, Address::new(ASSOCIATED_TOKEN_PROGRAM_ID));
    assert_eq!(ours.instruction.accounts.len(), 6);
    assert_eq!(
        Some(ours.instruction.accounts[1].pubkey),
        get_associated_token_address(&addr(&wallet), &addr(&mint))
    );
    assert_eq!(ours.instruction.accounts[4].pubkey, Address::new(SYSTEM_PROGRAM_ID));
}

#[test]
fn requests_to_another_program_are_refused() {
    let (a, b, c) = (addr(&party(2)), addr(&party(3)), addr(&party(4)));
    let other = addr(&party(5));
    let refused = Some(FlashLoanError::IncorrectProgramId);
    assert_eq!(transfer_tokens(&a, &b, &c, &other, 1, None).err(), refused);
    assert_eq!(mint_tokens(&a, &b, &c, &other, 1, vec![]).err(), refused);
    assert_eq!(burn_tokens(&a, &b, &c, &other, 1).err(), refused);
    assert_eq!(create_mint(&a, &b, 9, &other, vec![]).err(), refused);
    let ata_program = Address::new(ASSOCIATED_TOKEN_PROGRAM_ID);
    assert_eq!(transfer_tokens(&a, &b, &c, &ata_program, 1, None).err(), refused);
}

#[test]
fn canonical_token_account_is_the_token_crate_s() {
    for tag in 2..40u8 {
        let (wallet, mint) = (party(tag), party(tag.wrapping_mul(7)));
        #[allow(deprecated)]
        let theirs = spl_associated_token_account::get_associated_token_address(&wallet, &mint);
        let ours = get_associated_token_address(&addr(&wallet), &addr(&mint));
        assert_eq!(ours, Some(addr(&theirs)));
        let (found, _) = Pubkey::find_program_address(
            &[&wallet.to_bytes(), &TOKEN_PROGRAM_ID, &mint.to_bytes()],
            &Pubkey::new_from_array(ASSOCIATED_TOKEN_PROGRAM_ID),
        );
        assert_eq!(found, theirs);
        assert!(is_derived_address(&ours, &addr(&theirs)));
        assert!(!is_derived_address(&ours, &addr(&wallet)));
        assert!(!is_derived_address(&None, &addr(&theirs)));
    }
}

#[test]
fn authority_is_granted_only_to_the_salt_that_reproduces_the_address() {
    let program = party(0x70);
    for pool_id in [0u8, 1, 9, 255] {
        let (vault, salt) = Pubkey::find_program_address(&[b"vault", &[pool_id]], &program);
        let (lp_mint, lp_salt) = Pubkey::find_program_address(&[b"lp_mint", &[pool_id]], &program);
        let granted =
            DerivedAuthority::recompute(AuthorityKind::Vault, &addr(&program), pool_id, salt, &addr(&vault))
                .unwrap();
        assert_eq!(granted.address(), addr(&vault));
        assert_eq!(granted.signer_seeds(), vec![b"vault".to_vec(), vec![pool_id], vec![salt]]);
        let parts = granted.signer_seeds();
        let parts: Vec<&[u8]> = parts.iter().map(|s| s.as_slice()).collect();
        assert_eq!(Pubkey::create_program_address(&parts, &program), Ok(vault));
        let granted = DerivedAuthority::recompute(
            AuthorityKind::LpMint,
            &addr(&program),
            pool_id,
            lp_salt,
            &addr(&lp_mint),
        )
        .unwrap();
        assert_eq!(granted.address(), addr(&lp_mint));
        assert_eq!(granted.signer_seeds(), vec![b"lp_mint".to_vec(), vec![pool_id], vec![lp_salt]]);

        let refused = Some(FlashLoanError::InvalidAuthority);
        let recompute = |kind, program: &Pubkey, pool_id, salt, stored: &Pubkey| {
            DerivedAuthority::recompute(kind, &addr(program), pool_id, salt, &addr(stored)).err()
        };
        assert_eq!(recompute(AuthorityKind::Vault, &program, pool_id, salt.wrapping_sub(1), &vault), refused);
        assert_eq!(recompute(AuthorityKind::Vault, &program, pool_id, salt, &lp_mint), refused);
        assert_eq!(recompute(AuthorityKind::LpMint, &program, pool_id, salt, &vault), refused);
        assert_eq!(recompute(AuthorityKind::Vault, &program, pool_id.wrapping_add(1), salt, &vault), refused);
        assert_eq!(recompute(AuthorityKind::Vault, &party(0x71), pool_id, salt, &vault), refused);
    }
}

#[test]
fn a_derivation_matches_only_its_own_address_and_salt() {
    let (a, b) = (addr(&party(2)), addr(&party(3)));
    assert!(authority_matches(&Some((a, 255)), &a, 255));
    assert!(!authority_matches(&Some((a, 255)), &a, 254));
    assert!(!authority_matches(&Some((a, 255)), &b, 255));
    assert!(!authority_matches(&None, &a, 255));
}

#[test]
fn a_holding_matches_only_its_own_owner_and_asset() {
    let (owner, mint, other) = (addr(&party(2)), addr(&party(3)), addr(&party(4)));
    let holding = flash_loan::TokenHolding { mint, owner, amount: 5 };
    let matches = flash_loan::instruction::borrow::holding_matches;
    assert!(matches(&holding, &owner, &mint));
    assert!(!matches(&holding, &other, &mint));
    assert!(!matches(&holding, &owner, &other));
    assert!(!matches(&holding, &mint, &owner));
}
