//! The requests the pool makes of the token programs.
//!
//! Each function builds one request and pairs it with the seeds that sign
//! it. The host carries the requests out in the order the pool returns them.
use vstd::prelude::*;
use crate::address::{find_program_address, Address, ASSOCIATED_TOKEN_PROGRAM_ID, TOKEN_PROGRAM_ID};
use crate::cpi::{
    burn_instruction, create_account_instruction, initialize_mint_instruction,
    mint_to_instruction, spec_token_account_address, token_account_seeds, token_burn,
    token_create_account, token_initialize_mint, token_mint_to, token_transfer,
    transfer_instruction, InstructionView, Invocation, InvocationView,
};
use crate::error::FlashLoanError;

verus! {

/// The seeds in `seeds`, as a mathematical value.
pub open spec fn seeds_view(seeds: Option<Vec<Vec<u8>>>) -> Option<Seq<Seq<u8>>> {
    match seeds {
        Some(s) => Some(s.deep_view()),
        None => None,
    }
}

/// The request `instruction`, signed with `seeds` where there are any.
pub open spec fn signed(instruction: InstructionView, seeds: Option<Seq<Seq<u8>>>) -> InvocationView {
    InvocationView { instruction, signer_seeds: seeds }
}

/// Requests the creation of `mint` as a mint with `decimals` decimals whose
/// shares are minted on the word of `mint_authority`, signed with
/// `signer_seeds`.
///
/// Fails with `IncorrectProgramId` unless `token_program` is the token
/// program.
pub fn create_mint(
    mint: &Address,
    mint_authority: &Address,
    decimals: u8,
    token_program: &Address,
    signer_seeds: Vec<Vec<u8>>,
) -> (request: Result<Invocation, FlashLoanError>)
    ensures
        request is Ok <==> token_program@ == TOKEN_PROGRAM_ID@,
        request matches Err(e) ==> e == FlashLoanError::IncorrectProgramId,
        request matches Ok(r) ==> r@ == signed(
            initialize_mint_instruction(*token_program, *mint, *mint_authority, decimals),
            Some(signer_seeds.deep_view()),
        ),
{
    match token_initialize_mint(token_program, mint, mint_authority, decimals) {
        Ok(instruction) => Ok(Invocation { instruction, signer_seeds: Some(signer_seeds) }),
        Err(_) => Err(FlashLoanError::IncorrectProgramId),
    }
}

/// Requests the creation of the token account of `wallet` for `mint`, paid
/// by `payer`.
///
/// Fails with `InvalidAccountData` where no such account can be derived.
pub fn create_ata(payer: &Address, wallet: &Address, mint: &Address, token_program: &Address) -> (request:
    Result<Invocation, FlashLoanError>)
    ensures
        request is Ok <==> spec_token_account_address(*wallet, *token_program, *mint) is Some,
        request matches Err(e) ==> e == FlashLoanError::InvalidAccountData,
        request matches Ok(r) ==> r.instruction.accounts@.len() == 6 && Some(
            r.instruction.accounts@[1].pubkey@,
        ) == spec_token_account_address(*wallet, *token_program, *mint) && r@ == signed(
            create_account_instruction(
                *payer,
                r.instruction.accounts@[1].pubkey,
                *wallet,
                *mint,
                *token_program,
            ),
            None,
        ),
{
    let mut seeds: Vec<Vec<u8>> = Vec::new();
    seeds.push(wallet.to_vec());
    seeds.push(token_program.to_vec());
    seeds.push(mint.to_vec());
    proof {
        crate::address::bytes_deep_view(seeds@[0]);
        crate::address::bytes_deep_view(seeds@[1]);
        crate::address::bytes_deep_view(seeds@[2]);
        assert(seeds.deep_view() =~= token_account_seeds(*wallet, *token_program, *mint));
    }
    let program = Address::new(ASSOCIATED_TOKEN_PROGRAM_ID);
    match find_program_address(&seeds, &program) {
        Some(_) => {
            let instruction = token_create_account(payer, wallet, mint, token_program);
            Ok(Invocation { instruction, signer_seeds: None })
        },
        None => Err(FlashLoanError::InvalidAccountData),
    }
}

/// Requests the transfer of `amount` from `source` to `destination` on the
/// word of `authority`: a derived address where `signer_seeds` holds its
/// seeds, a party that signed the batch where it holds none.
///
/// Fails with `IncorrectProgramId` unless `token_program` is the token
/// program.
pub fn transfer_tokens(
    source: &Address,
    destination: &Address,
    authority: &Address,
    token_program: &Address,
    amount: u64,
    signer_seeds: Option<Vec<Vec<u8>>>,
) -> (request: Result<Invocation, FlashLoanError>)
    ensures
        request is Ok <==> token_program@ == TOKEN_PROGRAM_ID@,
        request matches Err(e) ==> e == FlashLoanError::IncorrectProgramId,
        request matches Ok(r) ==> r@ == signed(
            transfer_instruction(*token_program, *source, *destination, *authority, amount),
            seeds_view(signer_seeds),
        ),
{
    match token_transfer(token_program, source, destination, authority, amount) {
        Ok(instruction) => Ok(Invocation { instruction, signer_seeds }),
        Err(_) => Err(FlashLoanError::IncorrectProgramId),
    }
}

/// Requests the minting of `amount` of `mint` to `destination` on the word
/// of the derived address `mint_authority`, signed with `signer_seeds`.
///
/// Fails with `IncorrectProgramId` unless `token_program` is the token
/// program.
pub fn mint_tokens(
    mint: &Address,
    destination: &Address,
    mint_authority: &Address,
    token_program: &Address,
    amount: u64,
    signer_seeds: Vec<Vec<u8>>,
) -> (request: Result<Invocation, FlashLoanError>)
    ensures
        request is Ok <==> token_program@ == TOKEN_PROGRAM_ID@,
        request matches Err(e) ==> e == FlashLoanError::IncorrectProgramId,
        request matches Ok(r) ==> r@ == signed(
            mint_to_instruction(*token_program, *mint, *destination, *mint_authority, amount),
            Some(signer_seeds.deep_view()),
        ),
{
    match token_mint_to(token_program, mint, destination, mint_authority, amount) {
        Ok(instruction) => Ok(Invocation { instruction, signer_seeds: Some(signer_seeds) }),
        Err(_) => Err(FlashLoanError::IncorrectProgramId),
    }
}

/// Requests the burning of `amount` of `mint` from `account` on the word of
/// `authority`, a party that signed the batch.
///
/// Fails with `IncorrectProgramId` unless `token_program` is the token
/// program.
pub fn burn_tokens(
    account: &Address,
    mint: &Address,
    authority: &Address,
    token_program: &Address,
    amount: u64,
) -> (request: Result<Invocation, FlashLoanError>)
    ensures
        request is Ok <==> token_program@ == TOKEN_PROGRAM_ID@,
        request matches Err(e) ==> e == FlashLoanError::IncorrectProgramId,
        request matches Ok(r) ==> r@ == signed(
            burn_instruction(*token_program, *account, *mint, *authority, amount),
            None,
        ),
{
    match token_burn(token_program, account, mint, authority, amount) {
        Ok(instruction) => Ok(Invocation { instruction, signer_seeds: None }),
        Err(_) => Err(FlashLoanError::IncorrectProgramId),
    }
}

} // verus!
