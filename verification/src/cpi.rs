//! Requests to the token programs.
//!
//! The pool never moves a balance itself. It hands its host the requests to
//! make of the token program, each with the seeds of the derived address
//! that signs it, where one does. This file holds the form of such a request
//! and what the token crates build for each kind of it.
use vstd::prelude::*;
use vstd::bytes::spec_u64_to_le_bytes;
use crate::address::{
    program_address, Address, ASSOCIATED_TOKEN_PROGRAM_ID, RENT_SYSVAR_ID, SYSTEM_PROGRAM_ID,
    TOKEN_PROGRAM_ID,
};
use crate::codec::spec_read_u64;

verus! {

/// The failure type of the token crates. Nothing is read from it: every
/// failure of theirs is reported under one of the pool's own kinds.
#[verifier::external_type_specification]
#[verifier::external_body]
pub struct ExProgramError(spl_token::solana_program::program_error::ProgramError);

/// An account named by a request, with what the request may do to it.
#[derive(Clone, Copy, Debug, PartialEq, Eq)]
pub struct AccountMeta {
    pub pubkey: Address,
    pub is_signer: bool,
    pub is_writable: bool,
}

/// A request to a program.
#[derive(Clone, Debug, PartialEq, Eq)]
pub struct Instruction {
    pub program_id: Address,
    pub accounts: Vec<AccountMeta>,
    pub data: Vec<u8>,
}

/// A request to a program, as a mathematical value.
pub struct InstructionView {
    pub program_id: Address,
    pub accounts: Seq<AccountMeta>,
    pub data: Seq<u8>,
}

impl View for Instruction {
    type V = InstructionView;

    open spec fn view(&self) -> InstructionView {
        InstructionView { program_id: self.program_id, accounts: self.accounts@, data: self.data@ }
    }
}

/// A request for the host to make, signed by a derived address where
/// `signer_seeds` holds its seeds.
#[derive(Clone, Debug, PartialEq, Eq)]
pub struct Invocation {
    pub instruction: Instruction,
    pub signer_seeds: Option<Vec<Vec<u8>>>,
}

/// A request for the host to make, as a mathematical value.
pub struct InvocationView {
    pub instruction: InstructionView,
    pub signer_seeds: Option<Seq<Seq<u8>>>,
}

impl View for Invocation {
    type V = InvocationView;

    open spec fn view(&self) -> InvocationView {
        InvocationView {
            instruction: self.instruction@,
            signer_seeds: match self.signer_seeds {
                Some(seeds) => Some(seeds.deep_view()),
                None => None,
            },
        }
    }
}

/// The requests in `list`, as mathematical values.
pub open spec fn invocation_views(list: Seq<Invocation>) -> Seq<InvocationView> {
    list.map_values(|i: Invocation| i@)
}

/// An account that the request may change.
pub open spec fn writable(pubkey: Address) -> AccountMeta {
    AccountMeta { pubkey, is_signer: false, is_writable: true }
}

/// An account that the request only reads.
pub open spec fn readonly(pubkey: Address) -> AccountMeta {
    AccountMeta { pubkey, is_signer: false, is_writable: false }
}

/// An account that signs the request and is not changed by it.
pub open spec fn signing(pubkey: Address) -> AccountMeta {
    AccountMeta { pubkey, is_signer: true, is_writable: false }
}

/// The request to move `amount` from `source` to `destination` on the word
/// of `authority`.
pub open spec fn transfer_instruction(
    token_program: Address,
    source: Address,
    destination: Address,
    authority: Address,
    amount: u64,
) -> InstructionView {
    InstructionView {
        program_id: token_program,
        accounts: seq![writable(source), writable(destination), signing(authority)],
        data: seq![3u8] + spec_u64_to_le_bytes(amount),
    }
}

/// The request to mint `amount` of `mint` to `destination` on the word of
/// `mint_authority`.
pub open spec fn mint_to_instruction(
    token_program: Address,
    mint: Address,
    destination: Address,
    mint_authority: Address,
    amount: u64,
) -> InstructionView {
    InstructionView {
        program_id: token_program,
        accounts: seq![writable(mint), writable(destination), signing(mint_authority)],
        data: seq![7u8] + spec_u64_to_le_bytes(amount),
    }
}

/// The request to burn `amount` of `mint` from `account` on the word of
/// `authority`.
pub open spec fn burn_instruction(
    token_program: Address,
    account: Address,
    mint: Address,
    authority: Address,
    amount: u64,
) -> InstructionView {
    InstructionView {
        program_id: token_program,
        accounts: seq![writable(account), writable(mint), signing(authority)],
        data: seq![8u8] + spec_u64_to_le_bytes(amount),
    }
}

/// The request to make `mint` a mint with `decimals` decimals, minted on the
/// word of `mint_authority` and frozen by nobody.
pub open spec fn initialize_mint_instruction(
    token_program: Address,
    mint: Address,
    mint_authority: Address,
    decimals: u8,
) -> InstructionView {
    InstructionView {
        program_id: token_program,
        accounts: seq![writable(mint), readonly(Address { bytes: RENT_SYSVAR_ID })],
        data: seq![0u8, decimals] + mint_authority@ + seq![0u8],
    }
}

/// The seeds of the token account of `wallet` for `mint` under
/// `token_program`.
pub open spec fn token_account_seeds(wallet: Address, token_program: Address, mint: Address) -> Seq<
    Seq<u8>,
> {
    seq![wallet@, token_program@, mint@]
}

/// The token account of `wallet` for `mint` under `token_program`: the
/// address found for the three under the associated-token-account program.
pub open spec fn spec_token_account_address(
    wallet: Address,
    token_program: Address,
    mint: Address,
) -> Option<Seq<u8>> {
    match program_address(
        token_account_seeds(wallet, token_program, mint),
        ASSOCIATED_TOKEN_PROGRAM_ID@,
    ) {
        Some((address, _)) => Some(address),
        None => None,
    }
}

/// The request, paid by `payer`, to create the token account `account` of
/// `wallet` for `mint`.
pub open spec fn create_account_instruction(
    payer: Address,
    account: Address,
    wallet: Address,
    mint: Address,
    token_program: Address,
) -> InstructionView {
    InstructionView {
        program_id: Address { bytes: ASSOCIATED_TOKEN_PROGRAM_ID },
        accounts: seq![
            AccountMeta { pubkey: payer, is_signer: true, is_writable: true },
            writable(account),
            readonly(wallet),
            readonly(mint),
            readonly(Address { bytes: SYSTEM_PROGRAM_ID }),
            readonly(token_program),
        ],
        data: seq![0u8],
    }
}

/// Calls `spl_token::instruction::transfer` with no further signers.
///
/// Trusted: it fails exactly when `token_program` is not the token program,
/// and otherwise builds the request to that program with the source and
/// the destination writable, the authority as signer, and as data the tag 3
/// followed by the amount in little-endian order.
#[verifier::external_body]
pub(crate) fn token_transfer(
    token_program: &Address,
    source: &Address,
    destination: &Address,
    authority: &Address,
    amount: u64,
) -> (built: Result<Instruction, spl_token::solana_program::program_error::ProgramError>)
    ensures
        built is Ok <==> token_program@ == TOKEN_PROGRAM_ID@,
        built matches Ok(ix) ==> ix@ == transfer_instruction(
            *token_program,
            *source,
            *destination,
            *authority,
            amount,
        ),
{
    let key = |a: &Address| spl_token::solana_program::pubkey::Pubkey::new_from_array(a.bytes);
    let ix = spl_token::instruction::transfer(
        &key(token_program), &key(source), &key(destination), &key(authority), &[], amount,
    )?;
    Ok(Instruction {
        program_id: Address { bytes: ix.program_id.to_bytes() },
        accounts: ix.accounts.iter().map(|m| AccountMeta {
            pubkey: Address { bytes: m.pubkey.to_bytes() },
            is_signer: m.is_signer,
            is_writable: m.is_writable,
        }).collect(),
        data: ix.data,
    })
}

/// Calls `spl_token::instruction::mint_to` with no further signers.
///
/// Trusted: it fails exactly when `token_program` is not the token program,
/// and otherwise builds the request to that program with the mint and the
/// destination writable, the mint authority as signer, and as data the tag 7
/// followed by the amount in little-endian order.
#[verifier::external_body]
pub(crate) fn token_mint_to(
    token_program: &Address,
    mint: &Address,
    destination: &Address,
    mint_authority: &Address,
    amount: u64,
) -> (built: Result<Instruction, spl_token::solana_program::program_error::ProgramError>)
    ensures
        built is Ok <==> token_program@ == TOKEN_PROGRAM_ID@,
        built matches Ok(ix) ==> ix@ == mint_to_instruction(
            *token_program,
            *mint,
            *destination,
            *mint_authority,
            amount,
        ),
{
    let key = |a: &Address| spl_token::solana_program::pubkey::Pubkey::new_from_array(a.bytes);
    let ix = spl_token::instruction::mint_to(
        &key(token_program), &key(mint), &key(destination), &key(mint_authority), &[], amount,
    )?;
    Ok(Instruction {
        program_id: Address { bytes: ix.program_id.to_bytes() },
        accounts: ix.accounts.iter().map(|m| AccountMeta {
            pubkey: Address { bytes: m.pubkey.to_bytes() },
            is_signer: m.is_signer,
            is_writable: m.is_writable,
        }).collect(),
        data: ix.data,
    })
}

/// Calls `spl_token::instruction::burn` with no further signers.
///
/// Trusted: it fails exactly when `token_program` is not the token program,
/// and otherwise builds the request to that program with the account and
/// the mint writable, the authority as signer, and as data the tag 8
/// followed by the amount in little-endian order.
#[verifier::external_body]
pub(crate) fn token_burn(
    token_program: &Address,
    account: &Address,
    mint: &Address,
    authority: &Address,
    amount: u64,
) -> (built: Result<Instruction, spl_token::solana_program::program_error::ProgramError>)
    ensures
        built is Ok <==> token_program@ == TOKEN_PROGRAM_ID@,
        built matches Ok(ix) ==> ix@ == burn_instruction(
            *token_program,
            *account,
            *mint,
            *authority,
            amount,
        ),
{
    let key = |a: &Address| spl_token::solana_program::pubkey::Pubkey::new_from_array(a.bytes);
    let ix = spl_token::instruction::burn(
        &key(token_program), &key(account), &key(mint), &key(authority), &[], amount,
    )?;
    Ok(Instruction {
        program_id: Address { bytes: ix.program_id.to_bytes() },
        accounts: ix.accounts.iter().map(|m| AccountMeta {
            pubkey: Address { bytes: m.pubkey.to_bytes() },
            is_signer: m.is_signer,
            is_writable: m.is_writable,
        }).collect(),
        data: ix.data,
    })
}

/// Calls `spl_token::instruction::initialize_mint` without a freeze
/// authority.
///
/// Trusted: it fails exactly when `token_program` is not the token program,
/// and otherwise builds the request to that program with the mint writable
/// and the rent sysvar read, and as data the tag 0, the decimals, the mint
/// authority's 32 bytes and a 0 for the absent freeze authority.
#[verifier::external_body]
pub(crate) fn token_initialize_mint(
    token_program: &Address,
    mint: &Address,
    mint_authority: &Address,
    decimals: u8,
) -> (built: Result<Instruction, spl_token::solana_program::program_error::ProgramError>)
    ensures
        built is Ok <==> token_program@ == TOKEN_PROGRAM_ID@,
        built matches Ok(ix) ==> ix@ == initialize_mint_instruction(
            *token_program,
            *mint,
            *mint_authority,
            decimals,
        ),
{
    let key = |a: &Address| spl_token::solana_program::pubkey::Pubkey::new_from_array(a.bytes);
    let ix = spl_token::instruction::initialize_mint(
        &key(token_program), &key(mint), &key(mint_authority), None, decimals,
    )?;
    Ok(Instruction {
        program_id: Address { bytes: ix.program_id.to_bytes() },
        accounts: ix.accounts.iter().map(|m| AccountMeta {
            pubkey: Address { bytes: m.pubkey.to_bytes() },
            is_signer: m.is_signer,
            is_writable: m.is_writable,
        }).collect(),
        data: ix.data,
    })
}

/// Calls
/// `spl_associated_token_account::instruction::create_associated_token_account`.
///
/// Trusted: it builds the request to the associated-token-account program
/// with the payer as writable signer, the derived token account writable,
/// then the wallet, the mint, the system program and the token program
/// read, and the single data byte 0. The token account is the address found
/// for the wallet, the token program and the mint under the
/// associated-token-account program; the outside function panics where none
/// is found, which the precondition leaves out.
#[verifier::external_body]
pub(crate) fn token_create_account(
    payer: &Address,
    wallet: &Address,
    mint: &Address,
    token_program: &Address,
) -> (built: Instruction)
    requires
        spec_token_account_address(*wallet, *token_program, *mint) is Some,
    ensures
        built.accounts@.len() == 6,
        Some(built.accounts@[1].pubkey@) == spec_token_account_address(
            *wallet,
            *token_program,
            *mint,
        ),
        built@ == create_account_instruction(
            *payer,
            built.accounts@[1].pubkey,
            *wallet,
            *mint,
            *token_program,
        ),
{
    let key = |a: &Address| spl_token::solana_program::pubkey::Pubkey::new_from_array(a.bytes);
    let ix = spl_associated_token_account::instruction::create_associated_token_account(
        &key(payer), &key(wallet), &key(mint), &key(token_program),
    );
    Instruction {
        program_id: Address { bytes: ix.program_id.to_bytes() },
        accounts: ix.accounts.iter().map(|m| AccountMeta {
            pubkey: Address { bytes: m.pubkey.to_bytes() },
            is_signer: m.is_signer,
            is_writable: m.is_writable,
        }).collect(),
        data: ix.data,
    }
}

/// What a token account holds of interest to the pool.
#[derive(Clone, Copy, Debug, PartialEq, Eq)]
pub struct TokenHolding {
    /// The asset the account is denominated in.
    pub mint: Address,
    /// Who owns the account.
    pub owner: Address,
    /// Units of the asset in the account.
    pub amount: u64,
}

/// Bytes in a token account.
pub const TOKEN_ACCOUNT_LEN: usize = 165;

/// Whether the four bytes at `at` tag an optional field: 0 or 1 in
/// little-endian order.
pub open spec fn is_option_tag(data: Seq<u8>, at: int) -> bool {
    data[at] <= 1 && data[at + 1] == 0 && data[at + 2] == 0 && data[at + 3] == 0
}

/// Whether `data` is a token account in use: of the right length, with
/// sound tags on its three optional fields, and in the state initialized (1)
/// or frozen (2).
pub open spec fn is_token_account(data: Seq<u8>) -> bool {
    &&& data.len() == TOKEN_ACCOUNT_LEN
    &&& is_option_tag(data, 72)
    &&& (data[108] == 1 || data[108] == 2)
    &&& is_option_tag(data, 109)
    &&& is_option_tag(data, 129)
}

impl TokenHolding {
    /// Whether this is what the token account `data` holds.
    pub open spec fn stored_in(self, data: Seq<u8>) -> bool {
        &&& self.mint@ == data.subrange(0, 32)
        &&& self.owner@ == data.subrange(32, 64)
        &&& self.amount == spec_read_u64(data, 64)
    }
}

/// Calls `spl_token::state::Account::unpack`.
///
/// Trusted: it succeeds exactly on 165 bytes whose optional fields (the
/// delegate at 72, the native reserve at 109, the close authority at 129)
/// carry the tag 0 or 1 and whose state byte at 108 is 1 or 2; the mint is
/// then the first 32 bytes, the owner the next 32, and the amount the eight
/// bytes after them in little-endian order.
#[verifier::external_body]
pub(crate) fn unpack_token_account(data: &[u8]) -> (read: Result<
    TokenHolding,
    spl_token::solana_program::program_error::ProgramError,
>)
    ensures
        read is Ok <==> is_token_account(data@),
        read matches Ok(holding) ==> holding.stored_in(data@),
{
    let account = <spl_token::state::Account as spl_token::solana_program::program_pack::Pack>::unpack(data)?;
    Ok(TokenHolding {
        mint: Address { bytes: account.mint.to_bytes() },
        owner: Address { bytes: account.owner.to_bytes() },
        amount: account.amount,
    })
}

} // verus!
