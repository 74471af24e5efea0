//! Account addresses and the derived-authority scheme.
//!
//! The pool signs for its vault and its share mint through addresses that
//! are derived from a namespace tag and the pool identifier. No private key
//! exists for such an address: whoever can recompute it under the engine's
//! own program identifier is entitled to sign for it.
use vstd::prelude::*;
use crate::error::FlashLoanError;

verus! {

/// Address under which the pool engine is deployed.
pub const ID: [u8; 32] = [
    203, 48, 232, 118, 197, 131, 1, 227, 87, 107, 167, 66, 181, 250, 36, 181,
    57, 189, 76, 185, 166, 87, 250, 198, 151, 26, 144, 249, 153, 144, 163, 241,
];

/// Address of the token program.
pub const TOKEN_PROGRAM_ID: [u8; 32] = [
    6, 221, 246, 225, 215, 101, 161, 147, 217, 203, 225, 70, 206, 235, 121, 172,
    28, 180, 133, 237, 95, 91, 55, 145, 58, 140, 245, 133, 126, 255, 0, 169,
];

/// Address of the associated-token-account program.
pub const ASSOCIATED_TOKEN_PROGRAM_ID: [u8; 32] = [
    140, 151, 37, 143, 78, 36, 137, 241, 187, 61, 16, 41, 20, 142, 13, 131,
    11, 90, 19, 153, 218, 255, 16, 132, 4, 142, 123, 216, 219, 233, 248, 89,
];

/// Address of the rent sysvar.
pub const RENT_SYSVAR_ID: [u8; 32] = [
    6, 167, 213, 23, 25, 44, 92, 81, 33, 140, 201, 76, 61, 74, 241, 127,
    88, 218, 238, 8, 155, 161, 253, 68, 227, 219, 217, 138, 0, 0, 0, 0,
];

/// Address of the system program.
pub const SYSTEM_PROGRAM_ID: [u8; 32] = [
    0, 0, 0, 0, 0, 0, 0, 0, 0, 0, 0, 0, 0, 0, 0, 0,
    0, 0, 0, 0, 0, 0, 0, 0, 0, 0, 0, 0, 0, 0, 0, 0,
];

/// Namespace tag of the vault's control address: the bytes of `vault`.
pub const VAULT_SEED: [u8; 5] = [118, 97, 117, 108, 116];

/// Namespace tag of the share mint's control address: the bytes of `lp_mint`.
pub const LP_MINT_SEED: [u8; 7] = [108, 112, 95, 109, 105, 110, 116];

/// The identity of an account: 32 bytes.
#[derive(Clone, Copy, Debug, PartialEq, Eq, Hash)]
pub struct Address {
    pub bytes: [u8; 32],
}

impl View for Address {
    type V = Seq<u8>;

    open spec fn view(&self) -> Seq<u8> {
        self.bytes@
    }
}

impl Address {
    /// Wraps 32 bytes as an address.
    pub fn new(bytes: [u8; 32]) -> (a: Address)
        ensures
            a.bytes == bytes,
            a@ == bytes@,
    {
        Address { bytes }
    }

    /// Reads the address that starts at byte `at` of `data`.
    pub fn from_slice(data: &[u8], at: usize) -> (a: Address)
        requires
            at + 32 <= data.len(),
        ensures
            a@ == data@.subrange(at as int, at + 32),
    {
        let mut bytes = [0u8; 32];
        let mut i: usize = 0;
        while i < 32
            invariant
                i <= 32,
                at + 32 <= data.len(),
                forall|j: int| 0 <= j < i ==> bytes@[j] == data@[at + j],
            decreases 32 - i,
        {
            bytes[i] = data[at + i];
            i += 1;
        }
        assert(bytes@ =~= data@.subrange(at as int, at + 32));
        Address { bytes }
    }

    /// The 32 bytes as a vector.
    pub fn to_vec(&self) -> (v: Vec<u8>)
        ensures
            v@ == self@,
    {
        let mut v: Vec<u8> = Vec::new();
        let mut i: usize = 0;
        while i < 32
            invariant
                i <= 32,
                v@.len() == i,
                forall|j: int| 0 <= j < i ==> v@[j] == self.bytes@[j],
            decreases 32 - i,
        {
            v.push(self.bytes[i]);
            i += 1;
        }
        assert(v@ =~= self.bytes@);
        v
    }

    /// Appends the 32 bytes to `out`.
    pub fn write_to(&self, out: &mut Vec<u8>)
        ensures
            final(out)@ == old(out)@ + self@,
    {
        let ghost before = out@;
        let mut i: usize = 0;
        while i < 32
            invariant
                i <= 32,
                out@ == before + self.bytes@.subrange(0, i as int),
            decreases 32 - i,
        {
            out.push(self.bytes[i]);
            assert(self.bytes@.subrange(0, i + 1) =~= self.bytes@.subrange(0, i as int).push(
                self.bytes@[i as int],
            ));
            i += 1;
        }
        assert(self.bytes@.subrange(0, 32) =~= self.bytes@);
    }

    /// Whether both addresses hold the same bytes.
    pub fn same_as(&self, other: &Address) -> (same: bool)
        ensures
            same == (self@ == other@),
            same == (*self == *other),
    {
        let mut i: usize = 0;
        while i < 32
            invariant
                i <= 32,
                forall|j: int| 0 <= j < i ==> self.bytes@[j] == other.bytes@[j],
            decreases 32 - i,
        {
            if self.bytes[i] != other.bytes[i] {
                return false;
            }
            i += 1;
        }
        assert(self.bytes@ =~= other.bytes@);
        assert(self.bytes =~= other.bytes);
        true
    }
}

/// Two addresses with the same bytes are the same address.
pub proof fn address_ext(a: Address, b: Address)
    requires
        a@ == b@,
    ensures
        a == b,
{
    assert(a.bytes =~= b.bytes);
}

/// The deep view of a byte vector is its view.
pub proof fn bytes_deep_view(v: Vec<u8>)
    ensures
        v.deep_view() == v@,
{
    assert(v.deep_view() =~= v@);
}

/// What `Pubkey::try_find_program_address` returns for `seeds` under
/// `program_id`: the derived address and the salt that gave it, or nothing
/// where no salt gives one.
pub uninterp spec fn program_address(seeds: Seq<Seq<u8>>, program_id: Seq<u8>) -> Option<(Seq<u8>, u8)>;

/// Calls `solana_program::pubkey::Pubkey::try_find_program_address`.
///
/// Trusted: the result is the one that function gives for these seeds and
/// this program identifier. It searches the salts from 255 downwards for the
/// first whose hash with the seeds is not a curve point, and depends on
/// nothing but its arguments.
#[verifier::external_body]
pub(crate) fn find_program_address(seeds: &Vec<Vec<u8>>, program_id: &Address) -> (found: Option<(Address, u8)>)
    ensures
        match found {
            Some((address, salt)) => program_address(seeds.deep_view(), program_id@) == Some((address@, salt)),
            None => program_address(seeds.deep_view(), program_id@) is None,
        },
{
    let parts: Vec<&[u8]> = seeds.iter().map(|seed| seed.as_slice()).collect();
    let id = solana_program::pubkey::Pubkey::new_from_array(program_id.bytes);
    solana_program::pubkey::Pubkey::try_find_program_address(&parts, &id)
        .map(|(key, salt)| (Address { bytes: key.to_bytes() }, salt))
}

/// Seeds of the canonical token account of `wallet` for the asset `mint`.
pub open spec fn associated_token_seeds(wallet: Seq<u8>, mint: Seq<u8>) -> Seq<Seq<u8>> {
    seq![wallet, TOKEN_PROGRAM_ID@, mint]
}

/// The canonical token account of `wallet` for the asset `mint`, where one
/// can be derived.
pub open spec fn spec_associated_token_address(wallet: Seq<u8>, mint: Seq<u8>) -> Option<Seq<u8>> {
    match program_address(associated_token_seeds(wallet, mint), ASSOCIATED_TOKEN_PROGRAM_ID@) {
        Some((address, _)) => Some(address),
        None => None,
    }
}

/// Calls `spl_associated_token_account::get_associated_token_address`.
///
/// Trusted: the result is the address found for the wallet, the token
/// program and the asset under the associated-token-account program. The
/// outside function panics where none is found, which the precondition
/// leaves out.
#[verifier::external_body]
pub(crate) fn associated_token_address(wallet: &Address, mint: &Address) -> (ata: Address)
    requires
        spec_associated_token_address(wallet@, mint@) is Some,
    ensures
        Some(ata@) == spec_associated_token_address(wallet@, mint@),
{
    #[allow(deprecated)]
    let key = spl_associated_token_account::get_associated_token_address(
        &spl_token::solana_program::pubkey::Pubkey::new_from_array(wallet.bytes),
        &spl_token::solana_program::pubkey::Pubkey::new_from_array(mint.bytes),
    );
    Address { bytes: key.to_bytes() }
}

/// Derives the canonical token account of `wallet` for the asset `mint`:
/// the address found for the wallet, the token program and the asset under
/// the associated-token-account program. Returns nothing where no such
/// address is found.
pub fn get_associated_token_address(wallet: &Address, mint: &Address) -> (ata: Option<Address>)
    ensures
        match ata {
            Some(a) => spec_associated_token_address(wallet@, mint@) == Some(a@),
            None => spec_associated_token_address(wallet@, mint@) is None,
        },
{
    let mut seeds: Vec<Vec<u8>> = Vec::new();
    seeds.push(wallet.to_vec());
    seeds.push(Address::new(TOKEN_PROGRAM_ID).to_vec());
    seeds.push(mint.to_vec());
    assert(seeds.deep_view() =~= associated_token_seeds(wallet@, mint@)) by {
        bytes_deep_view(seeds@[0]);
        bytes_deep_view(seeds@[1]);
        bytes_deep_view(seeds@[2]);
    }
    let program = Address::new(ASSOCIATED_TOKEN_PROGRAM_ID);
    match find_program_address(&seeds, &program) {
        Some(_) => Some(associated_token_address(wallet, mint)),
        None => None,
    }
}

/// Whether `actual` is the address that a derivation gave.
pub fn is_derived_address(derived: &Option<Address>, actual: &Address) -> (same: bool)
    ensures
        same == (derived matches Some(d) && d@ == actual@),
{
    match derived {
        Some(d) => d.same_as(actual),
        None => false,
    }
}

/// What a derived control address signs for.
#[derive(Clone, Copy, Debug, PartialEq, Eq, Structural)]
pub enum AuthorityKind {
    /// Outbound transfers from the pool's vault.
    Vault,
    /// Creation of the share mint and minting of shares.
    LpMint,
}

impl AuthorityKind {
    /// The namespace tag of this kind.
    pub open spec fn spec_tag(self) -> Seq<u8> {
        match self {
            AuthorityKind::Vault => VAULT_SEED@,
            AuthorityKind::LpMint => LP_MINT_SEED@,
        }
    }

    /// Returns the namespace tag of this kind.
    pub fn tag(&self) -> (t: Vec<u8>)
        ensures
            t@ == self.spec_tag(),
    {
        match self {
            AuthorityKind::Vault => {
                let t = vec![118u8, 97u8, 117u8, 108u8, 116u8];
                assert(t@ =~= VAULT_SEED@);
                t
            },
            AuthorityKind::LpMint => {
                let t = vec![108u8, 112u8, 95u8, 109u8, 105u8, 110u8, 116u8];
                assert(t@ =~= LP_MINT_SEED@);
                t
            },
        }
    }
}

/// The seeds from which the control address of `kind` for pool `pool_id` is
/// derived: the namespace tag, then the pool identifier.
pub open spec fn authority_seeds(kind: AuthorityKind, pool_id: u8) -> Seq<Seq<u8>> {
    seq![kind.spec_tag(), seq![pool_id]]
}

/// Whether `salt` reproduces `stored` as the control address of `kind` for
/// pool `pool_id` under `program_id`.
pub open spec fn reproduces(
    kind: AuthorityKind,
    program_id: Seq<u8>,
    pool_id: u8,
    salt: u8,
    stored: Seq<u8>,
) -> bool {
    program_address(authority_seeds(kind, pool_id), program_id) == Some((stored, salt))
}

/// Whether a derivation gave exactly the stored address with the given salt.
pub fn authority_matches(derived: &Option<(Address, u8)>, stored: &Address, salt: u8) -> (same: bool)
    ensures
        same == (derived matches Some((a, s)) && a@ == stored@ && s == salt),
{
    match derived {
        Some((a, s)) => a.same_as(stored) && *s == salt,
        None => false,
    }
}

/// The capability to sign for a derived control address.
///
/// A value of this type exists only where the address was recomputed from
/// the pool identifier and the salt, and found equal to the address on
/// record.
pub struct DerivedAuthority {
    kind: AuthorityKind,
    program_id: Address,
    pool_id: u8,
    salt: u8,
    address: Address,
}

impl DerivedAuthority {
    #[verifier::type_invariant]
    closed spec fn recomputed(self) -> bool {
        reproduces(self.kind, self.program_id@, self.pool_id, self.salt, self.address@)
    }

    /// What this capability signs for.
    pub closed spec fn spec_kind(self) -> AuthorityKind {
        self.kind
    }

    /// The pool this capability belongs to.
    pub closed spec fn spec_pool_id(self) -> u8 {
        self.pool_id
    }

    /// The salt that reproduces the control address.
    pub closed spec fn spec_salt(self) -> u8 {
        self.salt
    }

    /// The control address.
    pub closed spec fn spec_address(self) -> Address {
        self.address
    }

    /// The seeds that sign for the control address: the namespace tag, the
    /// pool identifier and the salt.
    pub open spec fn spec_signer_seeds(self) -> Seq<Seq<u8>> {
        signer_seeds_of(self.spec_kind(), self.spec_pool_id(), self.spec_salt())
    }

    /// Recomputes the control address of `kind` for pool `pool_id` and grants
    /// the capability if `salt` reproduces `stored`.
    ///
    /// Fails with `InvalidAuthority` otherwise.
    pub fn recompute(
        kind: AuthorityKind,
        program_id: &Address,
        pool_id: u8,
        salt: u8,
        stored: &Address,
    ) -> (granted: Result<DerivedAuthority, FlashLoanError>)
        ensures
            granted is Ok <==> reproduces(kind, program_id@, pool_id, salt, stored@),
            granted matches Err(e) ==> e == FlashLoanError::InvalidAuthority,
            granted matches Ok(a) ==> a.spec_kind() == kind && a.spec_pool_id() == pool_id
                && a.spec_salt() == salt && a.spec_address() == *stored,
    {
        let mut seeds: Vec<Vec<u8>> = Vec::new();
        seeds.push(kind.tag());
        seeds.push(vec![pool_id]);
        assert(seeds.deep_view() =~= authority_seeds(kind, pool_id)) by {
            bytes_deep_view(seeds@[0]);
            bytes_deep_view(seeds@[1]);
            assert(seeds@[1]@ =~= seq![pool_id]);
        }
        let derived = find_program_address(&seeds, program_id);
        if authority_matches(&derived, stored, salt) {
            Ok(
                DerivedAuthority {
                    kind,
                    program_id: *program_id,
                    pool_id,
                    salt,
                    address: *stored,
                },
            )
        } else {
            Err(FlashLoanError::InvalidAuthority)
        }
    }

    /// Returns the control address.
    pub fn address(&self) -> (a: Address)
        ensures
            a == self.spec_address(),
    {
        self.address
    }

    /// Returns the seeds that sign for the control address.
    pub fn signer_seeds(&self) -> (seeds: Vec<Vec<u8>>)
        ensures
            seeds.deep_view() == self.spec_signer_seeds(),
    {
        let mut seeds: Vec<Vec<u8>> = Vec::new();
        seeds.push(self.kind.tag());
        seeds.push(vec![self.pool_id]);
        seeds.push(vec![self.salt]);
        assert(seeds.deep_view() =~= self.spec_signer_seeds()) by {
            bytes_deep_view(seeds@[0]);
            bytes_deep_view(seeds@[1]);
            bytes_deep_view(seeds@[2]);
            assert(seeds@[1]@ =~= seq![self.pool_id]);
            assert(seeds@[2]@ =~= seq![self.salt]);
        }
        seeds
    }
}

/// The signer seeds of the control address of `kind` for pool `pool_id` with
/// `salt`.
pub open spec fn signer_seeds_of(kind: AuthorityKind, pool_id: u8, salt: u8) -> Seq<Seq<u8>> {
    seq![kind.spec_tag(), seq![pool_id], seq![salt]]
}

} // verus!
