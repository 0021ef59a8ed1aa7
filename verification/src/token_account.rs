//! Reading external token-service records: a mint and a token account.
//!
//! The protocol reads two record types of the external token service: the
//! share-token mint (for its authority and its supply) and a token account
//! (for its mint and its balance). The unpacking itself is the token
//! service's own code behind a trusted wrapper; the byte layout it promises
//! is written out here, so every field of the plain result is pinned to the
//! record's bytes.

use solana_program::program_pack::Pack;
use vstd::prelude::*;

use crate::address::Address;
use crate::bytes::spec_u64_from_le;

verus! {

/// Length of a packed mint record.
pub const MINT_LEN: usize = 82;

/// Length of a packed token-account record.
pub const TOKEN_ACCOUNT_LEN: usize = 165;

/// What the protocol reads from a mint record.
#[derive(Debug)]
pub struct TokenMint {
    /// The authority allowed to mint, if any.
    pub mint_authority: Option<Address>,
    /// The total issued supply.
    pub supply: u64,
}

/// What the protocol reads from a token-account record.
#[derive(Debug)]
pub struct TokenAccount {
    /// The mint this account holds tokens of.
    pub mint: Address,
    /// The owner of the account.
    pub owner: Address,
    /// The token balance.
    pub amount: u64,
}

/// A 4-byte optional-field tag at `off`: 0 for absent, 1 for present,
/// anything else malformed.
pub open spec fn spec_coption_tag_valid(d: Seq<u8>, off: int) -> bool {
    (d[off] == 0 || d[off] == 1) && d[off + 1] == 0 && d[off + 2] == 0 && d[off + 3] == 0
}

/// Whether the bytes are a well-formed mint record: a 36-byte optional mint
/// authority, an 8-byte supply, a decimals byte, an is-initialized byte that
/// must be 0 or 1, and a 36-byte optional freeze authority.
pub open spec fn spec_mint_parses(d: Seq<u8>) -> bool {
    &&& d.len() >= 82
    &&& spec_coption_tag_valid(d, 0)
    &&& d[45] == 0 || d[45] == 1
    &&& spec_coption_tag_valid(d, 46)
}

/// The supply field of a mint record.
pub open spec fn spec_mint_supply(d: Seq<u8>) -> int {
    spec_u64_from_le(d.subrange(36, 44))
}

/// The mint-authority field of a mint record.
pub open spec fn spec_mint_authority(d: Seq<u8>) -> Option<Seq<u8>> {
    if d[0] == 1 {
        Some(d.subrange(4, 36))
    } else {
        None
    }
}

/// Whether the bytes are a well-formed token-account record: mint, owner,
/// amount, an optional delegate, a state byte that must be 0, 1 or 2, an
/// optional native marker, a delegated amount, and an optional close
/// authority.
pub open spec fn spec_account_parses(d: Seq<u8>) -> bool {
    &&& d.len() >= 165
    &&& spec_coption_tag_valid(d, 72)
    &&& d[108] == 0 || d[108] == 1 || d[108] == 2
    &&& spec_coption_tag_valid(d, 109)
    &&& spec_coption_tag_valid(d, 129)
}

/// The mint field of a token-account record.
pub open spec fn spec_account_mint(d: Seq<u8>) -> Seq<u8> {
    d.subrange(0, 32)
}

/// The owner field of a token-account record.
pub open spec fn spec_account_owner(d: Seq<u8>) -> Seq<u8> {
    d.subrange(32, 64)
}

/// The amount field of a token-account record.
pub open spec fn spec_account_amount(d: Seq<u8>) -> int {
    spec_u64_from_le(d.subrange(64, 72))
}

/// Relies on spl_token::state::Mint::unpack_from_slice: a mint record is 82
/// bytes long, laid out as a 36-byte optional authority (a 4-byte tag of 0
/// or 1 and 32 key bytes), a little-endian 64-bit supply, one decimals byte,
/// one is-initialized byte that must be 0 or 1, and a 36-byte optional
/// freeze authority; unpacking fails exactly where a tag byte is out of
/// range.
#[verifier::external_body]
fn spl_unpack_mint(data: &[u8]) -> (r: Option<TokenMint>)
    requires
        data@.len() >= 82,
    ensures
        r is Some <==> spec_mint_parses(data@),
        r matches Some(m) ==> {
            &&& m.supply == spec_mint_supply(data@)
            &&& (m.mint_authority is Some <==> spec_mint_authority(data@) is Some)
            &&& m.mint_authority matches Some(a) ==> Some(a@) == spec_mint_authority(data@)
        },
{
    let mint = spl_token::state::Mint::unpack_from_slice(data).ok()?;
    let mint_authority = match mint.mint_authority {
        solana_program::program_option::COption::Some(key) => Some(
            Address { bytes: key.to_bytes().to_vec() },
        ),
        solana_program::program_option::COption::None => None,
    };
    Some(TokenMint { mint_authority, supply: mint.supply })
}

/// Relies on spl_token::state::Account::unpack_from_slice: a token-account
/// record is 165 bytes long, laid out as a 32-byte mint, a 32-byte owner, a
/// little-endian 64-bit amount, a 36-byte optional delegate, one state byte
/// that must be 0, 1 or 2, a 12-byte optional native marker, a little-endian
/// 64-bit delegated amount, and a 36-byte optional close authority;
/// unpacking fails exactly where a tag or the state byte is out of range.
#[verifier::external_body]
fn spl_unpack_account(data: &[u8]) -> (r: Option<TokenAccount>)
    requires
        data@.len() >= 165,
    ensures
        r is Some <==> spec_account_parses(data@),
        r matches Some(a) ==> {
            &&& a.mint@ == spec_account_mint(data@)
            &&& a.owner@ == spec_account_owner(data@)
            &&& a.amount == spec_account_amount(data@)
        },
{
    let account = spl_token::state::Account::unpack_from_slice(data).ok()?;
    Some(
        TokenAccount {
            mint: Address { bytes: account.mint.to_bytes().to_vec() },
            owner: Address { bytes: account.owner.to_bytes().to_vec() },
            amount: account.amount,
        },
    )
}

/// Read a mint record, or `None` where the bytes are not one.
pub fn unpack_mint(data: &[u8]) -> (r: Option<TokenMint>)
    ensures
        r is Some <==> spec_mint_parses(data@),
        r matches Some(m) ==> {
            &&& m.supply == spec_mint_supply(data@)
            &&& (m.mint_authority is Some <==> spec_mint_authority(data@) is Some)
            &&& m.mint_authority matches Some(a) ==> Some(a@) == spec_mint_authority(data@)
            &&& m.mint_authority matches Some(a) ==> a.wf()
        },
{
    if data.len() < MINT_LEN {
        return None;
    }
    spl_unpack_mint(data)
}

/// Read a token-account record, or `None` where the bytes are not one.
pub fn unpack_token_account(data: &[u8]) -> (r: Option<TokenAccount>)
    ensures
        r is Some <==> spec_account_parses(data@),
        r matches Some(a) ==> {
            &&& a.mint@ == spec_account_mint(data@)
            &&& a.owner@ == spec_account_owner(data@)
            &&& a.amount == spec_account_amount(data@)
            &&& a.mint.wf()
            &&& a.owner.wf()
        },
{
    if data.len() < TOKEN_ACCOUNT_LEN {
        return None;
    }
    spl_unpack_account(data)
}

} // verus!
