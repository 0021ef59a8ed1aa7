//! The persisted instance record and its validation checks.
//!
//! `Anker` is the configuration of one deployed wrapper instance: the
//! share-token mint, the identity of the external staking protocol it wraps,
//! and one proof integer (bump seed) per derived address or authority. It is
//! created once at initialization and immutable afterwards. Before any
//! mutation, every operation re-derives the expected addresses from the
//! stored proof integers and compares them byte-for-byte against what the
//! caller supplied; any mismatch aborts the operation.

use vstd::prelude::*;

use crate::address::{
    derived_address, spec_instance_seeds, spec_reserve_account_seeds, spec_reserve_authority_seeds,
    Address,
};
use crate::bytes::{append_bytes, copy_range};
use crate::error::AnkerError;
use crate::token::{Lamports, StLamports};
use crate::token_account::{
    spec_account_amount, spec_account_mint, spec_account_owner, spec_account_parses,
    unpack_token_account, TokenAccount,
};

verus! {

/// Length of a serialized instance record.
pub const ANKER_LEN: usize = 100;

/// The persisted configuration of one wrapper instance.
#[derive(Debug)]
pub struct Anker {
    /// The mint of the share token this instance issues.
    pub b_sol_mint: Address,
    /// The program of the external staking protocol.
    pub solido_program_id: Address,
    /// The instance of the external staking protocol this wraps.
    pub solido: Address,
    /// Proof integer of the instance address.
    pub self_bump_seed: u8,
    /// Proof integer of the mint authority.
    pub mint_authority_bump_seed: u8,
    /// Proof integer of the reserve authority.
    pub reserve_authority_bump_seed: u8,
    /// Proof integer of the reserve account address.
    pub reserve_account_bump_seed: u8,
}

/// A snapshot of the external staking protocol's state, read fresh for every
/// operation: the mint of its staked token, and the ratio of its total
/// staked balance to its issued staked-token supply that prices the peg.
#[derive(Debug)]
pub struct SolidoState {
    /// The mint of the staked base token.
    pub st_sol_mint: Address,
    /// The protocol's total staked base-token balance.
    pub sol_balance: Lamports,
    /// The protocol's total issued staked-token supply.
    pub st_sol_supply: StLamports,
}

impl SolidoState {
    /// A well-formed snapshot holds a 32-byte mint address.
    pub open spec fn wf(&self) -> bool {
        self.st_sol_mint.wf()
    }
}

/// The share-token mint field of record bytes.
pub open spec fn spec_anker_b_sol_mint(d: Seq<u8>) -> Seq<u8> {
    d.subrange(0, 32)
}

/// The staking-protocol program field of record bytes.
pub open spec fn spec_anker_solido_program_id(d: Seq<u8>) -> Seq<u8> {
    d.subrange(32, 64)
}

/// The staking-protocol instance field of record bytes.
pub open spec fn spec_anker_solido(d: Seq<u8>) -> Seq<u8> {
    d.subrange(64, 96)
}

/// Whether `a` holds exactly the fields that the record bytes `d` hold.
pub open spec fn spec_anker_matches(a: Anker, d: Seq<u8>) -> bool {
    &&& d.len() == 100
    &&& a.b_sol_mint@ == spec_anker_b_sol_mint(d)
    &&& a.solido_program_id@ == spec_anker_solido_program_id(d)
    &&& a.solido@ == spec_anker_solido(d)
    &&& a.self_bump_seed == d[96]
    &&& a.mint_authority_bump_seed == d[97]
    &&& a.reserve_authority_bump_seed == d[98]
    &&& a.reserve_account_bump_seed == d[99]
}

impl Anker {
    /// A well-formed record holds three 32-byte addresses.
    pub open spec fn wf(&self) -> bool {
        self.b_sol_mint.wf() && self.solido_program_id.wf() && self.solido.wf()
    }

    /// Decode an instance record, or `None` where the bytes are not one.
    pub fn from_bytes(data: &[u8]) -> (r: Option<Anker>)
        ensures
            r is Some <==> data@.len() == 100,
            r matches Some(a) ==> spec_anker_matches(a, data@) && a.wf(),
    {
        if data.len() != ANKER_LEN {
            return None;
        }
        let b_sol_mint = Address::new(copy_range(data, 0, 32));
        let solido_program_id = Address::new(copy_range(data, 32, 64));
        let solido = Address::new(copy_range(data, 64, 96));
        Some(
            Anker {
                b_sol_mint,
                solido_program_id,
                solido,
                self_bump_seed: data[96],
                mint_authority_bump_seed: data[97],
                reserve_authority_bump_seed: data[98],
                reserve_account_bump_seed: data[99],
            },
        )
    }

    /// Encode this record; decoding the result yields the same fields.
    pub fn to_bytes(&self) -> (r: Vec<u8>)
        requires
            self.wf(),
        ensures
            spec_anker_matches(*self, r@),
    {
        let mut out: Vec<u8> = Vec::new();
        append_bytes(&mut out, &self.b_sol_mint.bytes);
        append_bytes(&mut out, &self.solido_program_id.bytes);
        append_bytes(&mut out, &self.solido.bytes);
        out.push(self.self_bump_seed);
        out.push(self.mint_authority_bump_seed);
        out.push(self.reserve_authority_bump_seed);
        out.push(self.reserve_account_bump_seed);
        proof {
            assert(out@.subrange(0, 32) =~= self.b_sol_mint@);
            assert(out@.subrange(32, 64) =~= self.solido_program_id@);
            assert(out@.subrange(64, 96) =~= self.solido@);
        }
        out
    }

    /// Check that the supplied mint is the share-token mint of this
    /// instance.
    pub fn check_mint(&self, provided_mint: &Address) -> (r: Result<(), AnkerError>)
        ensures
            r is Ok <==> self.b_sol_mint@ == provided_mint@,
            r is Err ==> r == Err::<(), AnkerError>(AnkerError::InvalidTokenMint),
    {
        if self.b_sol_mint.equals(provided_mint) {
            Ok(())
        } else {
            Err(AnkerError::InvalidTokenMint)
        }
    }

    /// Re-derive the instance address from the stored proof integer and
    /// check the supplied address against it.
    pub fn check_self_address(&self, program_id: &Address, provided: &Address) -> (r: Result<
        (),
        AnkerError,
    >)
        requires
            self.wf(),
            program_id.wf(),
        ensures
            match derived_address(
                spec_instance_seeds(self.solido@, self.self_bump_seed),
                program_id@,
            ) {
                Some(a) => (r is Ok <==> a == provided@) && (r is Err ==> r == Err::<
                    (),
                    AnkerError,
                >(AnkerError::InvalidDerivedAccount)),
                None => r == Err::<(), AnkerError>(AnkerError::InvalidSeeds),
            },
    {
        match crate::address::derive_instance_address(
            program_id,
            &self.solido,
            self.self_bump_seed,
        ) {
            None => Err(AnkerError::InvalidSeeds),
            Some(a) => {
                if a.equals(provided) {
                    Ok(())
                } else {
                    Err(AnkerError::InvalidDerivedAccount)
                }
            },
        }
    }

    /// Re-derive the reserve account address from the stored proof integer
    /// and check the supplied address against it.
    pub fn check_reserve_address(
        &self,
        program_id: &Address,
        anker_address: &Address,
        provided: &Address,
    ) -> (r: Result<(), AnkerError>)
        requires
            program_id.wf(),
            anker_address.wf(),
        ensures
            match derived_address(
                spec_reserve_account_seeds(anker_address@, self.reserve_account_bump_seed),
                program_id@,
            ) {
                Some(a) => (r is Ok <==> a == provided@) && (r is Err ==> r == Err::<
                    (),
                    AnkerError,
                >(AnkerError::InvalidReserveAccount)),
                None => r == Err::<(), AnkerError>(AnkerError::InvalidSeeds),
            },
    {
        match crate::address::derive_reserve_account(
            program_id,
            anker_address,
            self.reserve_account_bump_seed,
        ) {
            None => Err(AnkerError::InvalidSeeds),
            Some(a) => {
                if a.equals(provided) {
                    Ok(())
                } else {
                    Err(AnkerError::InvalidReserveAccount)
                }
            },
        }
    }

    /// Re-derive the reserve authority from the stored proof integer and
    /// check the supplied address against it.
    pub fn check_reserve_authority(
        &self,
        program_id: &Address,
        anker_address: &Address,
        provided: &Address,
    ) -> (r: Result<(), AnkerError>)
        requires
            program_id.wf(),
            anker_address.wf(),
        ensures
            match derived_address(
                spec_reserve_authority_seeds(anker_address@, self.reserve_authority_bump_seed),
                program_id@,
            ) {
                Some(a) => (r is Ok <==> a == provided@) && (r is Err ==> r == Err::<
                    (),
                    AnkerError,
                >(AnkerError::InvalidDerivedAccount)),
                None => r == Err::<(), AnkerError>(AnkerError::InvalidSeeds),
            },
    {
        match crate::address::derive_reserve_authority(
            program_id,
            anker_address,
            self.reserve_authority_bump_seed,
        ) {
            None => Err(AnkerError::InvalidSeeds),
            Some(a) => {
                if a.equals(provided) {
                    Ok(())
                } else {
                    Err(AnkerError::InvalidDerivedAccount)
                }
            },
        }
    }

    /// Check that a token account holds the external protocol's staked
    /// token: its record must parse and its mint must be the staked-token
    /// mint. Returns the parsed record for further use.
    pub fn check_is_st_sol_account(&self, solido: &SolidoState, account_data: &[u8]) -> (r: Result<
        TokenAccount,
        AnkerError,
    >)
        ensures
            !spec_account_parses(account_data@) ==> r == Err::<TokenAccount, AnkerError>(
                AnkerError::InvalidReserveAccount,
            ),
            spec_account_parses(account_data@) && spec_account_mint(account_data@)
                != solido.st_sol_mint@ ==> r == Err::<TokenAccount, AnkerError>(
                AnkerError::InvalidTokenMint,
            ),
            spec_account_parses(account_data@) && spec_account_mint(account_data@)
                == solido.st_sol_mint@ ==> (r matches Ok(acc) && acc.mint@ == spec_account_mint(
                account_data@,
            ) && acc.owner@ == spec_account_owner(account_data@) && acc.amount
                == spec_account_amount(account_data@)),
    {
        let account = match unpack_token_account(account_data) {
            Some(account) => account,
            None => {
                return Err(AnkerError::InvalidReserveAccount);
            },
        };
        if account.mint.equals(&solido.st_sol_mint) {
            Ok(account)
        } else {
            Err(AnkerError::InvalidTokenMint)
        }
    }
}

} // verus!
