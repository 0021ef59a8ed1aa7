//! The operation state machine.
//!
//! Three externally triggered operations — initialize, deposit, withdraw —
//! each a short sequence of validation, exchange-rate arithmetic and local
//! state computation. An operation never performs a delegated call itself:
//! it either fails, leaving nothing to apply, or returns the exact
//! transfer/mint/burn commands to delegate, already validated. The host
//! applies an operation atomically, so commands are produced only once all
//! validation and arithmetic has succeeded.

use vstd::prelude::*;

use crate::address::{
    derive_mint_authority, derived_address, find_instance_address, find_mint_authority,
    find_reserve_account, find_reserve_authority, spec_found_bump, spec_instance_base_seeds,
    spec_instance_seeds, spec_mint_authority_base_seeds, spec_mint_authority_seeds,
    spec_reserve_account_base_seeds, spec_reserve_account_seeds, spec_reserve_authority_base_seeds,
    spec_reserve_authority_seeds, Address,
};
use crate::bytes::{read_u64_le, spec_u64_from_le};
use crate::error::AnkerError;
use crate::exchange_rate::{spec_convert, ExchangeRate};
use crate::state::{
    spec_anker_b_sol_mint, spec_anker_matches, spec_anker_solido, Anker, SolidoState,
};
use crate::token::{BLamports, StLamports};
use crate::token_account::{
    spec_account_amount, spec_account_mint, spec_account_parses, spec_mint_authority,
    spec_mint_parses, spec_mint_supply, unpack_mint,
};

verus! {

/// The instructions an operation request can decode to.
#[derive(Clone, Copy, Debug, PartialEq, Eq, Structural)]
pub enum AnkerInstruction {
    /// Create and persist one wrapper instance.
    Initialize,
    /// Deposit staked tokens, minting share tokens.
    Deposit { amount: StLamports },
    /// Redeem share tokens for staked tokens.
    Withdraw { amount: BLamports },
    /// Deliberately unimplemented.
    ClaimRewards,
}

/// What instruction bytes decode to: a one-byte tag, then for deposit and
/// withdraw a little-endian 64-bit amount; nothing may trail the encoding.
pub open spec fn spec_parse_instruction(d: Seq<u8>) -> Option<AnkerInstruction> {
    if d.len() == 0 {
        None
    } else if d[0] == 0 {
        if d.len() == 1 {
            Some(AnkerInstruction::Initialize)
        } else {
            None
        }
    } else if d[0] == 1 {
        if d.len() == 9 {
            Some(
                AnkerInstruction::Deposit {
                    amount: StLamports(spec_u64_from_le(d.subrange(1, 9)) as u64),
                },
            )
        } else {
            None
        }
    } else if d[0] == 2 {
        if d.len() == 9 {
            Some(
                AnkerInstruction::Withdraw {
                    amount: BLamports(spec_u64_from_le(d.subrange(1, 9)) as u64),
                },
            )
        } else {
            None
        }
    } else if d[0] == 3 {
        if d.len() == 1 {
            Some(AnkerInstruction::ClaimRewards)
        } else {
            None
        }
    } else {
        None
    }
}

/// Decode instruction bytes.
pub fn parse_instruction(input: &[u8]) -> (r: Result<AnkerInstruction, AnkerError>)
    ensures
        r == match spec_parse_instruction(input@) {
            Some(i) => Ok::<AnkerInstruction, AnkerError>(i),
            None => Err::<AnkerInstruction, AnkerError>(AnkerError::InvalidInstructionData),
        },
{
    if input.len() == 0 {
        return Err(AnkerError::InvalidInstructionData);
    }
    let tag = input[0];
    if tag == 0 && input.len() == 1 {
        Ok(AnkerInstruction::Initialize)
    } else if tag == 1 && input.len() == 9 {
        Ok(AnkerInstruction::Deposit { amount: StLamports(read_u64_le(input, 1)) })
    } else if tag == 2 && input.len() == 9 {
        Ok(AnkerInstruction::Withdraw { amount: BLamports(read_u64_le(input, 1)) })
    } else if tag == 3 && input.len() == 1 {
        Ok(AnkerInstruction::ClaimRewards)
    } else {
        Err(AnkerError::InvalidInstructionData)
    }
}

/// Encode `x` as eight little-endian bytes appended to `out`.
fn write_u64_le(out: &mut Vec<u8>, x: u64)
    ensures
        final(out)@.len() == old(out)@.len() + 8,
        final(out)@.subrange(0, old(out)@.len() as int) == old(out)@,
        spec_u64_from_le(final(out)@.subrange(old(out)@.len() as int, old(out)@.len() as int + 8)) == x,
{
    let b0 = (x % 256) as u8;
    let b1 = ((x / 256) % 256) as u8;
    let b2 = ((x / 65536) % 256) as u8;
    let b3 = ((x / 16777216) % 256) as u8;
    let b4 = ((x / 4294967296) % 256) as u8;
    let b5 = ((x / 1099511627776) % 256) as u8;
    let b6 = ((x / 281474976710656) % 256) as u8;
    let b7 = ((x / 72057594037927936) % 256) as u8;
    out.push(b0);
    out.push(b1);
    out.push(b2);
    out.push(b3);
    out.push(b4);
    out.push(b5);
    out.push(b6);
    out.push(b7);
    proof {
        let xi = x as int;
        vstd::arithmetic::div_mod::lemma_fundamental_div_mod(xi, 256);
        vstd::arithmetic::div_mod::lemma_div_denominator(xi, 256, 256);
        vstd::arithmetic::div_mod::lemma_fundamental_div_mod(xi / 256, 256);
        vstd::arithmetic::div_mod::lemma_div_denominator(xi, 65536, 256);
        vstd::arithmetic::div_mod::lemma_fundamental_div_mod(xi / 65536, 256);
        vstd::arithmetic::div_mod::lemma_div_denominator(xi, 16777216, 256);
        vstd::arithmetic::div_mod::lemma_fundamental_div_mod(xi / 16777216, 256);
        vstd::arithmetic::div_mod::lemma_div_denominator(xi, 4294967296, 256);
        vstd::arithmetic::div_mod::lemma_fundamental_div_mod(xi / 4294967296, 256);
        vstd::arithmetic::div_mod::lemma_div_denominator(xi, 1099511627776, 256);
        vstd::arithmetic::div_mod::lemma_fundamental_div_mod(xi / 1099511627776, 256);
        vstd::arithmetic::div_mod::lemma_div_denominator(xi, 281474976710656, 256);
        vstd::arithmetic::div_mod::lemma_fundamental_div_mod(xi / 281474976710656, 256);
        vstd::arithmetic::div_mod::lemma_div_denominator(xi, 72057594037927936, 256);
        vstd::arithmetic::div_mod::lemma_fundamental_div_mod(xi / 72057594037927936, 256);
        assert(final(out)@.subrange(0, old(out)@.len() as int) =~= old(out)@);
        assert(final(out)@.subrange(old(out)@.len() as int, old(out)@.len() as int + 8) =~= seq![
            b0,
            b1,
            b2,
            b3,
            b4,
            b5,
            b6,
            b7,
        ]);
    }
}

/// Encode an instruction; decoding the result yields it back.
pub fn serialize_instruction(instruction: &AnkerInstruction) -> (r: Vec<u8>)
    ensures
        spec_parse_instruction(r@) == Some(*instruction),
{
    let mut out: Vec<u8> = Vec::new();
    match instruction {
        AnkerInstruction::Initialize => {
            out.push(0);
            proof {
                assert(out@ =~= seq![0u8]);
            }
        },
        AnkerInstruction::Deposit { amount } => {
            out.push(1);
            proof {
                assert(out@ =~= seq![1u8]);
            }
            write_u64_le(&mut out, amount.0);
            proof {
                assert(out@.subrange(0, 1)[0] == 1);
                assert(out@[0] == 1);
                assert(out@.subrange(1, 9) =~= out@.subrange(1int, 1int + 8));
            }
        },
        AnkerInstruction::Withdraw { amount } => {
            out.push(2);
            proof {
                assert(out@ =~= seq![2u8]);
            }
            write_u64_le(&mut out, amount.0);
            proof {
                assert(out@.subrange(0, 1)[0] == 2);
                assert(out@[0] == 2);
                assert(out@.subrange(1, 9) =~= out@.subrange(1int, 1int + 8));
            }
        },
        AnkerInstruction::ClaimRewards => {
            out.push(3);
            proof {
                assert(out@ =~= seq![3u8]);
            }
        },
    }
    out
}

/// The accounts an initialize operation references.
#[derive(Debug)]
pub struct InitializeAccounts {
    /// The instance account to create.
    pub anker: Address,
    /// The staking-protocol instance to wrap.
    pub solido: Address,
    /// The staking-protocol program.
    pub solido_program: Address,
    /// The share-token mint this instance will issue from.
    pub b_sol_mint: Address,
    /// The reserve token account to create.
    pub reserve_account: Address,
    /// The authority that will own the reserve.
    pub reserve_authority: Address,
}

impl InitializeAccounts {
    pub open spec fn wf(&self) -> bool {
        &&& self.anker.wf()
        &&& self.solido.wf()
        &&& self.solido_program.wf()
        &&& self.b_sol_mint.wf()
        &&& self.reserve_account.wf()
        &&& self.reserve_authority.wf()
    }
}

/// The accounts a deposit operation references.
#[derive(Debug)]
pub struct DepositAccounts {
    /// The instance account.
    pub anker: Address,
    /// The staking-protocol instance.
    pub solido: Address,
    /// The depositor's staked-token account.
    pub from_account: Address,
    /// The depositor's authority over `from_account`.
    pub user_authority: Address,
    /// The instance's reserve token account.
    pub to_reserve_account: Address,
    /// The depositor's share-token account.
    pub b_sol_user_account: Address,
    /// The share-token mint.
    pub b_sol_mint: Address,
}

impl DepositAccounts {
    pub open spec fn wf(&self) -> bool {
        &&& self.anker.wf()
        &&& self.solido.wf()
        &&& self.from_account.wf()
        &&& self.user_authority.wf()
        &&& self.to_reserve_account.wf()
        &&& self.b_sol_user_account.wf()
        &&& self.b_sol_mint.wf()
    }
}

/// The accounts a withdraw operation references.
#[derive(Debug)]
pub struct WithdrawAccounts {
    /// The instance account.
    pub anker: Address,
    /// The staking-protocol instance.
    pub solido: Address,
    /// The withdrawer's share-token account.
    pub from_b_sol_account: Address,
    /// The withdrawer's authority over `from_b_sol_account`.
    pub from_b_sol_authority: Address,
    /// The withdrawer's staked-token account to pay into.
    pub to_st_sol_account: Address,
    /// The instance's reserve token account.
    pub reserve_account: Address,
    /// The derived authority over the reserve.
    pub reserve_authority: Address,
    /// The share-token mint.
    pub b_sol_mint: Address,
}

impl WithdrawAccounts {
    pub open spec fn wf(&self) -> bool {
        &&& self.anker.wf()
        &&& self.solido.wf()
        &&& self.from_b_sol_account.wf()
        &&& self.from_b_sol_authority.wf()
        &&& self.to_st_sol_account.wf()
        &&& self.reserve_account.wf()
        &&& self.reserve_authority.wf()
        &&& self.b_sol_mint.wf()
    }
}

/// A delegated transfer of staked tokens.
#[derive(Debug)]
pub struct TransferCmd {
    pub from: Address,
    pub to: Address,
    pub authority: Address,
    pub amount: StLamports,
}

/// A delegated mint of share tokens.
#[derive(Debug)]
pub struct MintCmd {
    pub mint: Address,
    pub authority: Address,
    pub destination: Address,
    pub amount: BLamports,
}

/// A delegated burn of share tokens.
#[derive(Debug)]
pub struct BurnCmd {
    pub mint: Address,
    pub authority: Address,
    pub source: Address,
    pub amount: BLamports,
}

/// What a successful initialize leaves to apply: the record to persist at
/// the derived instance address, and the derived reserve and authorities.
#[derive(Debug)]
pub struct InitializeOutcome {
    /// The instance record to persist.
    pub instance: Anker,
    /// The derived instance address, equal to the supplied one.
    pub instance_address: Address,
    /// The derived mint authority.
    pub mint_authority: Address,
    /// The derived reserve account address, equal to the supplied one.
    pub reserve_account: Address,
    /// The derived reserve authority, equal to the supplied one.
    pub reserve_authority: Address,
}

/// What a successful deposit delegates: a transfer of the deposit into the
/// reserve, then a mint of the converted share amount to the depositor.
#[derive(Debug)]
pub struct DepositOutcome {
    pub transfer: TransferCmd,
    pub mint: MintCmd,
}

/// What a successful withdraw delegates: a transfer out of the reserve,
/// then a burn of the redeemed share amount.
#[derive(Debug)]
pub struct WithdrawOutcome {
    pub transfer: TransferCmd,
    pub burn: BurnCmd,
}

/// The first reason decoding and validating an instance record fails, if
/// any: the record must decode, the instance address must re-derive from
/// the stored proof integer, the supplied staking-protocol instance must be
/// the configured one, and the reserve address must re-derive.
pub open spec fn spec_deserialize_anker_error(
    pid: Seq<u8>,
    anker_address: Seq<u8>,
    d: Seq<u8>,
    solido_address: Seq<u8>,
    reserve_address: Seq<u8>,
) -> Option<AnkerError> {
    if d.len() != 100 {
        Some(AnkerError::InvalidInstanceData)
    } else {
        match derived_address(spec_instance_seeds(spec_anker_solido(d), d[96]), pid) {
            None => Some(AnkerError::InvalidSeeds),
            Some(a) => if a != anker_address {
                Some(AnkerError::InvalidDerivedAccount)
            } else if solido_address != spec_anker_solido(d) {
                Some(AnkerError::InvalidSolidoAccount)
            } else {
                match derived_address(spec_reserve_account_seeds(anker_address, d[99]), pid) {
                    None => Some(AnkerError::InvalidSeeds),
                    Some(ra) => if ra != reserve_address {
                        Some(AnkerError::InvalidReserveAccount)
                    } else {
                        None
                    },
                }
            },
        }
    }
}

/// Decode an instance record and run the validation every operation needs:
/// the instance address, the staking-protocol instance, and the reserve
/// address are checked against the record before anything else happens.
pub fn deserialize_anker(
    program_id: &Address,
    anker_address: &Address,
    anker_data: &[u8],
    solido_address: &Address,
    reserve_address: &Address,
) -> (r: Result<Anker, AnkerError>)
    requires
        program_id.wf(),
        anker_address.wf(),
    ensures
        match spec_deserialize_anker_error(
            program_id@,
            anker_address@,
            anker_data@,
            solido_address@,
            reserve_address@,
        ) {
            Some(e) => r == Err::<Anker, AnkerError>(e),
            None => r matches Ok(a) && spec_anker_matches(a, anker_data@) && a.wf(),
        },
{
    let anker = match Anker::from_bytes(anker_data) {
        Some(a) => a,
        None => {
            return Err(AnkerError::InvalidInstanceData);
        },
    };
    match anker.check_self_address(program_id, anker_address) {
        Ok(()) => (),
        Err(e) => {
            return Err(e);
        },
    }
    if !solido_address.equals(&anker.solido) {
        return Err(AnkerError::InvalidSolidoAccount);
    }
    match anker.check_reserve_address(program_id, anker_address, reserve_address) {
        Ok(()) => (),
        Err(e) => {
            return Err(e);
        },
    }
    Ok(anker)
}

/// The first reason an initialize fails, if any: a proof-integer search
/// that finds nothing, a supplied instance address, reserve authority or
/// reserve account that is not the derived one, or a share-token mint that
/// does not parse or is not controlled by the derived mint authority.
pub open spec fn spec_initialize_error(
    pid: Seq<u8>,
    accounts: InitializeAccounts,
    mint_data: Seq<u8>,
) -> Option<AnkerError> {
    match spec_found_bump(spec_instance_base_seeds(accounts.solido@), pid) {
        None => Some(AnkerError::InvalidSeeds),
        Some(self_bump) => if derived_address(spec_instance_seeds(accounts.solido@, self_bump), pid)
            != Some(accounts.anker@) {
            Some(AnkerError::InvalidDerivedAccount)
        } else {
            match spec_found_bump(spec_mint_authority_base_seeds(accounts.anker@), pid) {
                None => Some(AnkerError::InvalidSeeds),
                Some(mint_bump) => match spec_found_bump(
                    spec_reserve_authority_base_seeds(accounts.anker@),
                    pid,
                ) {
                    None => Some(AnkerError::InvalidSeeds),
                    Some(ra_bump) => if derived_address(
                        spec_reserve_authority_seeds(accounts.anker@, ra_bump),
                        pid,
                    ) != Some(accounts.reserve_authority@) {
                        Some(AnkerError::InvalidDerivedAccount)
                    } else {
                        match spec_found_bump(
                            spec_reserve_account_base_seeds(accounts.anker@),
                            pid,
                        ) {
                            None => Some(AnkerError::InvalidSeeds),
                            Some(rc_bump) => if derived_address(
                                spec_reserve_account_seeds(accounts.anker@, rc_bump),
                                pid,
                            ) != Some(accounts.reserve_account@) {
                                Some(AnkerError::InvalidReserveAccount)
                            } else if !spec_mint_parses(mint_data) {
                                Some(AnkerError::InvalidTokenMint)
                            } else if spec_mint_authority(mint_data) != derived_address(
                                spec_mint_authority_seeds(accounts.anker@, mint_bump),
                                pid,
                            ) {
                                Some(AnkerError::InvalidTokenMint)
                            } else {
                                None
                            },
                        }
                    },
                },
            }
        },
    }
}

/// Whether an initialize outcome is the one owed for these inputs: the
/// record holds the supplied mint and staking-protocol identity and the
/// found proof integers, every address in the outcome re-derives from the
/// proof integer stored for it, the derived reserve and reserve authority
/// equal the supplied ones, and the supplied mint's authority is the
/// derived mint authority.
pub open spec fn spec_initialize_outcome_ok(
    pid: Seq<u8>,
    accounts: InitializeAccounts,
    mint_data: Seq<u8>,
    o: InitializeOutcome,
) -> bool {
    &&& o.instance.b_sol_mint@ == accounts.b_sol_mint@
    &&& o.instance.solido_program_id@ == accounts.solido_program@
    &&& o.instance.solido@ == accounts.solido@
    &&& o.instance.wf()
    &&& o.instance_address@ == accounts.anker@
    &&& Some(o.instance.self_bump_seed) == spec_found_bump(
        spec_instance_base_seeds(accounts.solido@),
        pid,
    )
    &&& Some(o.instance.mint_authority_bump_seed) == spec_found_bump(
        spec_mint_authority_base_seeds(accounts.anker@),
        pid,
    )
    &&& Some(o.instance.reserve_authority_bump_seed) == spec_found_bump(
        spec_reserve_authority_base_seeds(accounts.anker@),
        pid,
    )
    &&& Some(o.instance.reserve_account_bump_seed) == spec_found_bump(
        spec_reserve_account_base_seeds(accounts.anker@),
        pid,
    )
    &&& derived_address(spec_instance_seeds(accounts.solido@, o.instance.self_bump_seed), pid)
        == Some(accounts.anker@)
    &&& derived_address(
        spec_mint_authority_seeds(accounts.anker@, o.instance.mint_authority_bump_seed),
        pid,
    ) == Some(o.mint_authority@)
    &&& o.reserve_authority@ == accounts.reserve_authority@
    &&& derived_address(
        spec_reserve_authority_seeds(accounts.anker@, o.instance.reserve_authority_bump_seed),
        pid,
    ) == Some(accounts.reserve_authority@)
    &&& o.reserve_account@ == accounts.reserve_account@
    &&& derived_address(
        spec_reserve_account_seeds(accounts.anker@, o.instance.reserve_account_bump_seed),
        pid,
    ) == Some(accounts.reserve_account@)
    &&& spec_mint_parses(mint_data)
    &&& spec_mint_authority(mint_data) == Some(o.mint_authority@)
}

/// Initialize one wrapper instance: derive the instance address and each
/// authority, check every supplied address against its derivation, and
/// check that the supplied share-token mint is controlled by the derived
/// mint authority. On success the caller persists the returned record at
/// the instance address and creates the reserve.
pub fn process_initialize(
    program_id: &Address,
    accounts: &InitializeAccounts,
    b_sol_mint_data: &[u8],
) -> (r: Result<InitializeOutcome, AnkerError>)
    requires
        program_id.wf(),
        accounts.wf(),
    ensures
        match spec_initialize_error(program_id@, *accounts, b_sol_mint_data@) {
            Some(e) => r == Err::<InitializeOutcome, AnkerError>(e),
            None => r matches Ok(o) && spec_initialize_outcome_ok(
                program_id@,
                *accounts,
                b_sol_mint_data@,
                o,
            ),
        },
{
    let (anker_address, self_bump_seed) = match find_instance_address(program_id, &accounts.solido)
    {
        Some(ab) => ab,
        None => {
            return Err(AnkerError::InvalidSeeds);
        },
    };
    if !anker_address.equals(&accounts.anker) {
        return Err(AnkerError::InvalidDerivedAccount);
    }
    let (mint_authority, mint_authority_bump_seed) = match find_mint_authority(
        program_id,
        &accounts.anker,
    ) {
        Some(ab) => ab,
        None => {
            return Err(AnkerError::InvalidSeeds);
        },
    };
    let (reserve_authority, reserve_authority_bump_seed) = match find_reserve_authority(
        program_id,
        &accounts.anker,
    ) {
        Some(ab) => ab,
        None => {
            return Err(AnkerError::InvalidSeeds);
        },
    };
    if !reserve_authority.equals(&accounts.reserve_authority) {
        return Err(AnkerError::InvalidDerivedAccount);
    }
    let (reserve_account, reserve_account_bump_seed) = match find_reserve_account(
        program_id,
        &accounts.anker,
    ) {
        Some(ab) => ab,
        None => {
            return Err(AnkerError::InvalidSeeds);
        },
    };
    if !reserve_account.equals(&accounts.reserve_account) {
        return Err(AnkerError::InvalidReserveAccount);
    }
    let mint = match unpack_mint(b_sol_mint_data) {
        Some(m) => m,
        None => {
            return Err(AnkerError::InvalidTokenMint);
        },
    };
    let authority_ok = match &mint.mint_authority {
        Some(a) => a.equals(&mint_authority),
        None => false,
    };
    if !authority_ok {
        return Err(AnkerError::InvalidTokenMint);
    }
    let instance = Anker {
        b_sol_mint: accounts.b_sol_mint.dup(),
        solido_program_id: accounts.solido_program.dup(),
        solido: accounts.solido.dup(),
        self_bump_seed,
        mint_authority_bump_seed,
        reserve_authority_bump_seed,
        reserve_account_bump_seed,
    };
    Ok(
        InitializeOutcome {
            instance,
            instance_address: anker_address,
            mint_authority,
            reserve_account,
            reserve_authority,
        },
    )
}

/// The first reason a deposit fails, if any: a zero amount, the shared
/// instance validation, a wrong share-token mint, a conversion that divides
/// by zero or overflows, or a mint authority that does not derive.
pub open spec fn spec_deposit_error(
    pid: Seq<u8>,
    accounts: DepositAccounts,
    d: Seq<u8>,
    solido: SolidoState,
    amount: StLamports,
) -> Option<AnkerError> {
    if amount.0 == 0 {
        Some(AnkerError::InvalidArgument)
    } else {
        match spec_deserialize_anker_error(
            pid,
            accounts.anker@,
            d,
            accounts.solido@,
            accounts.to_reserve_account@,
        ) {
            Some(e) => Some(e),
            None => if spec_anker_b_sol_mint(d) != accounts.b_sol_mint@ {
                Some(AnkerError::InvalidTokenMint)
            } else if solido.st_sol_supply.0 == 0 {
                Some(AnkerError::ArithmeticError)
            } else if spec_convert(
                amount.0 as int,
                solido.st_sol_supply.0 as int,
                solido.sol_balance.0 as int,
            ) > u64::MAX {
                Some(AnkerError::ArithmeticError)
            } else {
                match derived_address(spec_mint_authority_seeds(accounts.anker@, d[97]), pid) {
                    None => Some(AnkerError::InvalidSeeds),
                    Some(_) => None,
                }
            },
        }
    }
}

/// Whether a deposit outcome is the one owed for these inputs: transfer the
/// deposit from the depositor to the reserve under the depositor's
/// authority, and mint it, converted at the pegged rate, to the depositor's
/// share account under the derived mint authority.
pub open spec fn spec_deposit_outcome_ok(
    pid: Seq<u8>,
    accounts: DepositAccounts,
    d: Seq<u8>,
    solido: SolidoState,
    amount: StLamports,
    o: DepositOutcome,
) -> bool {
    &&& o.transfer.from@ == accounts.from_account@
    &&& o.transfer.to@ == accounts.to_reserve_account@
    &&& o.transfer.authority@ == accounts.user_authority@
    &&& o.transfer.amount == amount
    &&& o.mint.mint@ == accounts.b_sol_mint@
    &&& Some(o.mint.authority@) == derived_address(
        spec_mint_authority_seeds(accounts.anker@, d[97]),
        pid,
    )
    &&& o.mint.destination@ == accounts.b_sol_user_account@
    &&& o.mint.amount.0 == spec_convert(
        amount.0 as int,
        solido.st_sol_supply.0 as int,
        solido.sol_balance.0 as int,
    )
}

/// Deposit `amount` of staked token: after validation, transfer it to the
/// reserve and mint the amount of share token it is worth at the pegged
/// rate.
pub fn process_deposit(
    program_id: &Address,
    accounts: &DepositAccounts,
    anker_data: &[u8],
    solido: &SolidoState,
    amount: StLamports,
) -> (r: Result<DepositOutcome, AnkerError>)
    requires
        program_id.wf(),
        accounts.wf(),
        solido.wf(),
    ensures
        match spec_deposit_error(program_id@, *accounts, anker_data@, *solido, amount) {
            Some(e) => r == Err::<DepositOutcome, AnkerError>(e),
            None => r matches Ok(o) && spec_deposit_outcome_ok(
                program_id@,
                *accounts,
                anker_data@,
                *solido,
                amount,
                o,
            ),
        },
{
    if amount.0 == 0 {
        return Err(AnkerError::InvalidArgument);
    }
    let anker = match deserialize_anker(
        program_id,
        &accounts.anker,
        anker_data,
        &accounts.solido,
        &accounts.to_reserve_account,
    ) {
        Ok(a) => a,
        Err(e) => {
            return Err(e);
        },
    };
    match anker.check_mint(&accounts.b_sol_mint) {
        Ok(()) => (),
        Err(e) => {
            return Err(e);
        },
    }
    let exchange_rate = ExchangeRate::from_solido_pegged(solido.sol_balance, solido.st_sol_supply);
    let b_sol_amount = match exchange_rate.exchange_st_sol(amount) {
        Ok(v) => v,
        Err(e) => {
            return Err(e);
        },
    };
    let mint_authority = match derive_mint_authority(
        program_id,
        &accounts.anker,
        anker.mint_authority_bump_seed,
    ) {
        Some(a) => a,
        None => {
            return Err(AnkerError::InvalidSeeds);
        },
    };
    Ok(
        DepositOutcome {
            transfer: TransferCmd {
                from: accounts.from_account.dup(),
                to: accounts.to_reserve_account.dup(),
                authority: accounts.user_authority.dup(),
                amount,
            },
            mint: MintCmd {
                mint: accounts.b_sol_mint.dup(),
                authority: mint_authority,
                destination: accounts.b_sol_user_account.dup(),
                amount: b_sol_amount,
            },
        },
    )
}

/// The first reason a withdraw fails, if any: a zero amount, the shared
/// instance validation, a wrong share-token mint, a reserve that is not a
/// staked-token account, a reserve authority that does not check out, an
/// unreadable mint record, or a conversion that divides by zero or
/// overflows under either pricing model.
pub open spec fn spec_withdraw_error(
    pid: Seq<u8>,
    accounts: WithdrawAccounts,
    d: Seq<u8>,
    solido: SolidoState,
    mint_data: Seq<u8>,
    reserve_data: Seq<u8>,
    amount: BLamports,
) -> Option<AnkerError> {
    if amount.0 == 0 {
        Some(AnkerError::InvalidArgument)
    } else {
        match spec_deserialize_anker_error(
            pid,
            accounts.anker@,
            d,
            accounts.solido@,
            accounts.reserve_account@,
        ) {
            Some(e) => Some(e),
            None => if spec_anker_b_sol_mint(d) != accounts.b_sol_mint@ {
                Some(AnkerError::InvalidTokenMint)
            } else if !spec_account_parses(reserve_data) {
                Some(AnkerError::InvalidReserveAccount)
            } else if spec_account_mint(reserve_data) != solido.st_sol_mint@ {
                Some(AnkerError::InvalidTokenMint)
            } else {
                match derived_address(spec_reserve_authority_seeds(accounts.anker@, d[98]), pid) {
                    None => Some(AnkerError::InvalidSeeds),
                    Some(ra) => if ra != accounts.reserve_authority@ {
                        Some(AnkerError::InvalidDerivedAccount)
                    } else if !spec_mint_parses(mint_data) {
                        Some(AnkerError::InvalidTokenMint)
                    } else if solido.sol_balance.0 == 0 {
                        Some(AnkerError::ArithmeticError)
                    } else if spec_convert(
                        amount.0 as int,
                        solido.sol_balance.0 as int,
                        solido.st_sol_supply.0 as int,
                    ) > u64::MAX {
                        Some(AnkerError::ArithmeticError)
                    } else if spec_mint_supply(mint_data) == 0 {
                        Some(AnkerError::ArithmeticError)
                    } else if spec_convert(
                        amount.0 as int,
                        spec_mint_supply(mint_data),
                        spec_account_amount(reserve_data),
                    ) > u64::MAX {
                        Some(AnkerError::ArithmeticError)
                    } else {
                        None
                    },
                }
            },
        }
    }
}

/// The staked amount a withdraw pays out: the lesser of the pegged-inverse
/// redemption and the unpegged share-of-reserve redemption.
pub open spec fn spec_withdraw_amount(
    solido: SolidoState,
    mint_data: Seq<u8>,
    reserve_data: Seq<u8>,
    amount: BLamports,
) -> int {
    let pegged = spec_convert(
        amount.0 as int,
        solido.sol_balance.0 as int,
        solido.st_sol_supply.0 as int,
    );
    let unpegged = spec_convert(
        amount.0 as int,
        spec_mint_supply(mint_data),
        spec_account_amount(reserve_data),
    );
    if pegged <= unpegged {
        pegged
    } else {
        unpegged
    }
}

/// Whether a withdraw outcome is the one owed for these inputs: transfer
/// the redeemed staked amount from the reserve to the withdrawer under the
/// derived reserve authority, and burn the surrendered share amount from
/// the withdrawer's account.
pub open spec fn spec_withdraw_outcome_ok(
    pid: Seq<u8>,
    accounts: WithdrawAccounts,
    d: Seq<u8>,
    solido: SolidoState,
    mint_data: Seq<u8>,
    reserve_data: Seq<u8>,
    amount: BLamports,
    o: WithdrawOutcome,
) -> bool {
    &&& o.transfer.from@ == accounts.reserve_account@
    &&& o.transfer.to@ == accounts.to_st_sol_account@
    &&& o.transfer.authority@ == accounts.reserve_authority@
    &&& o.transfer.amount.0 == spec_withdraw_amount(solido, mint_data, reserve_data, amount)
    &&& o.burn.mint@ == accounts.b_sol_mint@
    &&& o.burn.authority@ == accounts.from_b_sol_authority@
    &&& o.burn.source@ == accounts.from_b_sol_account@
    &&& o.burn.amount == amount
}

/// Redeem `amount` of share token: after validation, read the current mint
/// supply and reserve balance, price the redemption under both the pegged
/// and the unpegged model, pay out the smaller, and burn the share tokens.
pub fn process_withdraw(
    program_id: &Address,
    accounts: &WithdrawAccounts,
    anker_data: &[u8],
    solido: &SolidoState,
    b_sol_mint_data: &[u8],
    reserve_data: &[u8],
    amount: BLamports,
) -> (r: Result<WithdrawOutcome, AnkerError>)
    requires
        program_id.wf(),
        accounts.wf(),
        solido.wf(),
    ensures
        match spec_withdraw_error(
            program_id@,
            *accounts,
            anker_data@,
            *solido,
            b_sol_mint_data@,
            reserve_data@,
            amount,
        ) {
            Some(e) => r == Err::<WithdrawOutcome, AnkerError>(e),
            None => r matches Ok(o) && spec_withdraw_outcome_ok(
                program_id@,
                *accounts,
                anker_data@,
                *solido,
                b_sol_mint_data@,
                reserve_data@,
                amount,
                o,
            ),
        },
{
    if amount.0 == 0 {
        return Err(AnkerError::InvalidArgument);
    }
    let anker = match deserialize_anker(
        program_id,
        &accounts.anker,
        anker_data,
        &accounts.solido,
        &accounts.reserve_account,
    ) {
        Ok(a) => a,
        Err(e) => {
            return Err(e);
        },
    };
    match anker.check_mint(&accounts.b_sol_mint) {
        Ok(()) => (),
        Err(e) => {
            return Err(e);
        },
    }
    let reserve = match anker.check_is_st_sol_account(solido, reserve_data) {
        Ok(acc) => acc,
        Err(e) => {
            return Err(e);
        },
    };
    match anker.check_reserve_authority(program_id, &accounts.anker, &accounts.reserve_authority) {
        Ok(()) => (),
        Err(e) => {
            return Err(e);
        },
    }
    let mint = match unpack_mint(b_sol_mint_data) {
        Some(m) => m,
        None => {
            return Err(AnkerError::InvalidTokenMint);
        },
    };
    let b_sol_supply = BLamports(mint.supply);
    let reserve_balance = StLamports(reserve.amount);
    let exchange_rate_solido = ExchangeRate::from_solido_pegged(
        solido.sol_balance,
        solido.st_sol_supply,
    );
    let exchange_rate_anker = ExchangeRate::from_anker_unpegged(b_sol_supply, reserve_balance);
    let st_sol_solido = match exchange_rate_solido.exchange_b_sol(amount) {
        Ok(v) => v,
        Err(e) => {
            return Err(e);
        },
    };
    let st_sol_anker = match exchange_rate_anker.exchange_b_sol(amount) {
        Ok(v) => v,
        Err(e) => {
            return Err(e);
        },
    };
    let st_sol_amount = if st_sol_solido.0 <= st_sol_anker.0 {
        st_sol_solido
    } else {
        st_sol_anker
    };
    Ok(
        WithdrawOutcome {
            transfer: TransferCmd {
                from: accounts.reserve_account.dup(),
                to: accounts.to_st_sol_account.dup(),
                authority: accounts.reserve_authority.dup(),
                amount: st_sol_amount,
            },
            burn: BurnCmd {
                mint: accounts.b_sol_mint.dup(),
                authority: accounts.from_b_sol_authority.dup(),
                source: accounts.from_b_sol_account.dup(),
                amount,
            },
        },
    )
}

/// Law: a deposit supplied with a reserve-account address that does not
/// match the derivation from the record's stored proof integer fails with
/// the invalid-reserve error, so no transfer and no mint are delegated. The
/// amount must be positive (a zero amount is rejected as an invalid
/// argument first), the record must decode, and the instance and
/// staking-protocol checks that precede the reserve check must pass.
pub proof fn lemma_deposit_rejects_wrong_reserve(
    pid: Seq<u8>,
    accounts: DepositAccounts,
    d: Seq<u8>,
    solido: SolidoState,
    amount: StLamports,
)
    ensures
        ({
            &&& amount.0 > 0
            &&& d.len() == 100
            &&& derived_address(spec_instance_seeds(spec_anker_solido(d), d[96]), pid) == Some(
                accounts.anker@,
            )
            &&& accounts.solido@ == spec_anker_solido(d)
            &&& (derived_address(spec_reserve_account_seeds(accounts.anker@, d[99]), pid)
                matches Some(ra) && ra != accounts.to_reserve_account@)
        }) ==> spec_deposit_error(pid, accounts, d, solido, amount) == Some(
            AnkerError::InvalidReserveAccount,
        ),
{
}

/// Law: a withdraw supplied with a reserve-account address that does not
/// match the derivation from the record's stored proof integer fails with
/// the invalid-reserve error, so no transfer and no burn are delegated.
/// The amount must be positive (a zero amount is rejected as an invalid
/// argument first), the record must decode, and the instance and
/// staking-protocol checks that precede the reserve check must pass.
pub proof fn lemma_withdraw_rejects_wrong_reserve(
    pid: Seq<u8>,
    accounts: WithdrawAccounts,
    d: Seq<u8>,
    solido: SolidoState,
    mint_data: Seq<u8>,
    reserve_data: Seq<u8>,
    amount: BLamports,
)
    ensures
        ({
            &&& amount.0 > 0
            &&& d.len() == 100
            &&& derived_address(spec_instance_seeds(spec_anker_solido(d), d[96]), pid) == Some(
                accounts.anker@,
            )
            &&& accounts.solido@ == spec_anker_solido(d)
            &&& (derived_address(spec_reserve_account_seeds(accounts.anker@, d[99]), pid)
                matches Some(ra) && ra != accounts.reserve_account@)
        }) ==> spec_withdraw_error(pid, accounts, d, solido, mint_data, reserve_data, amount)
            == Some(AnkerError::InvalidReserveAccount),
{
}

/// Law: an initialize supplied with a reserve-account address that does not
/// match the derivation at the found proof integer fails with the
/// invalid-reserve error, so nothing is created or persisted. The searches
/// and comparisons that precede the reserve check must pass.
pub proof fn lemma_initialize_rejects_wrong_reserve(
    pid: Seq<u8>,
    accounts: InitializeAccounts,
    mint_data: Seq<u8>,
)
    ensures
        ({
            &&& (spec_found_bump(spec_instance_base_seeds(accounts.solido@), pid) matches Some(sb)
                && derived_address(spec_instance_seeds(accounts.solido@, sb), pid) == Some(
                accounts.anker@,
            ))
            &&& spec_found_bump(spec_mint_authority_base_seeds(accounts.anker@), pid) is Some
            &&& (spec_found_bump(spec_reserve_authority_base_seeds(accounts.anker@), pid)
                matches Some(rb) && derived_address(
                spec_reserve_authority_seeds(accounts.anker@, rb),
                pid,
            ) == Some(accounts.reserve_authority@))
            &&& (spec_found_bump(spec_reserve_account_base_seeds(accounts.anker@), pid)
                matches Some(cb) && derived_address(
                spec_reserve_account_seeds(accounts.anker@, cb),
                pid,
            ) != Some(accounts.reserve_account@))
        }) ==> spec_initialize_error(pid, accounts, mint_data) == Some(
            AnkerError::InvalidReserveAccount,
        ),
{
}

/// The account references and record snapshots one operation request
/// carries, matching the instruction it is submitted with.
#[derive(Debug)]
pub enum OperationRequest {
    Initialize { accounts: InitializeAccounts, b_sol_mint_data: Vec<u8> },
    Deposit { accounts: DepositAccounts, anker_data: Vec<u8>, solido: SolidoState },
    Withdraw {
        accounts: WithdrawAccounts,
        anker_data: Vec<u8>,
        solido: SolidoState,
        b_sol_mint_data: Vec<u8>,
        reserve_data: Vec<u8>,
    },
    ClaimRewards,
}

impl OperationRequest {
    pub open spec fn wf(&self) -> bool {
        match self {
            OperationRequest::Initialize { accounts, .. } => accounts.wf(),
            OperationRequest::Deposit { accounts, solido, .. } => accounts.wf() && solido.wf(),
            OperationRequest::Withdraw { accounts, solido, .. } => accounts.wf() && solido.wf(),
            OperationRequest::ClaimRewards => true,
        }
    }
}

/// What one operation leaves to apply.
#[derive(Debug)]
pub enum OperationOutcome {
    Initialize(InitializeOutcome),
    Deposit(DepositOutcome),
    Withdraw(WithdrawOutcome),
}

/// Decode the instruction and run the operation it names against the
/// supplied request. The claim-rewards instruction is deliberately
/// unimplemented and always fails; a request whose accounts do not belong
/// to the decoded instruction is rejected outright.
pub fn process(program_id: &Address, request: &OperationRequest, input: &[u8]) -> (r: Result<
    OperationOutcome,
    AnkerError,
>)
    requires
        program_id.wf(),
        request.wf(),
    ensures
        match spec_parse_instruction(input@) {
            None => r == Err::<OperationOutcome, AnkerError>(AnkerError::InvalidInstructionData),
            Some(instruction) => match instruction {
                AnkerInstruction::Initialize => match *request {
                    OperationRequest::Initialize { accounts, b_sol_mint_data } => match
                        spec_initialize_error(program_id@, accounts, b_sol_mint_data@) {
                        Some(e) => r == Err::<OperationOutcome, AnkerError>(e),
                        None => r matches Ok(o) && o matches OperationOutcome::Initialize(io)
                            && spec_initialize_outcome_ok(
                            program_id@,
                            accounts,
                            b_sol_mint_data@,
                            io,
                        ),
                    },
                    _ => r == Err::<OperationOutcome, AnkerError>(
                        AnkerError::WrongAccountsForInstruction,
                    ),
                },
                AnkerInstruction::Deposit { amount } => match *request {
                    OperationRequest::Deposit { accounts, anker_data, solido } => match
                        spec_deposit_error(program_id@, accounts, anker_data@, solido, amount) {
                        Some(e) => r == Err::<OperationOutcome, AnkerError>(e),
                        None => r matches Ok(o) && o matches OperationOutcome::Deposit(d)
                            && spec_deposit_outcome_ok(
                            program_id@,
                            accounts,
                            anker_data@,
                            solido,
                            amount,
                            d,
                        ),
                    },
                    _ => r == Err::<OperationOutcome, AnkerError>(
                        AnkerError::WrongAccountsForInstruction,
                    ),
                },
                AnkerInstruction::Withdraw { amount } => match *request {
                    OperationRequest::Withdraw {
                        accounts,
                        anker_data,
                        solido,
                        b_sol_mint_data,
                        reserve_data,
                    } => match spec_withdraw_error(
                        program_id@,
                        accounts,
                        anker_data@,
                        solido,
                        b_sol_mint_data@,
                        reserve_data@,
                        amount,
                    ) {
                        Some(e) => r == Err::<OperationOutcome, AnkerError>(e),
                        None => r matches Ok(o) && o matches OperationOutcome::Withdraw(w)
                            && spec_withdraw_outcome_ok(
                            program_id@,
                            accounts,
                            anker_data@,
                            solido,
                            b_sol_mint_data@,
                            reserve_data@,
                            amount,
                            w,
                        ),
                    },
                    _ => r == Err::<OperationOutcome, AnkerError>(
                        AnkerError::WrongAccountsForInstruction,
                    ),
                },
                AnkerInstruction::ClaimRewards => r == Err::<OperationOutcome, AnkerError>(
                    AnkerError::Unimplemented,
                ),
            },
        },
{
    let instruction = match parse_instruction(input) {
        Ok(i) => i,
        Err(e) => {
            return Err(e);
        },
    };
    match instruction {
        AnkerInstruction::Initialize => match request {
            OperationRequest::Initialize { accounts, b_sol_mint_data } => {
                match process_initialize(program_id, accounts, b_sol_mint_data.as_slice()) {
                    Ok(o) => Ok(OperationOutcome::Initialize(o)),
                    Err(e) => Err(e),
                }
            },
            _ => Err(AnkerError::WrongAccountsForInstruction),
        },
        AnkerInstruction::Deposit { amount } => match request {
            OperationRequest::Deposit { accounts, anker_data, solido } => {
                match process_deposit(
                    program_id,
                    accounts,
                    anker_data.as_slice(),
                    solido,
                    amount,
                ) {
                    Ok(o) => Ok(OperationOutcome::Deposit(o)),
                    Err(e) => Err(e),
                }
            },
            _ => Err(AnkerError::WrongAccountsForInstruction),
        },
        AnkerInstruction::Withdraw { amount } => match request {
            OperationRequest::Withdraw {
                accounts,
                anker_data,
                solido,
                b_sol_mint_data,
                reserve_data,
            } => {
                match process_withdraw(
                    program_id,
                    accounts,
                    anker_data.as_slice(),
                    solido,
                    b_sol_mint_data.as_slice(),
                    reserve_data.as_slice(),
                    amount,
                ) {
                    Ok(o) => Ok(OperationOutcome::Withdraw(o)),
                    Err(e) => Err(e),
                }
            },
            _ => Err(AnkerError::WrongAccountsForInstruction),
        },
        AnkerInstruction::ClaimRewards => Err(AnkerError::Unimplemented),
    }
}

} // verus!
