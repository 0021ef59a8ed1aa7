use anker::address::{
    find_instance_address, find_mint_authority, find_reserve_account, find_reserve_authority,
    Address,
};
use anker::error::AnkerError;
use anker::processor::{
    parse_instruction, process, process_deposit, process_initialize, process_withdraw,
    serialize_instruction, AnkerInstruction, DepositAccounts, InitializeAccounts,
    OperationOutcome, OperationRequest, WithdrawAccounts,
};
use anker::state::SolidoState;
use anker::token::{BLamports, Lamports, StLamports};
use solana_program::program_option::COption;
use solana_program::program_pack::Pack;
use solana_program::pubkey::Pubkey;

fn addr_of(pk: &Pubkey) -> Address {
    Address::new(pk.to_bytes().to_vec())
}

fn pk_of(a: &Address) -> Pubkey {
    let bytes: [u8; 32] = a.bytes.as_slice().try_into().unwrap();
    Pubkey::new_from_array(bytes)
}

fn pack_mint_data(authority: Option<&Address>, supply: u64) -> Vec<u8> {
    let mint = spl_token::state::Mint {
        mint_authority: match authority {
            Some(a) => COption::Some(pk_of(a)),
            None => COption::None,
        },
        supply,
        decimals: 9,
        is_initialized: true,
        freeze_authority: COption::None,
    };
    let mut data = vec![0u8; spl_token::state::Mint::LEN];
    spl_token::state::Mint::pack(mint, &mut data).unwrap();
    data
}

fn pack_account_data(mint: &Address, owner: &Address, amount: u64) -> Vec<u8> {
    let account = spl_token::state::Account {
        mint: pk_of(mint),
        owner: pk_of(owner),
        amount,
        delegate: COption::None,
        state: spl_token::state::AccountState::Initialized,
        is_native: COption::None,
        delegated_amount: 0,
        close_authority: COption::None,
    };
    let mut data = vec![0u8; spl_token::state::Account::LEN];
    spl_token::state::Account::pack(account, &mut data).unwrap();
    data
}

/// One fully initialized instance with every derived address consistent.
struct Setup {
    program_id: Address,
    st_sol_mint: Address,
    b_sol_mint: Address,
    anker: Address,
    reserve_account: Address,
    reserve_authority: Address,
    mint_authority: Address,
    anker_data: Vec<u8>,
}

fn setup_instance() -> Setup {
    let program_id = addr_of(&Pubkey::new_unique());
    let solido = addr_of(&Pubkey::new_unique());
    let solido_program = addr_of(&Pubkey::new_unique());
    let b_sol_mint = addr_of(&Pubkey::new_unique());
    let st_sol_mint = addr_of(&Pubkey::new_unique());
    let (anker, _) = find_instance_address(&program_id, &solido).unwrap();
    let (mint_authority, _) = find_mint_authority(&program_id, &anker).unwrap();
    let (reserve_authority, _) = find_reserve_authority(&program_id, &anker).unwrap();
    let (reserve_account, _) = find_reserve_account(&program_id, &anker).unwrap();
    let accounts = InitializeAccounts {
        anker: anker.dup(),
        solido: solido.dup(),
        solido_program: solido_program.dup(),
        b_sol_mint: b_sol_mint.dup(),
        reserve_account: reserve_account.dup(),
        reserve_authority: reserve_authority.dup(),
    };
    let mint_data = pack_mint_data(Some(&mint_authority), 0);
    let outcome = process_initialize(&program_id, &accounts, &mint_data).unwrap();
    assert!(outcome.instance_address.equals(&anker));
    assert!(outcome.mint_authority.equals(&mint_authority));
    assert!(outcome.reserve_account.equals(&reserve_account));
    assert!(outcome.reserve_authority.equals(&reserve_authority));
    let anker_data = outcome.instance.to_bytes();
    Setup {
        program_id,
        st_sol_mint,
        b_sol_mint,
        anker,
        reserve_account,
        reserve_authority,
        mint_authority,
        anker_data,
    }
}

fn deposit_accounts(s: &Setup) -> DepositAccounts {
    DepositAccounts {
        anker: s.anker.dup(),
        solido: {
            // The configured staking-protocol instance is stored in the record.
            let decoded = anker::state::Anker::from_bytes(&s.anker_data).unwrap();
            decoded.solido
        },
        from_account: addr_of(&Pubkey::new_unique()),
        user_authority: addr_of(&Pubkey::new_unique()),
        to_reserve_account: s.reserve_account.dup(),
        b_sol_user_account: addr_of(&Pubkey::new_unique()),
        b_sol_mint: s.b_sol_mint.dup(),
    }
}

fn withdraw_accounts(s: &Setup) -> WithdrawAccounts {
    let decoded = anker::state::Anker::from_bytes(&s.anker_data).unwrap();
    WithdrawAccounts {
        anker: s.anker.dup(),
        solido: decoded.solido,
        from_b_sol_account: addr_of(&Pubkey::new_unique()),
        from_b_sol_authority: addr_of(&Pubkey::new_unique()),
        to_st_sol_account: addr_of(&Pubkey::new_unique()),
        reserve_account: s.reserve_account.dup(),
        reserve_authority: s.reserve_authority.dup(),
        b_sol_mint: s.b_sol_mint.dup(),
    }
}

fn solido_state(s: &Setup, sol_balance: u64, st_sol_supply: u64) -> SolidoState {
    SolidoState {
        st_sol_mint: s.st_sol_mint.dup(),
        sol_balance: Lamports(sol_balance),
        st_sol_supply: StLamports(st_sol_supply),
    }
}

#[test]
fn instruction_codec_round_trips() {
    let cases = [
        AnkerInstruction::Initialize,
        AnkerInstruction::Deposit { amount: StLamports(0) },
        AnkerInstruction::Deposit { amount: StLamports(u64::MAX) },
        AnkerInstruction::Withdraw { amount: BLamports(1000) },
        AnkerInstruction::ClaimRewards,
    ];
    for instruction in cases {
        let bytes = serialize_instruction(&instruction);
        assert_eq!(parse_instruction(&bytes), Ok(instruction));
    }
}

#[test]
fn instruction_deposit_encoding_is_tag_then_le_amount() {
    let bytes = serialize_instruction(&AnkerInstruction::Deposit { amount: StLamports(258) });
    assert_eq!(bytes, vec![1u8, 2, 1, 0, 0, 0, 0, 0, 0]);
}

#[test]
fn instruction_parser_rejects_malformed_input() {
    assert_eq!(parse_instruction(&[]), Err(AnkerError::InvalidInstructionData));
    assert_eq!(parse_instruction(&[4]), Err(AnkerError::InvalidInstructionData));
    // A trailing byte after a full encoding is rejected.
    assert_eq!(
        parse_instruction(&[1, 0, 0, 0, 0, 0, 0, 0, 0, 0]),
        Err(AnkerError::InvalidInstructionData)
    );
    // A truncated amount is rejected.
    assert_eq!(parse_instruction(&[2, 1, 2]), Err(AnkerError::InvalidInstructionData));
    assert_eq!(parse_instruction(&[0, 0]), Err(AnkerError::InvalidInstructionData));
}

#[test]
fn initialize_rejects_wrong_instance_address() {
    let program_id = addr_of(&Pubkey::new_unique());
    let solido = addr_of(&Pubkey::new_unique());
    let accounts = InitializeAccounts {
        anker: addr_of(&Pubkey::new_unique()),
        solido,
        solido_program: addr_of(&Pubkey::new_unique()),
        b_sol_mint: addr_of(&Pubkey::new_unique()),
        reserve_account: addr_of(&Pubkey::new_unique()),
        reserve_authority: addr_of(&Pubkey::new_unique()),
    };
    let mint_data = pack_mint_data(None, 0);
    assert_eq!(
        process_initialize(&program_id, &accounts, &mint_data).unwrap_err(),
        AnkerError::InvalidDerivedAccount
    );
}

#[test]
fn initialize_rejects_wrong_reserve_account() {
    let program_id = addr_of(&Pubkey::new_unique());
    let solido = addr_of(&Pubkey::new_unique());
    let (anker, _) = find_instance_address(&program_id, &solido).unwrap();
    let (mint_authority, _) = find_mint_authority(&program_id, &anker).unwrap();
    let (reserve_authority, _) = find_reserve_authority(&program_id, &anker).unwrap();
    let accounts = InitializeAccounts {
        anker,
        solido,
        solido_program: addr_of(&Pubkey::new_unique()),
        b_sol_mint: addr_of(&Pubkey::new_unique()),
        reserve_account: addr_of(&Pubkey::new_unique()),
        reserve_authority,
    };
    let mint_data = pack_mint_data(Some(&mint_authority), 0);
    assert_eq!(
        process_initialize(&program_id, &accounts, &mint_data).unwrap_err(),
        AnkerError::InvalidReserveAccount
    );
}

#[test]
fn initialize_rejects_wrong_mint_authority() {
    let program_id = addr_of(&Pubkey::new_unique());
    let solido = addr_of(&Pubkey::new_unique());
    let (anker, _) = find_instance_address(&program_id, &solido).unwrap();
    let (reserve_authority, _) = find_reserve_authority(&program_id, &anker).unwrap();
    let (reserve_account, _) = find_reserve_account(&program_id, &anker).unwrap();
    let accounts = InitializeAccounts {
        anker,
        solido,
        solido_program: addr_of(&Pubkey::new_unique()),
        b_sol_mint: addr_of(&Pubkey::new_unique()),
        reserve_account,
        reserve_authority,
    };
    // The mint is controlled by someone else, not the derived authority.
    let rogue = addr_of(&Pubkey::new_unique());
    let mint_data = pack_mint_data(Some(&rogue), 0);
    assert_eq!(
        process_initialize(&program_id, &accounts, &mint_data).unwrap_err(),
        AnkerError::InvalidTokenMint
    );
}

#[test]
fn deposit_mints_one_to_one_at_par_peg() {
    // Initial reserve 0, share supply 0, pegged ratio (100, 100): a deposit
    // of 1000 staked units mints 1000 share units.
    let s = setup_instance();
    let accounts = deposit_accounts(&s);
    let solido = solido_state(&s, 100, 100);
    let outcome = process_deposit(
        &s.program_id,
        &accounts,
        &s.anker_data,
        &solido,
        StLamports(1000),
    )
    .unwrap();
    assert_eq!(outcome.mint.amount, BLamports(1000));
    assert_eq!(outcome.transfer.amount, StLamports(1000));
    assert!(outcome.transfer.from.equals(&accounts.from_account));
    assert!(outcome.transfer.to.equals(&s.reserve_account));
    assert!(outcome.transfer.authority.equals(&accounts.user_authority));
    assert!(outcome.mint.mint.equals(&s.b_sol_mint));
    assert!(outcome.mint.authority.equals(&s.mint_authority));
    assert!(outcome.mint.destination.equals(&accounts.b_sol_user_account));
}

#[test]
fn deposit_of_zero_fails_and_issues_nothing() {
    let s = setup_instance();
    let accounts = deposit_accounts(&s);
    let solido = solido_state(&s, 100, 100);
    let r = process_deposit(&s.program_id, &accounts, &s.anker_data, &solido, StLamports(0));
    // The invalid-argument error comes back and no commands are produced.
    assert_eq!(r.unwrap_err(), AnkerError::InvalidArgument);
}

#[test]
fn deposit_with_wrong_reserve_fails_validation() {
    let s = setup_instance();
    let mut accounts = deposit_accounts(&s);
    accounts.to_reserve_account = addr_of(&Pubkey::new_unique());
    let solido = solido_state(&s, 100, 100);
    let r = process_deposit(&s.program_id, &accounts, &s.anker_data, &solido, StLamports(1000));
    assert_eq!(r.unwrap_err(), AnkerError::InvalidReserveAccount);
}

#[test]
fn withdraw_pays_par_when_fully_collateralized() {
    // After the 1000-unit deposit: reserve 1000, share supply 1000, pegged
    // ratio still (100, 100). Withdrawing all 1000 share units returns
    // exactly 1000 staked units; both models agree.
    let s = setup_instance();
    let accounts = withdraw_accounts(&s);
    let solido = solido_state(&s, 100, 100);
    let mint_data = pack_mint_data(Some(&s.mint_authority), 1000);
    let reserve_data = pack_account_data(&s.st_sol_mint, &s.reserve_authority, 1000);
    let outcome = process_withdraw(
        &s.program_id,
        &accounts,
        &s.anker_data,
        &solido,
        &mint_data,
        &reserve_data,
        BLamports(1000),
    )
    .unwrap();
    assert_eq!(outcome.transfer.amount, StLamports(1000));
    assert_eq!(outcome.burn.amount, BLamports(1000));
    assert!(outcome.transfer.from.equals(&s.reserve_account));
    assert!(outcome.transfer.to.equals(&accounts.to_st_sol_account));
    assert!(outcome.transfer.authority.equals(&s.reserve_authority));
    assert!(outcome.burn.mint.equals(&s.b_sol_mint));
    assert!(outcome.burn.source.equals(&accounts.from_b_sol_account));
    assert!(outcome.burn.authority.equals(&accounts.from_b_sol_authority));
}

#[test]
fn withdraw_socializes_a_slashed_reserve() {
    // The reserve was slashed to 900 while the share supply stayed 1000 and
    // the peg still says (100, 100). Withdrawing 1000 share units returns
    // min(1000 * 100/100, 1000 * 900/1000) = 900: the unpegged model caps
    // the payout and spreads the loss.
    let s = setup_instance();
    let accounts = withdraw_accounts(&s);
    let solido = solido_state(&s, 100, 100);
    let mint_data = pack_mint_data(Some(&s.mint_authority), 1000);
    let reserve_data = pack_account_data(&s.st_sol_mint, &s.reserve_authority, 900);
    let outcome = process_withdraw(
        &s.program_id,
        &accounts,
        &s.anker_data,
        &solido,
        &mint_data,
        &reserve_data,
        BLamports(1000),
    )
    .unwrap();
    assert_eq!(outcome.transfer.amount, StLamports(900));
    assert_eq!(outcome.burn.amount, BLamports(1000));
}

#[test]
fn withdraw_takes_pegged_amount_when_it_is_smaller() {
    // Pegged: 1000 * 100 / 200 = 500; unpegged: 1000 * 1000 / 1000 = 1000.
    let s = setup_instance();
    let accounts = withdraw_accounts(&s);
    let solido = solido_state(&s, 200, 100);
    let mint_data = pack_mint_data(Some(&s.mint_authority), 1000);
    let reserve_data = pack_account_data(&s.st_sol_mint, &s.reserve_authority, 1000);
    let outcome = process_withdraw(
        &s.program_id,
        &accounts,
        &s.anker_data,
        &solido,
        &mint_data,
        &reserve_data,
        BLamports(1000),
    )
    .unwrap();
    assert_eq!(outcome.transfer.amount, StLamports(500));
}

#[test]
fn withdraw_with_wrong_reserve_fails_validation() {
    let s = setup_instance();
    let mut accounts = withdraw_accounts(&s);
    accounts.reserve_account = addr_of(&Pubkey::new_unique());
    let solido = solido_state(&s, 100, 100);
    let mint_data = pack_mint_data(Some(&s.mint_authority), 1000);
    let reserve_data = pack_account_data(&s.st_sol_mint, &s.reserve_authority, 1000);
    let r = process_withdraw(
        &s.program_id,
        &accounts,
        &s.anker_data,
        &solido,
        &mint_data,
        &reserve_data,
        BLamports(1000),
    );
    assert_eq!(r.unwrap_err(), AnkerError::InvalidReserveAccount);
}

#[test]
fn withdraw_rejects_foreign_reserve_token_type() {
    let s = setup_instance();
    let accounts = withdraw_accounts(&s);
    let solido = solido_state(&s, 100, 100);
    let mint_data = pack_mint_data(Some(&s.mint_authority), 1000);
    // The reserve holds some other token, not the staked one.
    let foreign = addr_of(&Pubkey::new_unique());
    let reserve_data = pack_account_data(&foreign, &s.reserve_authority, 1000);
    let r = process_withdraw(
        &s.program_id,
        &accounts,
        &s.anker_data,
        &solido,
        &mint_data,
        &reserve_data,
        BLamports(1000),
    );
    assert_eq!(r.unwrap_err(), AnkerError::InvalidTokenMint);
}

#[test]
fn process_dispatches_deposit_from_instruction_bytes() {
    let s = setup_instance();
    let accounts = deposit_accounts(&s);
    let solido = solido_state(&s, 100, 100);
    let request = OperationRequest::Deposit {
        accounts,
        anker_data: s.anker_data.clone(),
        solido,
    };
    let input = serialize_instruction(&AnkerInstruction::Deposit { amount: StLamports(1000) });
    match process(&s.program_id, &request, &input).unwrap() {
        OperationOutcome::Deposit(outcome) => {
            assert_eq!(outcome.mint.amount, BLamports(1000));
        }
        other => panic!("wrong outcome kind: {:?}", other),
    }
}

#[test]
fn process_rejects_mismatched_accounts() {
    let s = setup_instance();
    let input = serialize_instruction(&AnkerInstruction::Deposit { amount: StLamports(1) });
    let r = process(&s.program_id, &OperationRequest::ClaimRewards, &input);
    assert_eq!(r.unwrap_err(), AnkerError::WrongAccountsForInstruction);
}

#[test]
fn process_claim_rewards_is_unimplemented() {
    let s = setup_instance();
    let input = serialize_instruction(&AnkerInstruction::ClaimRewards);
    let r = process(&s.program_id, &OperationRequest::ClaimRewards, &input);
    assert_eq!(r.unwrap_err(), AnkerError::Unimplemented);
}

#[test]
fn deposit_rejects_undecodable_instance_record() {
    let s = setup_instance();
    let accounts = deposit_accounts(&s);
    let solido = solido_state(&s, 100, 100);
    let r = process_deposit(&s.program_id, &accounts, &[0u8; 99], &solido, StLamports(1));
    assert_eq!(r.unwrap_err(), AnkerError::InvalidInstanceData);
}

#[test]
fn deposit_rejects_wrong_solido_instance() {
    let s = setup_instance();
    let mut accounts = deposit_accounts(&s);
    accounts.solido = addr_of(&Pubkey::new_unique());
    let solido = solido_state(&s, 100, 100);
    let r = process_deposit(&s.program_id, &accounts, &s.anker_data, &solido, StLamports(1));
    assert_eq!(r.unwrap_err(), AnkerError::InvalidSolidoAccount);
}

#[test]
fn deposit_fails_arithmetic_on_zero_staked_supply() {
    let s = setup_instance();
    let accounts = deposit_accounts(&s);
    // No staked tokens issued yet: the pegged rate cannot convert.
    let solido = solido_state(&s, 100, 0);
    let r = process_deposit(&s.program_id, &accounts, &s.anker_data, &solido, StLamports(1));
    assert_eq!(r.unwrap_err(), AnkerError::ArithmeticError);
}

#[test]
fn stored_proof_integer_that_derives_nothing_is_invalid_seeds() {
    // Roughly half of all bump seeds yield no derived address at all. Find
    // one for this instance and store it as the reserve proof integer: the
    // validation then fails before any comparison can happen.
    let s = setup_instance();
    let decoded = anker::state::Anker::from_bytes(&s.anker_data).unwrap();
    let mut bad_bump = None;
    for bump in (0u8..=255).rev() {
        if anker::address::derive_reserve_account(&s.program_id, &s.anker, bump).is_none() {
            bad_bump = Some(bump);
            break;
        }
    }
    let tampered = anker::state::Anker {
        reserve_account_bump_seed: bad_bump.expect("some bump must fail to derive"),
        ..decoded
    };
    let anker_data = tampered.to_bytes();
    let accounts = deposit_accounts(&s);
    let solido = solido_state(&s, 100, 100);
    let r = process_deposit(&s.program_id, &accounts, &anker_data, &solido, StLamports(1));
    assert_eq!(r.unwrap_err(), AnkerError::InvalidSeeds);
}

#[test]
fn process_rejects_undecodable_input() {
    let s = setup_instance();
    let r = process(&s.program_id, &OperationRequest::ClaimRewards, &[9, 9, 9]);
    assert_eq!(r.unwrap_err(), AnkerError::InvalidInstructionData);
}
