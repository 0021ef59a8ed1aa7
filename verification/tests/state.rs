use anker::address::Address;
use anker::error::AnkerError;
use anker::state::{Anker, SolidoState, ANKER_LEN};
use anker::token::{Lamports, StLamports};
use anker::token_account::{unpack_mint, unpack_token_account};
use solana_program::program_option::COption;
use solana_program::program_pack::Pack;
use solana_program::pubkey::Pubkey;

fn addr(pk: &Pubkey) -> Address {
    Address::new(pk.to_bytes().to_vec())
}

fn example_instance() -> Anker {
    Anker {
        b_sol_mint: addr(&Pubkey::new_unique()),
        solido_program_id: addr(&Pubkey::new_unique()),
        solido: addr(&Pubkey::new_unique()),
        self_bump_seed: 255,
        mint_authority_bump_seed: 254,
        reserve_authority_bump_seed: 3,
        reserve_account_bump_seed: 0,
    }
}

fn pack_mint(authority: Option<Pubkey>, supply: u64) -> Vec<u8> {
    let mint = spl_token::state::Mint {
        mint_authority: match authority {
            Some(a) => COption::Some(a),
            None => COption::None,
        },
        supply,
        decimals: 9,
        is_initialized: true,
        freeze_authority: COption::None,
    };
    let mut data = vec![0u8; spl_token::state::Mint::LEN];
    spl_token::state::Mint::pack(mint, &mut data).unwrap();
    data
}

fn pack_token_account(mint: &Pubkey, owner: &Pubkey, amount: u64) -> Vec<u8> {
    let account = spl_token::state::Account {
        mint: *mint,
        owner: *owner,
        amount,
        delegate: COption::None,
        state: spl_token::state::AccountState::Initialized,
        is_native: COption::None,
        delegated_amount: 0,
        close_authority: COption::None,
    };
    let mut data = vec![0u8; spl_token::state::Account::LEN];
    spl_token::state::Account::pack(account, &mut data).unwrap();
    data
}

#[test]
fn instance_record_round_trips() {
    let instance = example_instance();
    let bytes = instance.to_bytes();
    assert_eq!(bytes.len(), ANKER_LEN);
    let decoded = Anker::from_bytes(&bytes).unwrap();
    assert_eq!(decoded.b_sol_mint.bytes, instance.b_sol_mint.bytes);
    assert_eq!(decoded.solido_program_id.bytes, instance.solido_program_id.bytes);
    assert_eq!(decoded.solido.bytes, instance.solido.bytes);
    assert_eq!(decoded.self_bump_seed, instance.self_bump_seed);
    assert_eq!(decoded.mint_authority_bump_seed, instance.mint_authority_bump_seed);
    assert_eq!(decoded.reserve_authority_bump_seed, instance.reserve_authority_bump_seed);
    assert_eq!(decoded.reserve_account_bump_seed, instance.reserve_account_bump_seed);
}

#[test]
fn instance_record_rejects_wrong_length() {
    assert!(Anker::from_bytes(&[0u8; 99]).is_none());
    assert!(Anker::from_bytes(&[0u8; 101]).is_none());
    assert!(Anker::from_bytes(&[]).is_none());
}

#[test]
fn check_mint_compares_addresses() {
    let instance = example_instance();
    let same = instance.b_sol_mint.dup();
    assert!(instance.check_mint(&same).is_ok());
    let other = addr(&Pubkey::new_unique());
    assert_eq!(instance.check_mint(&other), Err(AnkerError::InvalidTokenMint));
}

#[test]
fn unpack_mint_reads_real_packed_data() {
    let authority = Pubkey::new_unique();
    let data = pack_mint(Some(authority), 123456789);
    let mint = unpack_mint(&data).unwrap();
    assert_eq!(mint.supply, 123456789);
    assert_eq!(mint.mint_authority.unwrap().bytes, authority.to_bytes().to_vec());

    let no_authority = pack_mint(None, 7);
    let mint = unpack_mint(&no_authority).unwrap();
    assert_eq!(mint.supply, 7);
    assert!(mint.mint_authority.is_none());
}

#[test]
fn unpack_mint_rejects_malformed_data() {
    assert!(unpack_mint(&[0u8; 10]).is_none());
    let mut data = pack_mint(Some(Pubkey::new_unique()), 1);
    // Corrupt the authority tag.
    data[0] = 9;
    assert!(unpack_mint(&data).is_none());
}

#[test]
fn unpack_token_account_reads_real_packed_data() {
    let mint = Pubkey::new_unique();
    let owner = Pubkey::new_unique();
    let data = pack_token_account(&mint, &owner, 987654321);
    let account = unpack_token_account(&data).unwrap();
    assert_eq!(account.amount, 987654321);
    assert_eq!(account.mint.bytes, mint.to_bytes().to_vec());
    assert_eq!(account.owner.bytes, owner.to_bytes().to_vec());
}

#[test]
fn unpack_token_account_rejects_malformed_data() {
    assert!(unpack_token_account(&[0u8; 164]).is_none());
    let mut data = pack_token_account(&Pubkey::new_unique(), &Pubkey::new_unique(), 1);
    // Corrupt the state byte.
    data[108] = 3;
    assert!(unpack_token_account(&data).is_none());
}

#[test]
fn check_is_st_sol_account_guards_token_type() {
    let instance = example_instance();
    let st_sol_mint = Pubkey::new_unique();
    let owner = Pubkey::new_unique();
    let solido = SolidoState {
        st_sol_mint: addr(&st_sol_mint),
        sol_balance: Lamports(100),
        st_sol_supply: StLamports(100),
    };
    let good = pack_token_account(&st_sol_mint, &owner, 42);
    let account = instance.check_is_st_sol_account(&solido, &good).unwrap();
    assert_eq!(account.amount, 42);

    let wrong_mint = pack_token_account(&Pubkey::new_unique(), &owner, 42);
    assert_eq!(
        instance.check_is_st_sol_account(&solido, &wrong_mint).unwrap_err(),
        AnkerError::InvalidTokenMint
    );

    assert_eq!(
        instance.check_is_st_sol_account(&solido, &[0u8; 5]).unwrap_err(),
        AnkerError::InvalidReserveAccount
    );
}

#[test]
fn address_equals_is_byte_for_byte() {
    let pk = Pubkey::new_unique();
    let a = addr(&pk);
    let b = addr(&pk);
    assert!(a.equals(&b));
    let mut bytes = pk.to_bytes().to_vec();
    bytes[31] ^= 1;
    let c = Address::new(bytes);
    assert!(!a.equals(&c));
}
