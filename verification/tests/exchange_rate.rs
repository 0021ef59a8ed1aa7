use anker::error::AnkerError;
use anker::exchange_rate::ExchangeRate;
use anker::token::{BLamports, Lamports, StLamports};

#[test]
fn pegged_rate_counts_staked_balance_as_share_tokens() {
    let rate = ExchangeRate::from_solido_pegged(Lamports(150), StLamports(100));
    assert_eq!(rate.st_sol_amount, StLamports(100));
    assert_eq!(rate.b_sol_amount, BLamports(150));
}

#[test]
fn unpegged_rate_uses_reserve_and_supply() {
    let rate = ExchangeRate::from_anker_unpegged(BLamports(1000), StLamports(900));
    assert_eq!(rate.st_sol_amount, StLamports(900));
    assert_eq!(rate.b_sol_amount, BLamports(1000));
}

#[test]
fn exchange_st_sol_exact_value() {
    // 1 stSOL is worth 1.5 SOL, so 10 stSOL mint 15 bSOL.
    let rate = ExchangeRate::from_solido_pegged(Lamports(150), StLamports(100));
    assert_eq!(rate.exchange_st_sol(StLamports(10)), Ok(BLamports(15)));
}

#[test]
fn exchange_st_sol_floors() {
    // 10 * 2 / 3 = 6.66..., floored to 6.
    let rate = ExchangeRate::from_solido_pegged(Lamports(2), StLamports(3));
    assert_eq!(rate.exchange_st_sol(StLamports(10)), Ok(BLamports(6)));
}

#[test]
fn exchange_st_sol_rejects_zero_staked_side() {
    let rate = ExchangeRate::from_solido_pegged(Lamports(100), StLamports(0));
    assert_eq!(rate.exchange_st_sol(StLamports(1)), Err(AnkerError::ArithmeticError));
}

#[test]
fn exchange_st_sol_rejects_overflowing_result() {
    let rate = ExchangeRate::from_solido_pegged(Lamports(u64::MAX), StLamports(1));
    assert_eq!(rate.exchange_st_sol(StLamports(2)), Err(AnkerError::ArithmeticError));
}

#[test]
fn exchange_st_sol_wide_intermediate_product_is_exact() {
    // amount * b_sol_amount overflows 64 bits, but the result still fits.
    let rate = ExchangeRate::from_solido_pegged(Lamports(u64::MAX), StLamports(u64::MAX));
    assert_eq!(rate.exchange_st_sol(StLamports(u64::MAX - 1)), Ok(BLamports(u64::MAX - 1)));
}

#[test]
fn exchange_b_sol_exact_value() {
    // The unpegged model pays each share its fraction of the reserve.
    let rate = ExchangeRate::from_anker_unpegged(BLamports(1000), StLamports(900));
    assert_eq!(rate.exchange_b_sol(BLamports(1000)), Ok(StLamports(900)));
}

#[test]
fn exchange_b_sol_rejects_zero_share_side() {
    let rate = ExchangeRate::from_anker_unpegged(BLamports(0), StLamports(900));
    assert_eq!(rate.exchange_b_sol(BLamports(1)), Err(AnkerError::ArithmeticError));
}

#[test]
fn round_trip_never_gains() {
    let cases = [
        (100u64, 100u64, 1000u64),
        (150, 100, 999),
        (2, 3, 10),
        (7, 13, 12345),
        (1394458971361025, 1367327673971744, 987654321),
    ];
    for (sol, st_sol, amount) in cases {
        let rate = ExchangeRate::from_solido_pegged(Lamports(sol), StLamports(st_sol));
        let minted = rate.exchange_st_sol(StLamports(amount)).unwrap();
        let back = rate.exchange_b_sol(minted).unwrap();
        assert!(back.0 <= amount, "round trip gained value: {} -> {}", amount, back.0);
    }
}
