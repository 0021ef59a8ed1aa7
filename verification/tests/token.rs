use anker::token::{BLamports, Lamports, StLamports};

#[test]
fn lamports_checked_add_exact() {
    assert_eq!(Lamports(2).checked_add(Lamports(3)), Some(Lamports(5)));
    assert_eq!(Lamports(0).checked_add(Lamports(0)), Some(Lamports(0)));
    assert_eq!(Lamports(u64::MAX).checked_add(Lamports(0)), Some(Lamports(u64::MAX)));
}

#[test]
fn lamports_checked_add_overflow() {
    assert_eq!(Lamports(u64::MAX).checked_add(Lamports(1)), None);
    assert_eq!(Lamports(u64::MAX - 1).checked_add(Lamports(2)), None);
}

#[test]
fn lamports_checked_sub_exact() {
    assert_eq!(Lamports(5).checked_sub(Lamports(3)), Some(Lamports(2)));
    assert_eq!(Lamports(5).checked_sub(Lamports(5)), Some(Lamports(0)));
}

#[test]
fn lamports_checked_sub_underflow() {
    assert_eq!(Lamports(3).checked_sub(Lamports(5)), None);
    assert_eq!(Lamports(0).checked_sub(Lamports(1)), None);
}

#[test]
fn lamports_mul_scalar() {
    assert_eq!(Lamports(7).mul_scalar(6), Some(Lamports(42)));
    assert_eq!(Lamports(u64::MAX).mul_scalar(1), Some(Lamports(u64::MAX)));
    assert_eq!(Lamports(u64::MAX).mul_scalar(2), None);
}

#[test]
fn st_lamports_arithmetic() {
    assert_eq!(StLamports(10).checked_add(StLamports(20)), Some(StLamports(30)));
    assert_eq!(StLamports(10).checked_sub(StLamports(20)), None);
    assert_eq!(StLamports(u64::MAX).checked_add(StLamports(1)), None);
    assert_eq!(StLamports(3).mul_scalar(4), Some(StLamports(12)));
}

#[test]
fn b_lamports_arithmetic() {
    assert_eq!(BLamports(10).checked_add(BLamports(20)), Some(BLamports(30)));
    assert_eq!(BLamports(1).checked_sub(BLamports(1)), Some(BLamports(0)));
    assert_eq!(BLamports(u64::MAX).mul_scalar(u64::MAX), None);
}

#[test]
fn amounts_are_ordered() {
    assert!(Lamports(1) < Lamports(2));
    assert!(StLamports(5) >= StLamports(5));
    assert!(BLamports(7) > BLamports(0));
}
