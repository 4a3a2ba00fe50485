use auto_lend::errors::LendingError;
use auto_lend::fixed::{Fixed, SCALE};
use auto_lend::pool::{Bucket, Pool};

fn fx(units: i128) -> Fixed {
    Fixed { units }
}

#[test]
fn from_int_scales() {
    assert_eq!(Fixed::from_int(2).units, 2 * SCALE);
    assert_eq!(Fixed::from_int(-3).units, -3 * SCALE);
    assert_eq!(Fixed::zero().units, 0);
}

#[test]
fn plus_and_minus() {
    assert_eq!(fx(7).plus(fx(5)).units, 12);
    assert_eq!(fx(7).minus(fx(12)).units, -5);
}

#[test]
fn times_truncates_toward_zero() {
    // 5 subunits at a rate of one half: 2.5 subunits truncate to 2.
    assert_eq!(fx(5).times(fx(500_000_000_000)).units, 2);
    assert_eq!(fx(-5).times(fx(500_000_000_000)).units, -2);
    assert_eq!(Fixed::from_int(1000).times(fx(10_000_000_000)).units, 10 * SCALE);
}

#[test]
fn div_truncates_toward_zero() {
    assert_eq!(Fixed::from_int(1).div_by(Fixed::from_int(3)).units, 333_333_333_333);
    assert_eq!(Fixed::from_int(-1).div_by(Fixed::from_int(3)).units, -333_333_333_333);
    assert_eq!(Fixed::from_int(6).div_by(Fixed::from_int(-3)).units, -2 * SCALE);
}

#[test]
fn times_epochs_is_exact() {
    assert_eq!(fx(7).times_epochs(3).units, 21);
    assert_eq!(fx(-7).times_epochs(3).units, -21);
}

#[test]
fn comparisons() {
    assert!(fx(1).lt(fx(2)));
    assert!(!fx(2).lt(fx(2)));
    assert!(fx(2).le(fx(2)));
    assert!(!fx(3).le(fx(2)));
    assert!(fx(0).is_zero());
    assert!(!fx(1).is_zero());
}

#[test]
fn pool_credit_and_debit() {
    let mut pool = Pool::new(3);
    assert!(matches!(
        pool.debit(Fixed::from_int(5)),
        Err(LendingError::InsufficientPoolLiquidity)
    ));
    pool.credit(Bucket::new(3, Fixed::from_int(10)));
    assert_eq!(pool.balance.units, 10 * SCALE);
    let paid = pool.debit(Fixed::from_int(4)).unwrap();
    assert_eq!(paid.amount.units, 4 * SCALE);
    assert_eq!(paid.asset_kind, 3);
    assert_eq!(pool.balance.units, 6 * SCALE);
    assert!(matches!(
        pool.debit(Fixed::from_int(7)),
        Err(LendingError::InsufficientPoolLiquidity)
    ));
    assert_eq!(pool.balance.units, 6 * SCALE);
}

#[test]
fn bucket_take_splits() {
    let mut bucket = Bucket::new(1, Fixed::from_int(10));
    let part = bucket.take(Fixed::from_int(4));
    assert_eq!(part.amount.units, 4 * SCALE);
    assert_eq!(part.asset_kind, 1);
    assert_eq!(bucket.amount.units, 6 * SCALE);
    assert_eq!(bucket.asset_kind, 1);
}
