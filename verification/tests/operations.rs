use auto_lend::account::User;
use auto_lend::errors::LendingError;
use auto_lend::fixed::{Fixed, SCALE};
use auto_lend::lending::AutoLend;
use auto_lend::pool::Bucket;

fn fx(units: i128) -> Fixed {
    Fixed { units }
}

fn whole(n: i64) -> Fixed {
    Fixed::from_int(n)
}

fn record(
    dep: i128,
    dep_rate: i128,
    dep_last: u64,
    bor: i128,
    bor_rate: i128,
    bor_last: u64,
) -> User {
    User {
        deposit_balance: fx(dep),
        deposit_interest_rate: fx(dep_rate),
        deposit_last_update: dep_last,
        borrow_balance: fx(bor),
        borrow_interest_rate: fx(bor_rate),
        borrow_last_update: bor_last,
    }
}

#[test]
fn instantiate_sets_protocol_constants() {
    let al = AutoLend::instantiate_autolend(9);
    assert_eq!(al.liquidity_pool.asset_kind, 9);
    assert_eq!(al.liquidity_pool.balance.units, 0);
    assert_eq!(al.min_collateral_ratio.units, 1_200_000_000_000);
    assert_eq!(al.max_borrow_percent.units, 300_000_000_000);
    assert_eq!(al.max_liquidation_percent.units, 500_000_000_000);
    assert_eq!(al.liquidation_bonus.units, 50_000_000_000);
    assert_eq!(al.deposit_interest_rate.units, 10_000_000_000);
    assert_eq!(al.borrow_interest_rate.units, 20_000_000_000);
}

#[test]
fn first_deposit_creates_record() {
    let mut al = AutoLend::instantiate_autolend(1);
    al.deposit(7, Bucket::new(1, whole(1000)), 10);
    let u = al.get_user(7).unwrap();
    assert_eq!(u.deposit_balance.units, 1000 * SCALE);
    assert_eq!(u.deposit_interest_rate.units, 10_000_000_000);
    assert_eq!(u.deposit_last_update, 10);
    assert_eq!(u.borrow_balance.units, 0);
    assert_eq!(u.borrow_last_update, 10);
    assert_eq!(al.liquidity_pool.balance.units, 1000 * SCALE);
}

#[test]
fn second_deposit_accrues_and_blends() {
    let mut al = AutoLend::instantiate_autolend(1);
    al.deposit(7, Bucket::new(1, whole(1000)), 10);
    al.deposit(7, Bucket::new(1, whole(500)), 11);
    let u = al.get_user(7).unwrap();
    assert_eq!(u.deposit_balance.units, 1520 * SCALE);
    assert_eq!(u.deposit_interest_rate.units, 10_000_000_000);
    assert_eq!(u.deposit_last_update, 11);
    assert_eq!(al.liquidity_pool.balance.units, 1500 * SCALE);
}

#[test]
fn same_epoch_deposit_still_accrues() {
    let mut al = AutoLend::instantiate_autolend(1);
    al.deposit(7, Bucket::new(1, whole(1000)), 10);
    al.deposit(7, Bucket::new(1, whole(500)), 10);
    let u = al.get_user(7).unwrap();
    assert_eq!(u.deposit_balance.units, 1510 * SCALE);
}

#[test]
fn redeem_scenario() {
    let mut al = AutoLend::instantiate_autolend(1);
    al.deposit(7, Bucket::new(1, whole(1000)), 10);
    let payout = al.redeem(7, whole(500), 11).unwrap();
    assert_eq!(payout.amount.units, 510 * SCALE);
    assert_eq!(payout.asset_kind, 1);
    let u = al.get_user(7).unwrap();
    assert_eq!(u.deposit_balance.units, 500 * SCALE);
    assert_eq!(al.liquidity_pool.balance.units, 490 * SCALE);
}

#[test]
fn redeem_unknown_account() {
    let mut al = AutoLend::instantiate_autolend(1);
    assert!(matches!(
        al.redeem(7, whole(1), 3),
        Err(LendingError::AccountNotFound)
    ));
}

#[test]
fn redeem_needs_pool_liquidity() {
    let mut al = AutoLend::instantiate_autolend(1);
    al.deposit(7, Bucket::new(1, whole(1000)), 10);
    // The payout of 1010 exceeds the pool's 1000.
    assert!(matches!(
        al.redeem(7, whole(1000), 10),
        Err(LendingError::InsufficientPoolLiquidity)
    ));
    assert_eq!(al.get_user(7).unwrap().deposit_balance.units, 1000 * SCALE);
    assert_eq!(al.liquidity_pool.balance.units, 1000 * SCALE);
}

#[test]
fn redeem_keeps_collateral_ratio() {
    let mut al = AutoLend::instantiate_autolend(1);
    al.deposit(7, Bucket::new(1, whole(1000)), 10);
    al.borrow(7, whole(250), 10).unwrap();
    assert!(matches!(
        al.redeem(7, whole(800), 10),
        Err(LendingError::CollateralBelowMinimum)
    ));
    assert_eq!(al.get_user(7).unwrap().deposit_balance.units, 1000 * SCALE);
}

#[test]
fn borrow_respects_utilization_cap() {
    let mut al = AutoLend::instantiate_autolend(1);
    al.deposit(7, Bucket::new(1, whole(1000)), 10);
    // The cap is 30% of the pool's 1000.
    assert!(matches!(
        al.borrow(7, whole(400), 10),
        Err(LendingError::UtilizationExceeded)
    ));
    let tokens = al.borrow(7, whole(250), 10).unwrap();
    assert_eq!(tokens.amount.units, 250 * SCALE);
    assert_eq!(tokens.asset_kind, 1);
    let u = al.get_user(7).unwrap();
    assert_eq!(u.borrow_balance.units, 250 * SCALE);
    assert_eq!(u.borrow_interest_rate.units, 20_000_000_000);
    assert_eq!(al.liquidity_pool.balance.units, 750 * SCALE);
}

#[test]
fn borrow_unknown_account() {
    let mut al = AutoLend::instantiate_autolend(1);
    al.deposit(7, Bucket::new(1, whole(100)), 5);
    assert!(matches!(
        al.borrow(8, whole(10), 5),
        Err(LendingError::AccountNotFound)
    ));
}

#[test]
fn borrow_below_min_ratio_refused() {
    let mut al = AutoLend::instantiate_autolend(1);
    al.deposit(7, Bucket::new(1, whole(100)), 10);
    al.deposit(8, Bucket::new(1, whole(900)), 10);
    // 100 of collateral against an 85 loan accruing to 86.7 is a
    // ratio of about 1.16, below the 1.2 minimum.
    assert!(matches!(
        al.borrow(7, whole(85), 10),
        Err(LendingError::CollateralBelowMinimum)
    ));
    assert_eq!(al.get_user(7).unwrap().borrow_balance.units, 0);
    assert_eq!(al.liquidity_pool.balance.units, 1000 * SCALE);
}

#[test]
fn repay_returns_change_and_closes_loan() {
    let mut al = AutoLend::instantiate_autolend(1);
    al.deposit(7, Bucket::new(1, whole(1000)), 12);
    al.borrow(7, whole(250), 12).unwrap();
    let change = al.repay(7, Bucket::new(1, whole(1000)), 12).unwrap();
    // The debt accrues to 255 before settlement.
    assert_eq!(change.amount.units, 745 * SCALE);
    let u = al.get_user(7).unwrap();
    assert_eq!(u.borrow_balance.units, 0);
    assert_eq!(u.borrow_interest_rate.units, 0);
    assert_eq!(al.liquidity_pool.balance.units, 1005 * SCALE);
}

#[test]
fn repay_unknown_account() {
    let mut al = AutoLend::instantiate_autolend(1);
    assert!(matches!(
        al.repay(7, Bucket::new(1, whole(10)), 3),
        Err(LendingError::AccountNotFound)
    ));
}

#[test]
fn liquidate_healthy_position_refused() {
    let mut al = AutoLend::instantiate_autolend(1);
    al.users
        .insert(5, record(500 * SCALE, 10_000_000_000, 12, 250 * SCALE, 20_000_000_000, 12));
    al.last_epoch = 12;
    // Ratio just under 1.9804 is above the 1.2 minimum: not liquidatable.
    assert!(matches!(
        al.liquidate(5, Bucket::new(1, whole(45)), 12),
        Err(LendingError::LiquidationNotAllowed)
    ));
}

#[test]
fn liquidate_size_cap() {
    let mut al = AutoLend::instantiate_autolend(1);
    al.users
        .insert(5, record(100 * SCALE, 10_000_000_000, 12, 90 * SCALE, 20_000_000_000, 12));
    al.last_epoch = 12;
    // 54 is 60% of the 90 debt; the cap is 50%.
    assert!(matches!(
        al.liquidate(5, Bucket::new(1, whole(54)), 12),
        Err(LendingError::LiquidationSizeExceeded)
    ));
}

#[test]
fn liquidate_without_debt_refused() {
    let mut al = AutoLend::instantiate_autolend(1);
    al.users.insert(5, record(500 * SCALE, 10_000_000_000, 12, 0, 0, 12));
    al.last_epoch = 12;
    assert!(matches!(
        al.liquidate(5, Bucket::new(1, whole(10)), 12),
        Err(LendingError::NoOutstandingDebt)
    ));
}

#[test]
fn liquidate_unknown_account() {
    let mut al = AutoLend::instantiate_autolend(1);
    assert!(matches!(
        al.liquidate(5, Bucket::new(1, whole(10)), 3),
        Err(LendingError::AccountNotFound)
    ));
}

#[test]
fn liquidate_needs_pool_liquidity() {
    let mut al = AutoLend::instantiate_autolend(1);
    al.users
        .insert(5, record(100 * SCALE, 10_000_000_000, 12, 90 * SCALE, 20_000_000_000, 12));
    al.last_epoch = 12;
    // The payout of 47.25 exceeds the empty pool plus the 45 repaid.
    assert!(matches!(
        al.liquidate(5, Bucket::new(1, whole(45)), 12),
        Err(LendingError::InsufficientPoolLiquidity)
    ));
    assert_eq!(al.liquidity_pool.balance.units, 0);
}

#[test]
fn liquidate_pays_bonus_from_collateral() {
    let mut al = AutoLend::instantiate_autolend(1);
    al.deposit(2, Bucket::new(1, whole(100)), 12);
    al.users
        .insert(5, record(100 * SCALE, 10_000_000_000, 12, 90 * SCALE, 20_000_000_000, 12));
    let payout = al.liquidate(5, Bucket::new(1, whole(45)), 12).unwrap();
    assert_eq!(payout.amount.units, 47_250_000_000_000);
    assert_eq!(payout.asset_kind, 1);
    let u = al.get_user(5).unwrap();
    assert_eq!(u.borrow_balance.units, 46_800_000_000_000);
    assert_eq!(u.deposit_balance.units, 52_750_000_000_000);
    // The repayment joins the pool before the payout leaves it.
    assert_eq!(
        al.liquidity_pool.balance.units,
        100 * SCALE + 45 * SCALE - 47_250_000_000_000
    );
}

#[test]
fn set_rates_apply_to_new_positions() {
    let mut al = AutoLend::instantiate_autolend(1);
    al.set_deposit_interest_rate(fx(50_000_000_000));
    al.set_borrow_interest_rate(fx(30_000_000_000));
    al.deposit(7, Bucket::new(1, whole(1000)), 5);
    assert_eq!(al.get_user(7).unwrap().deposit_interest_rate.units, 50_000_000_000);
    al.borrow(7, whole(100), 5).unwrap();
    assert_eq!(al.get_user(7).unwrap().borrow_interest_rate.units, 30_000_000_000);
}

#[test]
fn redeem_without_balance_check_goes_negative() {
    // The engine deducts the redeemed amount without checking it
    // against the stored balance first; with no loan open, no ratio
    // check catches the shortfall either.
    let mut al = AutoLend::instantiate_autolend(1);
    al.deposit(7, Bucket::new(1, whole(100)), 10);
    al.deposit(8, Bucket::new(1, whole(1000)), 10);
    let payout = al.redeem(7, whole(150), 10).unwrap();
    assert_eq!(payout.amount.units, 151_500_000_000_000);
    assert_eq!(al.get_user(7).unwrap().deposit_balance.units, -50 * SCALE);
}

#[test]
fn accounts_are_independent() {
    let mut al = AutoLend::instantiate_autolend(1);
    al.deposit(7, Bucket::new(1, whole(1000)), 10);
    al.deposit(8, Bucket::new(1, whole(200)), 10);
    al.redeem(7, whole(100), 10).unwrap();
    let other = al.get_user(8).unwrap();
    assert_eq!(other.deposit_balance.units, 200 * SCALE);
    assert_eq!(other.deposit_last_update, 10);
    assert_eq!(al.get_user(7).unwrap().deposit_balance.units, 900 * SCALE);
}

#[test]
fn get_user_unknown_account() {
    let al = AutoLend::instantiate_autolend(1);
    assert!(matches!(al.get_user(7), Err(LendingError::AccountNotFound)));
}
