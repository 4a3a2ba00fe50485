//! The lending orchestrator.
//!
//! Composes the account engine, the collateral check and the pool
//! accountant into the public operations: deposit, redeem, borrow,
//! repay and liquidate.  Every operation loads the caller's record,
//! brings it up to date as of the current epoch, applies the requested
//! change, checks the resulting position where required, and commits
//! the record and the pool change together — a refused operation
//! leaves the whole state untouched.

use crate::account::{
    borrow_fits, borrow_step, collateral_ratio, deposit_fits, deposit_step, initial_user,
    lemma_accrued_grows, lemma_borrow_preserves_wf, liquidate_fits, liquidate_payout,
    liquidate_step, payout_fits, ratio_fits, ratio_ok, redeem_payout, redeem_step, repay_change,
    repay_fits, repay_step, User,
};
use crate::errors::LendingError;
use crate::fixed::{abs_val, fmul, in_i128, lemma_fmul_nonneg, lemma_fmul_unit_bound, Fixed, SCALE};
use crate::pool::{Bucket, Pool};
use std::collections::HashMap;
use vstd::prelude::*;

verus! {

broadcast use vstd::std_specs::hash::group_hash_axioms;

/// Minimum collateral ratio a borrower must maintain: 1.2.
pub const MIN_COLLATERAL_RATIO: i128 = 1_200_000_000_000;

/// Largest share of the pool's liquidity one borrow may take: 0.3.
pub const MAX_BORROW_PERCENT: i128 = 300_000_000_000;

/// Largest share of a debt one liquidation may repay: 0.5.
pub const MAX_LIQUIDATION_PERCENT: i128 = 500_000_000_000;

/// Liquidation bonus share: 0.05.
pub const LIQUIDATION_BONUS: i128 = 50_000_000_000;

/// Default per-epoch interest rate of deposits: 0.01.
pub const DEFAULT_DEPOSIT_INTEREST_RATE: i128 = 10_000_000_000;

/// Default per-epoch interest rate of loans: 0.02.
pub const DEFAULT_BORROW_INTEREST_RATE: i128 = 20_000_000_000;

/// The lending pool with its configuration and its account ledger.
pub struct AutoLend {
    /// The liquidity pool.
    pub liquidity_pool: Pool,
    /// The minimum collateral ratio a borrower must maintain.
    pub min_collateral_ratio: Fixed,
    /// The largest share of pool liquidity one borrow may take.
    pub max_borrow_percent: Fixed,
    /// The largest share of a debt one liquidation may repay.
    pub max_liquidation_percent: Fixed,
    /// The liquidation bonus share.
    pub liquidation_bonus: Fixed,
    /// Account records, by opaque identity.
    pub users: HashMap<u64, User>,
    /// Per-epoch interest rate applied to new deposits.
    pub deposit_interest_rate: Fixed,
    /// Per-epoch interest rate applied to new loans.
    pub borrow_interest_rate: Fixed,
    /// The highest epoch any operation has seen; the host clock never
    /// moves backwards.
    pub last_epoch: u64,
}

impl AutoLend {
    /// Every account record is well-formed and was last updated no
    /// later than the newest epoch seen.
    pub open spec fn users_wf(self) -> bool {
        forall|id: u64| #[trigger] self.users@.contains_key(id) ==> {
            &&& self.users@[id].wf()
            &&& self.users@[id].deposit_last_update <= self.last_epoch
            &&& self.users@[id].borrow_last_update <= self.last_epoch
        }
    }

    /// Invariant of every reachable pool state: the protocol limits
    /// hold their fixed values, the adjustable rates are non-negative,
    /// the pool is solvent, and every record is well-formed.
    pub open spec fn wf(self) -> bool {
        &&& self.liquidity_pool.wf()
        &&& self.min_collateral_ratio@ == MIN_COLLATERAL_RATIO
        &&& self.max_borrow_percent@ == MAX_BORROW_PERCENT
        &&& self.max_liquidation_percent@ == MAX_LIQUIDATION_PERCENT
        &&& self.liquidation_bonus@ == LIQUIDATION_BONUS
        &&& self.deposit_interest_rate@ >= 0
        &&& self.borrow_interest_rate@ >= 0
        &&& self.users_wf()
    }

    /// The configuration is carried over unchanged.
    pub open spec fn same_config(self, other: AutoLend) -> bool {
        &&& self.liquidity_pool.asset_kind == other.liquidity_pool.asset_kind
        &&& self.min_collateral_ratio == other.min_collateral_ratio
        &&& self.max_borrow_percent == other.max_borrow_percent
        &&& self.max_liquidation_percent == other.max_liquidation_percent
        &&& self.liquidation_bonus == other.liquidation_bonus
        &&& self.deposit_interest_rate == other.deposit_interest_rate
        &&& self.borrow_interest_rate == other.borrow_interest_rate
    }

    /// Creates a lending pool accepting a single fungible asset kind,
    /// with the protocol's fixed limits and default rates.
    pub fn instantiate_autolend(reserve_address: u64) -> (r: AutoLend)
        ensures
            r.wf(),
            r.liquidity_pool.asset_kind == reserve_address,
            r.liquidity_pool.balance@ == 0,
            r.liquidity_pool.credits@ == 0,
            r.liquidity_pool.debits@ == 0,
            r.users@ == Map::<u64, User>::empty(),
            r.deposit_interest_rate@ == DEFAULT_DEPOSIT_INTEREST_RATE,
            r.borrow_interest_rate@ == DEFAULT_BORROW_INTEREST_RATE,
            r.last_epoch == 0,
    {
        AutoLend {
            liquidity_pool: Pool::new(reserve_address),
            min_collateral_ratio: Fixed { units: MIN_COLLATERAL_RATIO },
            max_borrow_percent: Fixed { units: MAX_BORROW_PERCENT },
            max_liquidation_percent: Fixed { units: MAX_LIQUIDATION_PERCENT },
            liquidation_bonus: Fixed { units: LIQUIDATION_BONUS },
            users: HashMap::new(),
            deposit_interest_rate: Fixed { units: DEFAULT_DEPOSIT_INTEREST_RATE },
            borrow_interest_rate: Fixed { units: DEFAULT_BORROW_INTEREST_RATE },
            last_epoch: 0,
        }
    }

    /// The current record of `user_id`, or `AccountNotFound`.
    pub fn get_user(&self, user_id: u64) -> (r: Result<User, LendingError>)
        ensures
            match r {
                Ok(u) => self.users@.contains_key(user_id) && u == self.users@[user_id],
                Err(e) => e == LendingError::AccountNotFound && !self.users@.contains_key(
                    user_id,
                ),
            },
    {
        match self.users.get(&user_id) {
            Some(u) => Ok(*u),
            None => Err(LendingError::AccountNotFound),
        }
    }

    /// Deposits a bucket of the reserve asset and starts earning
    /// interest; a first deposit creates the account record.  No
    /// ratio check applies: a deposit can only improve a position.
    pub fn deposit(&mut self, user_id: u64, reserve_tokens: Bucket, now: u64)
        requires
            old(self).wf(),
            now >= old(self).last_epoch,
            reserve_tokens.wf(),
            reserve_tokens.asset_kind == old(self).liquidity_pool.asset_kind,
            in_i128(old(self).liquidity_pool.balance@ + reserve_tokens.amount@),
            old(self).users@.contains_key(user_id) ==> deposit_fits(
                old(self).users@[user_id],
                reserve_tokens.amount@,
                old(self).deposit_interest_rate@,
                now,
            ),
        ensures
            final(self).wf(),
            final(self).same_config(*old(self)),
            final(self).last_epoch == now,
            final(self).users@ == old(self).users@.insert(
                user_id,
                if old(self).users@.contains_key(user_id) {
                    deposit_step(
                        old(self).users@[user_id],
                        reserve_tokens.amount@,
                        old(self).deposit_interest_rate@,
                        now,
                    )
                } else {
                    initial_user(reserve_tokens.amount@, old(self).deposit_interest_rate@, now)
                },
            ),
            final(self).liquidity_pool.balance@ == old(self).liquidity_pool.balance@
                + reserve_tokens.amount@,
            final(self).liquidity_pool.credits@ == old(self).liquidity_pool.credits@
                + reserve_tokens.amount@,
            final(self).liquidity_pool.debits@ == old(self).liquidity_pool.debits@,
    {
        let amount = reserve_tokens.amount;
        let deposit_interest_rate = self.deposit_interest_rate;
        let user: User = match self.users.get(&user_id) {
            Some(u) => {
                let mut updated = *u;
                updated.on_deposit(amount, deposit_interest_rate, now);
                updated
            },
            None => User {
                deposit_balance: amount,
                deposit_interest_rate,
                deposit_last_update: now,
                borrow_balance: Fixed::zero(),
                borrow_interest_rate: Fixed::zero(),
                borrow_last_update: now,
            },
        };
        self.users.insert(user_id, user);
        self.liquidity_pool.credit(reserve_tokens);
        self.last_epoch = now;
    }

    /// Redeems `amount` of the deposit, paying the amount plus the
    /// interest owed on the withdrawn portion.  The post-redemption
    /// position must keep the minimum collateral ratio, and the pool
    /// must cover the payout.
    pub fn redeem(&mut self, user_id: u64, amount: Fixed, now: u64) -> (r: Result<
        Bucket,
        LendingError,
    >)
        requires
            old(self).wf(),
            now >= old(self).last_epoch,
            amount@ >= 0,
            old(self).users@.contains_key(user_id) ==> {
                let u = old(self).users@[user_id];
                &&& payout_fits(u, amount@, now)
                &&& redeem_payout(u, amount@, now) >= 0
                &&& (redeem_step(u, amount@).borrow_balance@ != 0 ==> ratio_fits(
                    redeem_step(u, amount@),
                    now,
                ))
            },
        ensures
            match r {
                Ok(tokens) => {
                    let u = old(self).users@[user_id];
                    &&& old(self).users@.contains_key(user_id)
                    &&& ratio_ok(redeem_step(u, amount@), MIN_COLLATERAL_RATIO as int, now)
                    &&& tokens.amount@ == redeem_payout(u, amount@, now)
                    &&& tokens.amount@ <= old(self).liquidity_pool.balance@
                    &&& tokens.asset_kind == old(self).liquidity_pool.asset_kind
                    &&& tokens.wf()
                    &&& final(self).users@ == old(self).users@.insert(
                        user_id,
                        redeem_step(u, amount@),
                    )
                    &&& final(self).liquidity_pool.balance@ == old(
                        self,
                    ).liquidity_pool.balance@ - tokens.amount@
                    &&& final(self).liquidity_pool.credits@ == old(self).liquidity_pool.credits@
                    &&& final(self).liquidity_pool.debits@ == old(self).liquidity_pool.debits@
                        + tokens.amount@
                    &&& final(self).last_epoch == now
                    &&& final(self).same_config(*old(self))
                    &&& final(self).wf()
                },
                Err(e) => {
                    let u = old(self).users@[user_id];
                    &&& *final(self) == *old(self)
                    &&& (e == LendingError::AccountNotFound <==> !old(
                        self,
                    ).users@.contains_key(user_id))
                    &&& (e == LendingError::CollateralBelowMinimum ==> old(
                        self,
                    ).users@.contains_key(user_id) && !ratio_ok(
                        redeem_step(u, amount@),
                        MIN_COLLATERAL_RATIO as int,
                        now,
                    ))
                    &&& (e == LendingError::InsufficientPoolLiquidity ==> old(
                        self,
                    ).users@.contains_key(user_id) && ratio_ok(
                        redeem_step(u, amount@),
                        MIN_COLLATERAL_RATIO as int,
                        now,
                    ) && redeem_payout(u, amount@, now) > old(self).liquidity_pool.balance@)
                    &&& (e == LendingError::AccountNotFound || e
                        == LendingError::CollateralBelowMinimum || e
                        == LendingError::InsufficientPoolLiquidity)
                },
            },
    {
        let mut user = match self.get_user(user_id) {
            Ok(u) => u,
            Err(e) => {
                return Err(e);
            },
        };
        let to_return_amount = user.on_redeem(amount, now);
        if let Err(e) = user.check_collateral_ratio(self.min_collateral_ratio, now) {
            return Err(e);
        }
        let tokens = match self.liquidity_pool.debit(to_return_amount) {
            Ok(b) => b,
            Err(e) => {
                return Err(e);
            },
        };
        self.users.insert(user_id, user);
        self.last_epoch = now;
        Ok(tokens)
    }

    /// Borrows `requested` from the pool, capped at the fixed share of
    /// current pool liquidity; the post-borrow position must keep the
    /// minimum collateral ratio.
    pub fn borrow(&mut self, user_id: u64, requested: Fixed, now: u64) -> (r: Result<
        Bucket,
        LendingError,
    >)
        requires
            old(self).wf(),
            now >= old(self).last_epoch,
            requested@ >= 0,
            abs_val(old(self).liquidity_pool.balance@ * MAX_BORROW_PERCENT) <= i128::MAX,
            old(self).users@.contains_key(user_id) ==> {
                let u = old(self).users@[user_id];
                let stepped = borrow_step(u, requested@, old(self).borrow_interest_rate@, now);
                &&& borrow_fits(u, requested@, old(self).borrow_interest_rate@, now)
                &&& (stepped.borrow_balance@ != 0 ==> ratio_fits(stepped, now))
            },
        ensures
            match r {
                Ok(tokens) => {
                    let u = old(self).users@[user_id];
                    let stepped = borrow_step(u, requested@, old(self).borrow_interest_rate@, now);
                    &&& old(self).users@.contains_key(user_id)
                    &&& requested@ <= fmul(
                        old(self).liquidity_pool.balance@,
                        MAX_BORROW_PERCENT as int,
                    )
                    &&& ratio_ok(stepped, MIN_COLLATERAL_RATIO as int, now)
                    &&& tokens.amount == requested
                    &&& tokens.asset_kind == old(self).liquidity_pool.asset_kind
                    &&& tokens.wf()
                    &&& final(self).users@ == old(self).users@.insert(user_id, stepped)
                    &&& final(self).liquidity_pool.balance@ == old(
                        self,
                    ).liquidity_pool.balance@ - requested@
                    &&& final(self).liquidity_pool.credits@ == old(self).liquidity_pool.credits@
                    &&& final(self).liquidity_pool.debits@ == old(self).liquidity_pool.debits@
                        + requested@
                    &&& final(self).last_epoch == now
                    &&& final(self).same_config(*old(self))
                    &&& final(self).wf()
                },
                Err(e) => {
                    let u = old(self).users@[user_id];
                    let stepped = borrow_step(u, requested@, old(self).borrow_interest_rate@, now);
                    let cap = fmul(old(self).liquidity_pool.balance@, MAX_BORROW_PERCENT as int);
                    &&& *final(self) == *old(self)
                    &&& (e == LendingError::UtilizationExceeded <==> requested@ > cap)
                    &&& (e == LendingError::AccountNotFound ==> requested@ <= cap && !old(
                        self,
                    ).users@.contains_key(user_id))
                    &&& (e == LendingError::CollateralBelowMinimum ==> requested@ <= cap && old(
                        self,
                    ).users@.contains_key(user_id) && !ratio_ok(
                        stepped,
                        MIN_COLLATERAL_RATIO as int,
                        now,
                    ))
                    &&& (e == LendingError::UtilizationExceeded || e
                        == LendingError::AccountNotFound || e
                        == LendingError::CollateralBelowMinimum)
                },
            },
    {
        let cap = self.liquidity_pool.balance.times(self.max_borrow_percent);
        if cap.lt(requested) {
            return Err(LendingError::UtilizationExceeded);
        }
        let borrow_interest_rate = self.borrow_interest_rate;
        let mut user = match self.get_user(user_id) {
            Ok(u) => u,
            Err(e) => {
                return Err(e);
            },
        };
        proof {
            lemma_borrow_preserves_wf(user, requested@, borrow_interest_rate@, now);
        }
        user.on_borrow(requested, borrow_interest_rate, now);
        if let Err(e) = user.check_collateral_ratio(self.min_collateral_ratio, now) {
            return Err(e);
        }
        proof {
            lemma_fmul_unit_bound(self.liquidity_pool.balance@, MAX_BORROW_PERCENT as int);
        }
        let tokens = match self.liquidity_pool.debit(requested) {
            Ok(b) => b,
            Err(e) => {
                proof {
                    assert(false);
                }
                return Err(e);
            },
        };
        self.users.insert(user_id, user);
        self.last_epoch = now;
        Ok(tokens)
    }

    /// Settles a repayment against the accrued debt: the consumed part
    /// goes to the pool and any overpayment comes back as change.
    pub fn repay(&mut self, user_id: u64, repaid: Bucket, now: u64) -> (r: Result<
        Bucket,
        LendingError,
    >)
        requires
            old(self).wf(),
            now >= old(self).last_epoch,
            repaid.wf(),
            repaid.asset_kind == old(self).liquidity_pool.asset_kind,
            old(self).users@.contains_key(user_id) ==> {
                let u = old(self).users@[user_id];
                &&& repay_fits(u, now)
                &&& in_i128(old(self).liquidity_pool.balance@ + repaid.amount@)
            },
        ensures
            match r {
                Ok(change) => {
                    let u = old(self).users@[user_id];
                    &&& old(self).users@.contains_key(user_id)
                    &&& change.amount@ == repay_change(u, repaid.amount@, now)
                    &&& change.asset_kind == old(self).liquidity_pool.asset_kind
                    &&& change.wf()
                    &&& final(self).users@ == old(self).users@.insert(
                        user_id,
                        repay_step(u, repaid.amount@, now),
                    )
                    &&& final(self).liquidity_pool.balance@ == old(
                        self,
                    ).liquidity_pool.balance@ + repaid.amount@ - change.amount@
                    &&& final(self).liquidity_pool.credits@ == old(self).liquidity_pool.credits@
                        + repaid.amount@ - change.amount@
                    &&& final(self).liquidity_pool.debits@ == old(self).liquidity_pool.debits@
                    &&& final(self).last_epoch == now
                    &&& final(self).same_config(*old(self))
                    &&& final(self).wf()
                },
                Err(e) => {
                    &&& *final(self) == *old(self)
                    &&& e == LendingError::AccountNotFound
                    &&& !old(self).users@.contains_key(user_id)
                },
            },
    {
        let mut repaid = repaid;
        let mut user = match self.get_user(user_id) {
            Ok(u) => u,
            Err(e) => {
                return Err(e);
            },
        };
        proof {
            lemma_accrued_grows(
                user.borrow_balance@,
                user.borrow_interest_rate@,
                user.borrow_last_update,
                now,
            );
        }
        let to_return_amount = user.on_repay(repaid.amount, now);
        let to_return = repaid.take(to_return_amount);
        self.users.insert(user_id, user);
        self.liquidity_pool.credit(repaid);
        self.last_epoch = now;
        Ok(to_return)
    }

    /// Liquidates an under-collateralized position: a third party
    /// repays part of the debt, the repayment joins the pool, and the
    /// liquidator receives the repayment plus the liquidation bonus
    /// share, seized from the target's deposit.
    pub fn liquidate(&mut self, user_id: u64, repaid: Bucket, now: u64) -> (r: Result<
        Bucket,
        LendingError,
    >)
        requires
            old(self).wf(),
            now >= old(self).last_epoch,
            repaid.wf(),
            repaid.asset_kind == old(self).liquidity_pool.asset_kind,
            in_i128(old(self).liquidity_pool.balance@ + repaid.amount@),
            old(self).users@.contains_key(user_id) ==> {
                let u = old(self).users@[user_id];
                &&& (u.borrow_balance@ != 0 ==> ratio_fits(u, now))
                &&& abs_val(u.borrow_balance@ * MAX_LIQUIDATION_PERCENT) <= i128::MAX
                &&& liquidate_fits(u, repaid.amount@, LIQUIDATION_BONUS as int, now)
            },
        ensures
            match r {
                Ok(tokens) => {
                    let u = old(self).users@[user_id];
                    &&& old(self).users@.contains_key(user_id)
                    &&& u.borrow_balance@ != 0
                    &&& collateral_ratio(u, now) <= MIN_COLLATERAL_RATIO as int
                    &&& repaid.amount@ <= fmul(u.borrow_balance@, MAX_LIQUIDATION_PERCENT as int)
                    &&& repay_change(u, repaid.amount@, now) == 0
                    &&& tokens.amount@ == liquidate_payout(repaid.amount@, LIQUIDATION_BONUS as int)
                    &&& tokens.amount@ <= old(self).liquidity_pool.balance@ + repaid.amount@
                    &&& tokens.asset_kind == old(self).liquidity_pool.asset_kind
                    &&& tokens.wf()
                    &&& final(self).users@ == old(self).users@.insert(
                        user_id,
                        liquidate_step(u, repaid.amount@, LIQUIDATION_BONUS as int, now),
                    )
                    &&& final(self).liquidity_pool.balance@ == old(self).liquidity_pool.balance@
                        + repaid.amount@ - tokens.amount@
                    &&& final(self).liquidity_pool.credits@ == old(self).liquidity_pool.credits@
                        + repaid.amount@
                    &&& final(self).liquidity_pool.debits@ == old(self).liquidity_pool.debits@
                        + tokens.amount@
                    &&& final(self).last_epoch == now
                    &&& final(self).same_config(*old(self))
                    &&& final(self).wf()
                },
                Err(e) => {
                    let u = old(self).users@[user_id];
                    let found = old(self).users@.contains_key(user_id);
                    let liquidatable = found && u.borrow_balance@ != 0 && collateral_ratio(u, now)
                        <= MIN_COLLATERAL_RATIO as int;
                    let cap = fmul(u.borrow_balance@, MAX_LIQUIDATION_PERCENT as int);
                    let payout = liquidate_payout(repaid.amount@, LIQUIDATION_BONUS as int);
                    &&& *final(self) == *old(self)
                    &&& (e == LendingError::AccountNotFound <==> !found)
                    &&& (e == LendingError::NoOutstandingDebt <==> found && u.borrow_balance@
                        == 0)
                    &&& (e == LendingError::LiquidationNotAllowed <==> found && u.borrow_balance@
                        != 0 && collateral_ratio(u, now) > MIN_COLLATERAL_RATIO as int)
                    &&& (e == LendingError::LiquidationSizeExceeded <==> liquidatable
                        && repaid.amount@ > cap)
                    &&& (e == LendingError::LiquidationOverpaid <==> liquidatable
                        && repaid.amount@ <= cap && repay_change(u, repaid.amount@, now) != 0)
                    &&& (e == LendingError::InsufficientPoolLiquidity <==> liquidatable
                        && repaid.amount@ <= cap && repay_change(u, repaid.amount@, now) == 0
                        && payout > old(self).liquidity_pool.balance@ + repaid.amount@)
                    &&& (e == LendingError::AccountNotFound || e
                        == LendingError::NoOutstandingDebt || e
                        == LendingError::LiquidationNotAllowed || e
                        == LendingError::LiquidationSizeExceeded || e
                        == LendingError::LiquidationOverpaid || e
                        == LendingError::InsufficientPoolLiquidity)
                },
            },
    {
        let mut user = match self.get_user(user_id) {
            Ok(u) => u,
            Err(e) => {
                return Err(e);
            },
        };
        match user.get_collateral_ratio(now) {
            Some(ratio) => {
                if self.min_collateral_ratio.lt(ratio) {
                    return Err(LendingError::LiquidationNotAllowed);
                }
            },
            None => {
                return Err(LendingError::NoOutstandingDebt);
            },
        }
        let cap = user.borrow_balance.times(self.max_liquidation_percent);
        if cap.lt(repaid.amount) {
            return Err(LendingError::LiquidationSizeExceeded);
        }
        let to_return_amount = match user.on_liquidate(repaid.amount, self.liquidation_bonus, now) {
            Ok(payout) => payout,
            Err(e) => {
                return Err(e);
            },
        };
        proof {
            lemma_fmul_nonneg(repaid.amount@, LIQUIDATION_BONUS + SCALE);
        }
        if self.liquidity_pool.balance.plus(repaid.amount).lt(to_return_amount) {
            return Err(LendingError::InsufficientPoolLiquidity);
        }
        self.liquidity_pool.credit(repaid);
        let to_return = match self.liquidity_pool.debit(to_return_amount) {
            Ok(b) => b,
            Err(e) => {
                proof {
                    assert(false);
                }
                return Err(e);
            },
        };
        self.users.insert(user_id, user);
        self.last_epoch = now;
        Ok(to_return)
    }

    /// Sets the per-epoch interest rate applied to future deposits.
    /// Nothing guards this operation: any caller may adjust the rate.
    pub fn set_deposit_interest_rate(&mut self, rate: Fixed)
        requires
            old(self).wf(),
            rate@ >= 0,
        ensures
            final(self).wf(),
            *final(self) == (AutoLend { deposit_interest_rate: rate, ..*old(self) }),
    {
        self.deposit_interest_rate = rate;
    }

    /// Sets the per-epoch interest rate applied to future loans.
    /// Nothing guards this operation: any caller may adjust the rate.
    pub fn set_borrow_interest_rate(&mut self, rate: Fixed)
        requires
            old(self).wf(),
            rate@ >= 0,
        ensures
            final(self).wf(),
            *final(self) == (AutoLend { borrow_interest_rate: rate, ..*old(self) }),
    {
        self.borrow_interest_rate = rate;
    }
}

} // verus!
