//! One participant's account record and the interest engine.
//!
//! An account keeps an interest-bearing deposit and an interest-bearing
//! loan, each as a balance, a per-epoch rate, and the epoch at which
//! interest was last folded in.  Accrual charges at least one epoch of
//! interest on every update, even within the epoch of the last update.
//! The collateral ratio compares the projected value of the deposit to
//! the projected value of the loan; it is defined only while a loan is
//! open.

use crate::errors::LendingError;
use crate::fixed::{abs_val, fdiv, fmul, fx, in_i128, Fixed, SCALE};
use crate::fixed::{lemma_fdiv_nonneg, lemma_fmul_nonneg, lemma_mul_signs};
use vstd::arithmetic::div_mod::{lemma_div_by_self, lemma_div_is_ordered};
use vstd::arithmetic::mul::lemma_mul_increases;
use vstd::prelude::*;

verus! {

/// Epochs of interest charged between `last` and `now`: the elapsed
/// time with a floor of one full epoch.
pub open spec fn elapsed(last: u64, now: u64) -> int
    recommends
        last <= now,
{
    now - last + 1
}

/// A balance after folding in the interest owed since `last`.
pub open spec fn accrued(balance: int, rate: int, last: u64, now: u64) -> int
    recommends
        last <= now,
{
    balance + fmul(balance, rate) * elapsed(last, now)
}

/// Size-weighted blend of an existing position's rate with the rate of
/// a new contribution.
pub open spec fn blended_rate(balance: int, rate: int, amount: int, new_rate: int) -> int
    recommends
        balance + amount != 0,
{
    fdiv(fmul(balance, rate) + fmul(amount, new_rate), balance + amount)
}

/// The accrual arithmetic on one side of a record stays within the
/// machine range.
pub open spec fn accrue_fits(balance: int, rate: int, last: u64, now: u64) -> bool {
    &&& last <= now
    &&& elapsed(last, now) <= u64::MAX
    &&& abs_val(balance * rate) <= i128::MAX
    &&& abs_val(fmul(balance, rate) * elapsed(last, now)) <= i128::MAX
    &&& in_i128(accrued(balance, rate, last, now))
}

/// The rate-blending arithmetic stays within the machine range, and
/// the combined position is non-empty.
pub open spec fn blend_fits(balance: int, rate: int, amount: int, new_rate: int) -> bool {
    &&& abs_val(balance * rate) <= i128::MAX
    &&& abs_val(amount * new_rate) <= i128::MAX
    &&& in_i128(fmul(balance, rate) + fmul(amount, new_rate))
    &&& abs_val(fmul(balance, rate) + fmul(amount, new_rate)) * SCALE <= i128::MAX
    &&& balance + amount != 0
    &&& i128::MIN < balance + amount
    &&& balance + amount <= i128::MAX
}

/// One participant's account record.
#[derive(Clone, Copy, PartialEq, Eq, Structural, Debug)]
pub struct User {
    /// Principal on deposit, inclusive of interest folded in at
    /// previous update points.
    pub deposit_balance: Fixed,
    /// Size-weighted per-epoch rate of the deposit; meaningless (but
    /// retained) while the deposit balance is zero.
    pub deposit_interest_rate: Fixed,
    /// Epoch at which deposit interest was last folded in.
    pub deposit_last_update: u64,
    /// Outstanding debt, inclusive of interest folded in at previous
    /// update points; zero means no open loan.
    pub borrow_balance: Fixed,
    /// Size-weighted per-epoch rate of the loan.
    pub borrow_interest_rate: Fixed,
    /// Epoch at which loan interest was last folded in.
    pub borrow_last_update: u64,
}

/// The record created on an account's first deposit.
pub open spec fn initial_user(amount: int, rate: int, now: u64) -> User {
    User {
        deposit_balance: fx(amount),
        deposit_interest_rate: fx(rate),
        deposit_last_update: now,
        borrow_balance: fx(0),
        borrow_interest_rate: fx(0),
        borrow_last_update: now,
    }
}

/// The record after a further deposit of `amount` at `rate`: interest
/// is folded in, the rate re-blended, and the amount added.
pub open spec fn deposit_step(u: User, amount: int, rate: int, now: u64) -> User {
    let acc = accrued(u.deposit_balance@, u.deposit_interest_rate@, u.deposit_last_update, now);
    User {
        deposit_balance: fx(acc + amount),
        deposit_interest_rate: fx(blended_rate(acc, u.deposit_interest_rate@, amount, rate)),
        deposit_last_update: now,
        ..u
    }
}

/// The record after redeeming `amount`: the amount leaves the stored
/// principal as-is minus the amount; the update marker is not moved.
pub open spec fn redeem_step(u: User, amount: int) -> User {
    User { deposit_balance: fx(u.deposit_balance@ - amount), ..u }
}

/// What a redemption of `amount` pays out: the amount plus interest on
/// the withdrawn portion alone.
pub open spec fn redeem_payout(u: User, amount: int, now: u64) -> int
    recommends
        u.deposit_last_update <= now,
{
    amount + fmul(amount, u.deposit_interest_rate@) * elapsed(u.deposit_last_update, now)
}

/// The record after borrowing `amount` more at `rate`; mirrors
/// `deposit_step` on the loan side.
pub open spec fn borrow_step(u: User, amount: int, rate: int, now: u64) -> User {
    let acc = accrued(u.borrow_balance@, u.borrow_interest_rate@, u.borrow_last_update, now);
    User {
        borrow_balance: fx(acc + amount),
        borrow_interest_rate: fx(blended_rate(acc, u.borrow_interest_rate@, amount, rate)),
        borrow_last_update: now,
        ..u
    }
}

/// The loan side after a repayment of `amount`: interest is folded in
/// first; a payment covering the whole accrued debt closes the loan
/// and zeroes its rate, a smaller payment keeps the rate.
pub open spec fn repay_step(u: User, amount: int, now: u64) -> User {
    let acc = accrued(u.borrow_balance@, u.borrow_interest_rate@, u.borrow_last_update, now);
    if acc <= amount {
        User {
            borrow_balance: fx(0),
            borrow_interest_rate: fx(0),
            borrow_last_update: now,
            ..u
        }
    } else {
        User { borrow_balance: fx(acc - amount), borrow_last_update: now, ..u }
    }
}

/// The unused part of a repayment of `amount`: zero unless the payment
/// exceeds the accrued debt.
pub open spec fn repay_change(u: User, amount: int, now: u64) -> int {
    let acc = accrued(u.borrow_balance@, u.borrow_interest_rate@, u.borrow_last_update, now);
    if acc <= amount {
        amount - acc
    } else {
        0
    }
}

/// What a liquidator receives for repaying `amount`: the amount plus
/// the bonus share, seized from the target's deposit.
pub open spec fn liquidate_payout(amount: int, bonus_percent: int) -> int {
    fmul(amount, bonus_percent + SCALE)
}

/// The record after a liquidation repaying `amount`: the repayment is
/// settled against the loan and the payout deducted from the deposit.
pub open spec fn liquidate_step(u: User, amount: int, bonus_percent: int, now: u64) -> User {
    let r = repay_step(u, amount, now);
    User { deposit_balance: fx(r.deposit_balance@ - liquidate_payout(amount, bonus_percent)), ..r }
}

/// Projected value of the deposit at `now`.
pub open spec fn collateral_value(u: User, now: u64) -> int
    recommends
        u.deposit_last_update <= now,
{
    accrued(u.deposit_balance@, u.deposit_interest_rate@, u.deposit_last_update, now)
}

/// Projected value of the loan at `now`.
pub open spec fn loan_value(u: User, now: u64) -> int
    recommends
        u.borrow_last_update <= now,
{
    accrued(u.borrow_balance@, u.borrow_interest_rate@, u.borrow_last_update, now)
}

/// Projected deposit value over projected loan value; meaningful only
/// while a loan is open.
pub open spec fn collateral_ratio(u: User, now: u64) -> int
    recommends
        u.deposit_last_update <= now,
        u.borrow_last_update <= now,
        loan_value(u, now) != 0,
{
    fdiv(collateral_value(u, now), loan_value(u, now))
}

/// The ratio check passes: no loan is open, or the ratio is at least
/// `min_ratio`.
pub open spec fn ratio_ok(u: User, min_ratio: int, now: u64) -> bool {
    u.borrow_balance@ == 0 || collateral_ratio(u, now) >= min_ratio
}

/// The whole deposit-side arithmetic of a deposit stays in range.
pub open spec fn deposit_fits(u: User, amount: int, rate: int, now: u64) -> bool {
    let acc = accrued(u.deposit_balance@, u.deposit_interest_rate@, u.deposit_last_update, now);
    &&& accrue_fits(u.deposit_balance@, u.deposit_interest_rate@, u.deposit_last_update, now)
    &&& blend_fits(acc, u.deposit_interest_rate@, amount, rate)
    &&& in_i128(acc + amount)
}

/// The payout arithmetic of a redemption stays in range.
pub open spec fn payout_fits(u: User, amount: int, now: u64) -> bool {
    &&& u.deposit_last_update <= now
    &&& elapsed(u.deposit_last_update, now) <= u64::MAX
    &&& abs_val(amount * u.deposit_interest_rate@) <= i128::MAX
    &&& abs_val(fmul(amount, u.deposit_interest_rate@) * elapsed(u.deposit_last_update, now))
        <= i128::MAX
    &&& in_i128(redeem_payout(u, amount, now))
    &&& in_i128(u.deposit_balance@ - amount)
}

/// The whole borrow-side arithmetic of a borrow stays in range.
pub open spec fn borrow_fits(u: User, amount: int, rate: int, now: u64) -> bool {
    let acc = accrued(u.borrow_balance@, u.borrow_interest_rate@, u.borrow_last_update, now);
    &&& accrue_fits(u.borrow_balance@, u.borrow_interest_rate@, u.borrow_last_update, now)
    &&& blend_fits(acc, u.borrow_interest_rate@, amount, rate)
    &&& in_i128(acc + amount)
}

/// The accrual arithmetic of a repayment stays in range.
pub open spec fn repay_fits(u: User, now: u64) -> bool {
    accrue_fits(u.borrow_balance@, u.borrow_interest_rate@, u.borrow_last_update, now)
}

/// The arithmetic of a liquidation stays in range.
pub open spec fn liquidate_fits(u: User, amount: int, bonus_percent: int, now: u64) -> bool {
    &&& repay_fits(u, now)
    &&& in_i128(bonus_percent + SCALE)
    &&& abs_val(amount * (bonus_percent + SCALE)) <= i128::MAX
    &&& in_i128(u.deposit_balance@ - liquidate_payout(amount, bonus_percent))
}

/// The ratio arithmetic stays in range.
pub open spec fn ratio_fits(u: User, now: u64) -> bool {
    &&& accrue_fits(u.deposit_balance@, u.deposit_interest_rate@, u.deposit_last_update, now)
    &&& accrue_fits(u.borrow_balance@, u.borrow_interest_rate@, u.borrow_last_update, now)
    &&& abs_val(collateral_value(u, now)) * SCALE <= i128::MAX
}

/// Accrual never shrinks a non-negative balance at a non-negative
/// rate.
pub proof fn lemma_accrued_grows(balance: int, rate: int, last: u64, now: u64)
    requires
        balance >= 0,
        rate >= 0,
        last <= now,
    ensures
        accrued(balance, rate, last, now) >= balance,
{
    lemma_fmul_nonneg(balance, rate);
    lemma_mul_signs(fmul(balance, rate), elapsed(last, now));
}

/// An open loan has a strictly positive projected value.
pub proof fn lemma_loan_positive(u: User, now: u64)
    requires
        u.wf(),
        u.borrow_balance@ != 0,
        u.borrow_last_update <= now,
    ensures
        loan_value(u, now) >= u.borrow_balance@,
        loan_value(u, now) > 0,
{
    lemma_accrued_grows(u.borrow_balance@, u.borrow_interest_rate@, u.borrow_last_update, now);
}

/// Borrowing a non-negative amount at a non-negative rate keeps the
/// loan side of the record well-formed.
pub proof fn lemma_borrow_preserves_wf(u: User, amount: int, rate: int, now: u64)
    requires
        u.wf(),
        amount >= 0,
        rate >= 0,
        borrow_fits(u, amount, rate, now),
    ensures
        borrow_step(u, amount, rate, now).wf(),
        borrow_step(u, amount, rate, now).borrow_balance@ >= amount,
{
    let acc = accrued(u.borrow_balance@, u.borrow_interest_rate@, u.borrow_last_update, now);
    lemma_accrued_grows(u.borrow_balance@, u.borrow_interest_rate@, u.borrow_last_update, now);
    lemma_fmul_nonneg(acc, u.borrow_interest_rate@);
    lemma_fmul_nonneg(amount, rate);
    lemma_fdiv_nonneg(
        fmul(acc, u.borrow_interest_rate@) + fmul(amount, rate),
        acc + amount,
    );
}

/// Folds accrued interest into a balance and refreshes nothing else.
fn accrue_balance(balance: Fixed, rate: Fixed, last: u64, now: u64) -> (r: Fixed)
    requires
        accrue_fits(balance@, rate@, last, now),
    ensures
        r@ == accrued(balance@, rate@, last, now),
{
    let e: u64 = now - last + 1;
    let interest = balance.times(rate).times_epochs(e);
    balance.plus(interest)
}

/// Blends the rate of an existing position with that of a new
/// contribution, weighting by size.
fn blend(balance: Fixed, rate: Fixed, amount: Fixed, new_rate: Fixed) -> (r: Fixed)
    requires
        blend_fits(balance@, rate@, amount@, new_rate@),
    ensures
        r@ == blended_rate(balance@, rate@, amount@, new_rate@),
{
    let num = balance.times(rate).plus(amount.times(new_rate));
    let den = balance.plus(amount);
    num.div_by(den)
}

impl User {
    /// Invariant of every reachable record: the loan side never goes
    /// negative.  (The deposit side can: redemption and liquidation
    /// deduct without a balance check.)
    pub open spec fn wf(self) -> bool {
        self.borrow_balance@ >= 0 && self.borrow_interest_rate@ >= 0
    }

    /// Epochs of deposit interest charged at `now`.
    fn deposit_time_elapsed(&self, now: u64) -> (r: u64)
        requires
            self.deposit_last_update <= now,
            elapsed(self.deposit_last_update, now) <= u64::MAX,
        ensures
            r == elapsed(self.deposit_last_update, now),
    {
        now - self.deposit_last_update + 1
    }

    /// The collateral ratio at `now`, or `None` while no loan is open.
    pub fn get_collateral_ratio(&self, now: u64) -> (r: Option<Fixed>)
        requires
            self.wf(),
            self.borrow_balance@ != 0 ==> ratio_fits(*self, now),
        ensures
            match r {
                None => self.borrow_balance@ == 0,
                Some(ratio) => self.borrow_balance@ != 0 && ratio@ == collateral_ratio(
                    *self,
                    now,
                ),
            },
    {
        if self.borrow_balance.is_zero() {
            None
        } else {
            let collateral = accrue_balance(
                self.deposit_balance,
                self.deposit_interest_rate,
                self.deposit_last_update,
                now,
            );
            let loan = accrue_balance(
                self.borrow_balance,
                self.borrow_interest_rate,
                self.borrow_last_update,
                now,
            );
            proof {
                lemma_loan_positive(*self, now);
            }
            Some(collateral.div_by(loan))
        }
    }

    /// Refuses a record whose collateral ratio is defined and below
    /// `min_collateral_ratio`; passes otherwise.
    pub fn check_collateral_ratio(&self, min_collateral_ratio: Fixed, now: u64) -> (r: Result<
        (),
        LendingError,
    >)
        requires
            self.wf(),
            self.borrow_balance@ != 0 ==> ratio_fits(*self, now),
        ensures
            r is Ok <==> ratio_ok(*self, min_collateral_ratio@, now),
            r is Err ==> r == Err::<(), LendingError>(LendingError::CollateralBelowMinimum),
    {
        match self.get_collateral_ratio(now) {
            Some(ratio) => if ratio.lt(min_collateral_ratio) {
                Err(LendingError::CollateralBelowMinimum)
            } else {
                Ok(())
            },
            None => Ok(()),
        }
    }

    /// Folds in deposit interest, re-blends the deposit rate with the
    /// new contribution's, and adds the amount to the balance.
    pub fn on_deposit(&mut self, amount: Fixed, interest_rate: Fixed, now: u64)
        requires
            deposit_fits(*old(self), amount@, interest_rate@, now),
        ensures
            *final(self) == deposit_step(*old(self), amount@, interest_rate@, now),
    {
        let acc = accrue_balance(
            self.deposit_balance,
            self.deposit_interest_rate,
            self.deposit_last_update,
            now,
        );
        let new_rate = blend(acc, self.deposit_interest_rate, amount, interest_rate);
        self.deposit_balance = acc.plus(amount);
        self.deposit_interest_rate = new_rate;
        self.deposit_last_update = now;
    }

    /// Deducts the amount from the principal and returns the payout:
    /// the amount plus interest on the withdrawn portion alone.  The
    /// stored balance is not checked against the amount first.
    pub fn on_redeem(&mut self, amount: Fixed, now: u64) -> (payout: Fixed)
        requires
            payout_fits(*old(self), amount@, now),
        ensures
            *final(self) == redeem_step(*old(self), amount@),
            payout@ == redeem_payout(*old(self), amount@, now),
    {
        self.deposit_balance = self.deposit_balance.minus(amount);
        let e = self.deposit_time_elapsed(now);
        let interest = amount.times(self.deposit_interest_rate).times_epochs(e);
        amount.plus(interest)
    }

    /// Folds in loan interest, re-blends the loan rate with the new
    /// contribution's, and adds the amount to the debt.
    pub fn on_borrow(&mut self, amount: Fixed, interest_rate: Fixed, now: u64)
        requires
            borrow_fits(*old(self), amount@, interest_rate@, now),
        ensures
            *final(self) == borrow_step(*old(self), amount@, interest_rate@, now),
    {
        let acc = accrue_balance(
            self.borrow_balance,
            self.borrow_interest_rate,
            self.borrow_last_update,
            now,
        );
        let new_rate = blend(acc, self.borrow_interest_rate, amount, interest_rate);
        self.borrow_balance = acc.plus(amount);
        self.borrow_interest_rate = new_rate;
        self.borrow_last_update = now;
    }

    /// Settles a repayment against the accrued debt and returns the
    /// unused change: a payment covering the whole debt closes the
    /// loan and zeroes its rate, a smaller payment keeps the rate.
    pub fn on_repay(&mut self, amount: Fixed, now: u64) -> (change: Fixed)
        requires
            old(self).wf(),
            amount@ >= 0,
            repay_fits(*old(self), now),
        ensures
            *final(self) == repay_step(*old(self), amount@, now),
            change@ == repay_change(*old(self), amount@, now),
            final(self).wf(),
    {
        let acc = accrue_balance(
            self.borrow_balance,
            self.borrow_interest_rate,
            self.borrow_last_update,
            now,
        );
        proof {
            lemma_accrued_grows(
                self.borrow_balance@,
                self.borrow_interest_rate@,
                self.borrow_last_update,
                now,
            );
        }
        self.borrow_last_update = now;
        if acc.le(amount) {
            self.borrow_balance = Fixed::zero();
            self.borrow_interest_rate = Fixed::zero();
            amount.minus(acc)
        } else {
            self.borrow_balance = acc.minus(amount);
            Fixed::zero()
        }
    }

    /// Settles a liquidation repayment, refusing any overpayment, and
    /// seizes the bonus-weighted payout from the deposit.
    pub fn on_liquidate(&mut self, amount: Fixed, bonus_percent: Fixed, now: u64) -> (r: Result<
        Fixed,
        LendingError,
    >)
        requires
            old(self).wf(),
            amount@ >= 0,
            liquidate_fits(*old(self), amount@, bonus_percent@, now),
        ensures
            match r {
                Ok(payout) => {
                    &&& repay_change(*old(self), amount@, now) == 0
                    &&& *final(self) == liquidate_step(*old(self), amount@, bonus_percent@, now)
                    &&& payout@ == liquidate_payout(amount@, bonus_percent@)
                    &&& final(self).wf()
                },
                Err(e) => {
                    &&& e == LendingError::LiquidationOverpaid
                    &&& repay_change(*old(self), amount@, now) != 0
                    &&& *final(self) == *old(self)
                },
            },
    {
        let acc = accrue_balance(
            self.borrow_balance,
            self.borrow_interest_rate,
            self.borrow_last_update,
            now,
        );
        if acc.lt(amount) {
            return Err(LendingError::LiquidationOverpaid);
        }
        proof {
            lemma_accrued_grows(
                self.borrow_balance@,
                self.borrow_interest_rate@,
                self.borrow_last_update,
                now,
            );
        }
        self.borrow_last_update = now;
        if amount.lt(acc) {
            self.borrow_balance = acc.minus(amount);
        } else {
            self.borrow_balance = Fixed::zero();
            self.borrow_interest_rate = Fixed::zero();
        }
        let payout = amount.times(bonus_percent.plus(Fixed { units: SCALE }));
        self.deposit_balance = self.deposit_balance.minus(payout);
        Ok(payout)
    }
}

/// Depositing `a1` into an empty account and `a2` one epoch later,
/// both at rate `r`, yields the first amount with two epochs' interest
/// plus the second amount, at the size-weighted blend of the rates.
pub proof fn lemma_deposit_then_deposit(a1: int, a2: int, r: int, t0: u64, t1: u64)
    requires
        0 <= a1,
        0 <= a2,
        0 <= r,
        in_i128(a1),
        in_i128(r),
        t1 == t0 + 1,
        deposit_fits(initial_user(a1, r, t0), a2, r, t1),
    ensures
        deposit_step(initial_user(a1, r, t0), a2, r, t1).deposit_balance@ == a1 + fmul(a1, r) * 2
            + a2,
        deposit_step(initial_user(a1, r, t0), a2, r, t1).deposit_interest_rate@ == blended_rate(
            a1 + fmul(a1, r) * 2,
            r,
            a2,
            r,
        ),
{
    assert(elapsed(t0, t1) == 2);
}

/// Redemption is never a true no-op: `elapsed` is floored at one
/// epoch, so redeeming the whole principal in the epoch of the deposit
/// still pays strictly more than the principal, provided one epoch's
/// interest on it comes to at least one subunit.
pub proof fn lemma_redeem_never_noop(u: User, now: u64)
    requires
        u.deposit_last_update <= now,
        u.deposit_balance@ > 0,
        u.deposit_interest_rate@ > 0,
        u.deposit_balance@ * u.deposit_interest_rate@ >= SCALE,
    ensures
        redeem_payout(u, u.deposit_balance@, now) > u.deposit_balance@,
{
    let a = u.deposit_balance@;
    let r = u.deposit_interest_rate@;
    let e = elapsed(u.deposit_last_update, now);
    lemma_mul_signs(a, r);
    lemma_div_is_ordered(SCALE as int, a * r, SCALE as int);
    lemma_div_by_self(SCALE as int);
    assert(fmul(a, r) >= 1);
    lemma_mul_increases(e, fmul(a, r));
    assert(e * fmul(a, r) == fmul(a, r) * e) by (nonlinear_arith);
}

} // verus!
