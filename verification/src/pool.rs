//! The liquidity pool accountant and the asset container it pays from.
//!
//! A `Bucket` stands for an owned quantity of one fungible asset kind;
//! it is moved, never copied, on every hand-off.  The `Pool` keeps one
//! aggregate balance shared by all accounts, together with ghost
//! running totals of everything ever credited and debited, so that
//! solvency is an invariant rather than an afterthought.

use crate::errors::LendingError;
use crate::fixed::{in_i128, Fixed};
use vstd::prelude::*;

verus! {

/// An owned quantity of one fungible asset kind.
#[derive(Debug)]
pub struct Bucket {
    /// Which fungible asset the contents are.
    pub asset_kind: u64,
    /// How much the bucket holds.
    pub amount: Fixed,
}

impl Bucket {
    /// A bucket holds a non-negative amount.
    pub open spec fn wf(self) -> bool {
        self.amount@ >= 0
    }

    /// A fresh bucket of `amount` of the given asset kind.
    pub fn new(asset_kind: u64, amount: Fixed) -> (r: Bucket)
        requires
            amount@ >= 0,
        ensures
            r.asset_kind == asset_kind,
            r.amount == amount,
            r.wf(),
    {
        Bucket { asset_kind, amount }
    }

    /// Splits `amount` out of this bucket into a new one.
    pub fn take(&mut self, amount: Fixed) -> (r: Bucket)
        requires
            old(self).wf(),
            0 <= amount@,
            amount@ <= old(self).amount@,
        ensures
            final(self).asset_kind == old(self).asset_kind,
            final(self).amount@ == old(self).amount@ - amount@,
            final(self).wf(),
            r.asset_kind == old(self).asset_kind,
            r.amount == amount,
            r.wf(),
    {
        let rest = self.amount.minus(amount);
        self.amount = rest;
        Bucket { asset_kind: self.asset_kind, amount }
    }
}

/// The shared liquidity pool: one aggregate balance of one asset kind.
pub struct Pool {
    /// The asset kind this pool accepts and pays out.
    pub asset_kind: u64,
    /// Aggregate balance at rest.
    pub balance: Fixed,
    /// Ghost total of every amount ever credited.
    pub credits: Ghost<int>,
    /// Ghost total of every amount ever debited.
    pub debits: Ghost<int>,
}

impl Pool {
    /// Invariant of every reachable pool state: the balance is exactly
    /// the historical credits minus the historical debits, and no
    /// debit has driven it negative.
    pub open spec fn wf(self) -> bool {
        &&& self.balance@ >= 0
        &&& self.balance@ == self.credits@ - self.debits@
    }

    /// An empty pool for the given asset kind.
    pub fn new(asset_kind: u64) -> (r: Pool)
        ensures
            r.asset_kind == asset_kind,
            r.balance@ == 0,
            r.credits@ == 0,
            r.debits@ == 0,
            r.wf(),
    {
        Pool { asset_kind, balance: Fixed::zero(), credits: Ghost(0), debits: Ghost(0) }
    }

    /// Accepts a bucket of the pool's own asset into the aggregate
    /// balance.
    pub fn credit(&mut self, tokens: Bucket)
        requires
            old(self).wf(),
            tokens.wf(),
            tokens.asset_kind == old(self).asset_kind,
            in_i128(old(self).balance@ + tokens.amount@),
        ensures
            final(self).asset_kind == old(self).asset_kind,
            final(self).balance@ == old(self).balance@ + tokens.amount@,
            final(self).credits@ == old(self).credits@ + tokens.amount@,
            final(self).debits@ == old(self).debits@,
            final(self).wf(),
    {
        self.balance = self.balance.plus(tokens.amount);
        self.credits = Ghost(self.credits@ + tokens.amount@);
    }

    /// Pays `amount` out of the pool, refusing to overdraw it.
    pub fn debit(&mut self, amount: Fixed) -> (r: Result<Bucket, LendingError>)
        requires
            old(self).wf(),
            amount@ >= 0,
        ensures
            match r {
                Ok(tokens) => {
                    &&& amount@ <= old(self).balance@
                    &&& tokens.asset_kind == old(self).asset_kind
                    &&& tokens.amount == amount
                    &&& tokens.wf()
                    &&& final(self).asset_kind == old(self).asset_kind
                    &&& final(self).balance@ == old(self).balance@ - amount@
                    &&& final(self).credits@ == old(self).credits@
                    &&& final(self).debits@ == old(self).debits@ + amount@
                    &&& final(self).wf()
                },
                Err(e) => {
                    &&& e == LendingError::InsufficientPoolLiquidity
                    &&& amount@ > old(self).balance@
                    &&& *final(self) == *old(self)
                },
            },
    {
        if self.balance.lt(amount) {
            Err(LendingError::InsufficientPoolLiquidity)
        } else {
            self.balance = self.balance.minus(amount);
            self.debits = Ghost(self.debits@ + amount@);
            Ok(Bucket { asset_kind: self.asset_kind, amount })
        }
    }
}

/// Solvency: in every reachable pool state the balance equals the
/// total of historical credits minus the total of historical debits,
/// and it is never negative.
pub proof fn lemma_pool_solvency(p: Pool)
    requires
        p.wf(),
    ensures
        p.balance@ == p.credits@ - p.debits@,
        p.balance@ >= 0,
{
}

} // verus!
