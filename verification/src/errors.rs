//! The ways a lending operation can be refused.

use vstd::prelude::*;

verus! {

/// Why an operation was refused.  Every failure aborts the whole
/// operation: no partial state survives a refused call.
#[derive(Clone, Copy, PartialEq, Eq, Structural, Debug)]
pub enum LendingError {
    /// The named account has never deposited.
    AccountNotFound,
    /// The pool cannot cover the requested payout.
    InsufficientPoolLiquidity,
    /// A borrow request exceeds the pool-derived cap.
    UtilizationExceeded,
    /// The post-operation collateral ratio falls below the minimum.
    CollateralBelowMinimum,
    /// The liquidation target is not under-collateralized.
    LiquidationNotAllowed,
    /// The liquidation target has no open loan.
    NoOutstandingDebt,
    /// The liquidation repayment exceeds the allowed share of the debt.
    LiquidationSizeExceeded,
    /// The liquidation repayment would overpay the outstanding debt.
    LiquidationOverpaid,
}

} // verus!
