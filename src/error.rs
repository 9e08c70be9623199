use vstd::prelude::*;

verus! {

/// Why an operation of the ledger was refused.
#[derive(Clone, Copy, Debug, PartialEq, Eq, Structural)]
pub enum Error {
    /// The amount handed to funding differs from the loan's principal.
    InvalidAmount,
    /// The interest rate lies outside the accepted percentage range.
    InvalidInterest,
    /// The loan term is zero.
    InvalidDuration,
    /// The loan does not exist or is not in a state that allows the operation.
    InactiveLoan,
    /// The collateral is worth less than the creation threshold.
    InsufficientCollateral,
    /// The price feed gave no usable quote.
    OracleError,
    /// The caller is not the party entitled to the operation.
    Unauthorized,
    /// The funding deadline has passed.
    DeadlinePassed,
    /// The principal is below the configured minimum.
    LoanTooSmall,
    /// The principal is above the configured maximum.
    LoanTooLarge,
    /// The repayment differs from the amount owed.
    InvalidRepaymentAmount,
    /// A token transfer failed.
    TokenTransferFailed,
    /// The collateral still covers the liquidation threshold.
    CannotLiquidate,
    /// The price feed has no price for the asset.
    OraclePriceUnavailable,
    /// The price feed is not initialized.
    OracleNotInitialized,
}

} // verus!
