//! A collateralized peer-to-peer lending ledger.
//!
//! Borrowers post loan requests backed by collateral, lenders fund them, and
//! loans end either repaid with fixed interest or liquidated once the
//! collateral no longer covers them. Prices and token transfers belong to
//! outside services: the ledger takes what the price oracle answered as plain
//! values and hands back the transfers that the surrounding transaction must
//! carry out.
pub mod error;
pub mod types;
pub mod valuation;
pub mod protocol;
pub mod laws;

pub use error::Error;
pub use protocol::{
    LendingProtocol, Transfer, FUNDING_WINDOW, MAX_INTEREST_RATE, MIN_INTEREST_RATE,
};
pub use types::{Address, AssetInfo, Config, Loan, OracleAsset, PriceData, MAX_LOAN_LIMIT};
pub use valuation::{
    below_liquidation_ratio, checked_pow10, collateral_value, interest_on, meets_creation_ratio,
    OracleReading, CREATION_RATIO_PERCENT, LIQUIDATION_RATIO_PERCENT,
};
