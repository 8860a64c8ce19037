use vstd::prelude::*;

verus! {

/// Every way an operation of the venue can be refused. A refused operation
/// leaves all records as they were.
#[derive(Debug, Clone, Copy, PartialEq, Eq, Structural)]
pub enum PerpExchangeError {
    InvalidPrice,
    InvalidAmount,
    InsufficientCollateral,
    InvalidLeverage,
    MarginTooLow,
    PositionExists,
    NoPosition,
    StaleOracle,
    MathOverflow,
    UnauthorizedUser,
    UnauthorizedAdmin,
    TradingPaused,
    PositionUnderwater,
    InvalidLiquidation,
    PositionNotLiquidatable,
    InsufficientVaultBalance,
}

impl PerpExchangeError {
    /// The human-readable message of the error.
    pub fn message(&self) -> (r: &'static str) {
        match self {
            PerpExchangeError::InvalidPrice => "Invalid price provided",
            PerpExchangeError::InvalidAmount => "Invalid amount provided",
            PerpExchangeError::InsufficientCollateral => "Insufficient collateral",
            PerpExchangeError::InvalidLeverage => "Invalid leverage provided",
            PerpExchangeError::MarginTooLow => "Margin below the minimum",
            PerpExchangeError::PositionExists => "Position already exists",
            PerpExchangeError::NoPosition => "No position to close",
            PerpExchangeError::StaleOracle => "Oracle price is stale",
            PerpExchangeError::MathOverflow => "Math overflow",
            PerpExchangeError::UnauthorizedUser => "Unauthorized user",
            PerpExchangeError::UnauthorizedAdmin => "Unauthorized admin",
            PerpExchangeError::TradingPaused => "Trading is paused",
            PerpExchangeError::PositionUnderwater => "Position is underwater",
            PerpExchangeError::InvalidLiquidation => "Invalid liquidation",
            PerpExchangeError::PositionNotLiquidatable => "Position is not liquidatable",
            PerpExchangeError::InsufficientVaultBalance => "Insufficient vault balance",
        }
    }
}

} // verus!
