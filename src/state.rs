use vstd::prelude::*;

verus! {

/// An identity or record address, as its 32 raw bytes.
pub type Address = [u8; 32];

/// Venue configuration. Rates and thresholds are in basis points
/// (parts per 10000).
#[derive(Debug, Clone, Copy, PartialEq, Eq, Structural)]
pub struct GovernanceParams {
    /// Fee charged on margin when a position opens and when it closes.
    pub trading_fee_rate: u16,
    /// Share of the margin posted at opening at or below which a position's equity
    /// makes it liquidatable.
    pub liquidation_threshold: u16,
    /// Largest leverage a position may be opened with.
    pub max_leverage: u8,
    /// Smallest margin a position may be opened with.
    pub min_margin: u64,
    /// Seconds between funding settlements (not used by the engine).
    pub funding_interval: u32,
    /// Largest age, in seconds, of a reference price that is still accepted.
    pub oracle_validity_period: u32,
}

/// A user's single position. A closed position is all zeros.
#[derive(Debug, Clone, Copy, PartialEq, Eq, Structural)]
pub struct Position {
    /// Signed notional: positive for a long, negative for a short.
    pub size: i64,
    /// Collateral reserved in the vault against the position.
    pub margin: u64,
    /// Reference price at opening.
    pub entry_price: u64,
    pub is_open: bool,
    pub leverage: u8,
    /// Time of opening, in seconds.
    pub opened_at: i64,
}

/// Venue-wide singleton: reference price, running totals and configuration.
#[derive(Debug, Clone, Copy)]
pub struct ExchangeState {
    pub admin: Address,
    pub vault: Address,
    pub oracle_price: u64,
    pub oracle_last_update: i64,
    /// Signed funding rate (positive: longs pay shorts); not settled by the engine.
    pub funding_rate: i64,
    pub funding_last_update: i64,
    pub collected_fees: u64,
    pub insurance_fund_balance: u64,
    pub is_paused: bool,
    pub governance_params: GovernanceParams,
    /// Sum of the notional of all open longs.
    pub total_long_positions: u64,
    /// Sum of the absolute notional of all open shorts.
    pub total_short_positions: u64,
    pub total_volume: u64,
}

/// A trader's record: withdrawable collateral, at most one position, and the
/// fees paid so far.
#[derive(Debug, Clone, Copy)]
pub struct UserAccount {
    pub owner: Address,
    /// Unreserved, withdrawable collateral.
    pub collateral_balance: u64,
    pub position: Position,
    pub funding_payment: i64,
    pub total_fees_paid: u64,
    pub created_at: i64,
}

/// Custody record: everything deposited, and the part backing open positions.
#[derive(Debug, Clone, Copy)]
pub struct VaultAccount {
    pub exchange_state: Address,
    pub total_balance: u64,
    pub reserved_collateral: u64,
    pub bump: u8,
}

/// The position of an account that holds none.
pub open spec fn closed_position() -> Position {
    Position { size: 0, margin: 0, entry_price: 0, is_open: false, leverage: 0, opened_at: 0 }
}

/// Absolute value of an integer.
pub open spec fn abs(x: int) -> int {
    if x >= 0 { x } else { -x }
}

impl Position {
    /// An open position has a nonzero size and a positive margin; a closed
    /// one is all zeros.
    pub open spec fn wf(self) -> bool {
        if self.is_open {
            self.size != 0 && self.margin > 0
        } else {
            self == closed_position()
        }
    }

    /// Absolute notional of the position.
    pub open spec fn abs_size(self) -> int {
        abs(self.size as int)
    }

    /// The empty position.
    pub fn closed() -> (r: Position)
        ensures
            r == closed_position(),
            r.wf(),
    {
        Position { size: 0, margin: 0, entry_price: 0, is_open: false, leverage: 0, opened_at: 0 }
    }

    /// Whether the position is a long.
    pub fn is_long(&self) -> (r: bool)
        ensures
            r == (self.size > 0),
    {
        self.size > 0
    }

    /// Whether the position is a short.
    pub fn is_short(&self) -> (r: bool)
        ensures
            r == (self.size < 0),
    {
        self.size < 0
    }

    /// The absolute notional of the position.
    pub fn get_abs_size(&self) -> (r: u64)
        ensures
            r as int == self.abs_size(),
    {
        if self.size >= 0 {
            self.size as u64
        } else {
            (-(self.size as i128)) as u64
        }
    }
}

impl Default for Position {
    fn default() -> (r: Position)
        ensures
            r == closed_position(),
    {
        Position::closed()
    }
}

impl UserAccount {
    /// The account's position is well formed.
    pub open spec fn wf(self) -> bool {
        self.position.wf()
    }
}

impl VaultAccount {
    /// The reserved part of the vault never exceeds what it holds.
    pub open spec fn wf(self) -> bool {
        self.reserved_collateral <= self.total_balance
    }
}

} // verus!
