//! Accounting core of a leveraged perpetual-futures venue: collateral custody,
//! single-position accounts, fees, profit and loss, and liquidation, with every
//! state transition stated and proved against a mathematical model.

pub mod error;
pub mod exchange;
pub mod laws;
pub mod math;
pub mod state;
pub mod trading;
