//! Lifecycle of brokerage orders (limit and market) and the aggregation of
//! their executions into a settled operation.
//!
//! Prices, notional values and commissions are whole numbers of the
//! instrument's minimal money unit, so that aggregation is exact.

pub mod direction;
pub mod transaction;
pub mod operation;
pub mod market_order;
pub mod limit_order;
pub mod codec;
pub mod text;
