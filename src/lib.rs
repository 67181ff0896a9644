//! A continuous double-auction order book for a space-trading simulation:
//! order types, the matching engine, and price-discovery helpers.

pub mod ids;
pub mod orders;
pub mod market_order_resolver;
pub mod market_calculations;
