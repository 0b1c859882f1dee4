//! A fractional real-world-asset share marketplace: share sales from a pool,
//! vesting, transfers and allowances, sell orders, buybacks, dividends, a
//! whitelist, pause controls, a circuit breaker, upgrades and a bridge lock,
//! as a verified state machine. Every request either is refused with an
//! error and changes nothing, or updates the state and lists the effects
//! (token transfers, certificate mints, events) that the host performs.
pub mod arith;
pub mod events;
pub mod table;
pub mod types;
pub mod market;
pub mod purchase;
pub mod batch;
pub mod dividends;
pub mod vesting;
pub mod trading;
pub mod buyback;
pub mod bridge;
pub mod admin;
pub mod governance;
pub mod laws;
