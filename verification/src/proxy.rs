//! The data plane: tenants, throughput tiers, rate counters and the
//! per-request filter that consults them.

pub mod auth;
pub mod config;
pub mod consumer;
pub mod filter;
pub mod history;
pub mod limiter;
pub mod reload;
pub mod state;
pub mod tiers;
