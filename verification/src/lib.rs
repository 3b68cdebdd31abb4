//! Admission control for a multi-tenant reverse proxy, with the small
//! control-plane helpers that provision its tenants.
//!
//! The proxy serves one network. A tenant reaches it with an opaque key;
//! the key names a consumer, the consumer names a tier, and the tier is a
//! bundle of rate rules that every request of the consumer is counted
//! against. Consumers come and go with the events of a watch stream, tiers
//! with the readings of a file. This crate holds the decisions: what an
//! event or a reading does to the shared state, and what becomes of a
//! request. Reading streams, files and sockets is left to the program
//! around it.
//!
//! - [`proxy::state`] is the shared state and its invariant.
//! - [`proxy::auth`] applies the events of the watch stream.
//! - [`proxy::reload`] applies the readings of the tier file.
//! - [`proxy::limiter`] counts requests against rate rules.
//! - [`proxy::filter`] passes a request through the ordered checks.
//! - [`proxy::history`] shows what holds after any run of changes.
//! - [`operator`] derives host names, statuses and usage for the ports.

pub mod operator;
pub mod pattern;
pub mod proxy;
pub mod text;
