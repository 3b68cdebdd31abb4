//! The control plane's side: the port resource and what is derived from it.

pub mod config;
pub mod controller;
pub mod metrics;
pub mod utils;
