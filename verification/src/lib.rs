//! A blockchain security-monitoring library: it scores transactions and
//! smart-contract bytecode for fraud and vulnerability risk, and manages the
//! resulting alerts through a validated lifecycle.
//!
//! The crate is organised around four subsystems: connection management for
//! blockchain nodes (retry, backoff, rate limiting, health state), a
//! fraud-detection engine with a bounded analysis cache, a contract-audit
//! engine with a vulnerability-pattern catalog, and the alert lifecycle
//! shared by both engines.

pub mod alert;
pub mod audit;
pub mod cache;
pub mod config;
pub mod connector;
pub mod fraud;
pub mod retry;
pub mod scan;
pub mod time;
