//! Synthetic uptime and content monitoring.
//!
//! For each configured service the monitor loads a target web page,
//! optionally authenticates via a cookie, and verifies that an expected
//! DOM element is present. On failure it prepares an alert payload for a
//! webhook-based chat channel.
//!
//! This crate holds the verified core: the per-service check state
//! machine (navigate, optionally authenticate, verify, classify), the
//! alert payload construction, and the dispatcher's decision which
//! services to alert on. The unverified binary around it drives a real
//! browser and performs the HTTP calls.

pub mod check;
pub mod config;
pub mod dispatch;
pub mod error;
pub mod notify;
pub mod parse;
