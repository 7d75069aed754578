//! Adapter between a trading system and the E*TRADE brokerage REST API.
//!
//! The crate signs requests with OAuth 1.0a, turns the vendor's account,
//! balance, portfolio and order payloads into broker-agnostic records, and
//! keeps the session state that gates every operation. Network transport and
//! JSON coding are left to the caller, which performs the actions that the
//! session hands out and reports back what happened.

pub mod canonical;
pub mod clock;
pub mod encoding;
pub mod etrade;
pub mod ledger;
pub mod model;
pub mod oauth;
pub mod session;
pub mod text;
pub mod transport;
pub mod vendor;
