//! Ledger engine of a blockchain node: transaction execution against chain
//! state, resource metering and receipts, plus the decision logic of the peer
//! discovery service.

pub mod discovery;
pub mod error;
pub mod executor;
pub mod hexcodec;
pub mod laws;
pub mod ranking;
pub mod service;
pub mod state;
pub mod actuators;
pub mod bandwidth;
pub mod bytes;
pub mod chain;
pub mod context;
pub mod contract;
