//! Command-line client logic for a test-network faucet service.
//!
//! The crate decides what an invocation means, which request it sends to the
//! faucet and what is printed once the faucet has answered. Sending the
//! request is left to the caller.

pub mod amount;
pub mod command;
pub mod dispatch;
pub mod json;
pub mod text;
pub mod wire;
