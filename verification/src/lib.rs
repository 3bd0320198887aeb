//! A verified core for a single-token transfer service on an EVM-compatible
//! chain: decimal-to-integer amount conversion at a fixed token precision,
//! gas-price markup, destination-address validation, and interpretation of
//! the submission outcome. The network transport, signing and ABI encoding
//! are collaborators driven by the surrounding application; this crate holds
//! the decisions and proves them.

pub mod address;
pub mod decimal;
pub mod error;
pub mod gas;
pub mod hex;
pub mod transfer;
