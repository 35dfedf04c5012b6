//! Health-check engine for paired Ethereum execution and consensus clients.
//!
//! The library normalizes the wire formats of several client families
//! (JSON-RPC envelopes and REST envelopes, hex and decimal encodings)
//! into one uniform set of severity-tagged health signals.

pub mod client;
pub mod evaluate;
pub mod hexnum;
pub mod json;
pub mod outcome;
pub mod probe;
pub mod release;
pub mod report;
pub mod strutil;
pub mod sys;
pub mod wire;
