//! Activation and growth engine for geographically anchored stones.
//!
//! A stone is created at a fixed location, is activated in tiers gated by
//! proximity proofs, grows a bounded "moss" resource over time, and yields
//! token rewards computed from its attributes. This crate holds the verified
//! core: the stone state machine, the proximity checks, and the cost and
//! reward formulas. Geodesic distance computation, proof-payload decoding,
//! and the payment / minting / event collaborators live outside the core;
//! callers hand their results in as plain values, and the contracts here say
//! exactly what the core decides for every such value.

pub mod errors;
pub mod geo;
pub mod reward;
pub mod stone;
