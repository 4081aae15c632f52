//! Retrieval and normalization of a VPN provider's relay topology.
//!
//! The wire format is a flat map of location codes plus three per-protocol
//! relay arrays (OpenVPN, WireGuard, Bridge). This crate turns it into a
//! hierarchical, protocol-agnostic model (countries, cities, relays),
//! interprets the conditional-fetch protocol (validators, status 304), and
//! proves the structural invariants of the transformation: every relay sits
//! under exactly one city of exactly one country, codes are lowercase and
//! pairwise distinct, unresolvable rows are dropped without failing the call,
//! and the whole pass is deterministic.
//!
//! The HTTP transport itself is an external collaborator: callers execute the
//! prepared request description and hand the observed status, validator
//! header and body back to this crate.

pub mod client;
pub mod codes;
pub mod domain;
pub mod laws;
pub mod topology;
pub mod wire;
