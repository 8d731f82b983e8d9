//! Packet filter policies of a cross-chain relayer: which (port, channel)
//! pairs are in scope for relaying, written with exact identifiers and
//! `*` wildcard patterns.
pub mod commitment;
pub mod config;
pub mod ident;
pub mod filter;
pub mod matcher;
