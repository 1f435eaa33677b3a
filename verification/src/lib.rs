//! Control-plane logic for a single-value price oracle.
//!
//! The library maintains two pieces of authoritative state, the current
//! owner identity and the latest published price record, plus the contract
//! version metadata consulted by migration. Four operations are exposed:
//! [`lifecycle::instantiate`], [`lifecycle::execute`], [`lifecycle::query`]
//! and [`lifecycle::migrate`]. Mutating operations are gated by an
//! authorization guard, and migration by a semantic-version compatibility
//! guard. The host environment (durable storage, identity validation,
//! message encoding) stays outside; it hands these functions plain values
//! and persists what they return.

pub mod error;
pub mod laws;
pub mod lifecycle;
pub mod msg;
pub mod response;
pub mod storage;
pub mod version;
