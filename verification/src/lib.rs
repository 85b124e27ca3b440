//! Capacity-bounded registries ("clerks") and multi-party agreement
//! records ("documents") for a replicated, deterministic execution
//! environment in which every state mutation is atomic.
//!
//! The library covers deterministic address derivation for records,
//! byte-exact record sizing and layout, the registry capacity lifecycle,
//! the document signature and finalization state machine, and in-place
//! record growth with proportional storage-deposit accounting.  Every
//! operation checks its guards first and either fully succeeds or leaves
//! every touched record exactly as it was.

pub mod clerk;
pub mod codec;
pub mod display;
pub mod document;
pub mod error;
pub mod instructions;
pub mod pda;
pub mod pubkey;
pub mod resize;
pub mod seeds;
pub mod space;
