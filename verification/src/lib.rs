//! Signing core of a mobile cryptocurrency wallet.
//!
//! The crate covers the orchestration layer between a host wallet boundary and
//! the network: the wire codec for the payloads that cross that boundary, the
//! signer capability variants, the bridge event protocol, and the per-slot
//! request state machine with its submission rules.

pub mod bridge;
pub mod codec;
pub mod crypto;
pub mod laws;
pub mod mwa;
pub mod signer;
pub mod state;
