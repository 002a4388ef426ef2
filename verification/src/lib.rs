//! Client-side core of a local attestation proxy: it resolves the calling
//! container's identity from kernel-exposed mount records, shapes the typed
//! requests of the five attestation operations, and classifies the outcome of
//! each exchange, so that a caller can obtain confidential-computing evidence
//! from a privileged node-level service over a local socket.

pub mod client;
pub mod errors;
pub mod identity;
pub mod tee;

pub use client::CcnpServiceClient;
pub use errors::ClientError;
pub use errors::ExchangeFault;
pub use errors::IdentityFailure;
pub use errors::Operation;
pub use tee::TeeType;
