//! Attestation and identity binding for TDX enclaves.
//!
//! The crate has three layers, leaves first:
//! - shared attestation primitives: attestation-hash construction over an
//!   identity bundle, strict Ed25519 mutual-signature checking, and extraction
//!   of the encrypted PPID from a quote's certification data;
//! - the registry: a persistent map from instance public key to registered
//!   bundle, enforcing a monotonic update rule (bindings may grow, never
//!   change or shrink);
//! - the per-enclave identity service: a one-way lifecycle state machine that
//!   binds an operator, then an owner, then a workload configuration, and
//!   finally exposes the workload.

pub mod codec;
pub mod crypto;
pub mod encrypted_ppid;
pub mod hexcodec;
pub mod identity;
pub mod paths;
pub mod quote;
pub mod registry;
pub mod report_data;
pub mod types;
