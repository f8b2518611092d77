//! A verified engine for a document-proxy gateway in front of a cloud
//! object-storage bucket.
//!
//! The library holds the logic worth checking: the inbound bearer-token
//! gate, the ordered credential-provider chain, canonical request signing
//! for the storage backend, a scoped-token cache with a single-flight
//! refresh discipline, and the per-request planning and response mapping
//! of the proxy itself. The surrounding HTTP server, transport client and
//! file reads live outside the library and hand it plain values.

pub mod auth;
pub mod cache;
pub mod chain;
pub mod crypto;
pub mod gateway;
pub mod signer;

pub use auth::AuthDecision;
pub use auth::authorize;
