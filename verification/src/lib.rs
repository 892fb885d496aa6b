//! An authorization gateway in front of a remote multi-party signing service.
//!
//! A caller submits a hex-encoded transaction payload together with a key
//! derivation path and a key version. The gateway classifies the caller
//! (owner or public), checks the payload against a whitelist of public
//! method markers, enforces a minimum fee for non-owner callers, hashes the
//! decoded payload with Keccak-256, and builds the request that is handed to
//! the external signer. The gateway holds no key material: everything it
//! guarantees is in the admission decision and in the integrity of the
//! request it constructs, and those are what this crate verifies.

pub mod digest;
pub mod error;
pub mod gateway;
pub mod hexstr;
pub mod textmatch;

pub use digest::DigestOrder;
pub use error::SignError;
pub use gateway::Config;
pub use gateway::Contract;
pub use gateway::Protocol;
pub use gateway::SignRequest;
