//! Verification of notarized TLS presentations: hex decoding of the artifact,
//! the trust gate between the embedded verifying key and the caller's notary
//! key, and redaction of the disclosed transcript.
use vstd::prelude::*;

pub mod error;
pub mod hex_text;
pub mod keys;
pub mod laws;
pub mod session;
pub mod transcript;

verus! {

} // verus!
