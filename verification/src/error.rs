//! Error taxonomy shared by every subsystem.
//!
//! Each resolution or aggregation step returns a typed failure instead of
//! aborting: transport problems, malformed input, failed decryption and
//! missing servers are kept apart so that callers can react to each.

use vstd::prelude::*;

verus! {

/// The failure classes a resolution attempt can surface.
///
/// `Network` covers transport failures and is never retried internally.
/// `Format` marks malformed envelopes, bad magic prefixes and invalid JSON
/// or UTF-8. `Crypto` marks a failed decryption (for instance bad padding)
/// and is deliberately distinct from `Format`. `NotFound` reports a
/// requested server or quality that is absent from a manifest.
#[derive(Clone, Copy, Debug, PartialEq, Eq, Structural)]
pub enum ExtractorError {
    Network,
    Format,
    Crypto,
    NotFound,
}

impl ExtractorError {
    /// A short human-readable name for the failure class.
    pub fn describe(&self) -> (r: &'static str)
        ensures
            *self is Network ==> r@ == "network failure"@,
            *self is Format ==> r@ == "malformed input"@,
            *self is Crypto ==> r@ == "decryption failure"@,
            *self is NotFound ==> r@ == "not found"@,
    {
        match self {
            ExtractorError::Network => "network failure",
            ExtractorError::Format => "malformed input",
            ExtractorError::Crypto => "decryption failure",
            ExtractorError::NotFound => "not found",
        }
    }
}

} // verus!
