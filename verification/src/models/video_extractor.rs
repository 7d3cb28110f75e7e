//! The extractor contract.
//!
//! Every host-specific resolver implements the same capability: given a
//! host embed URL and the shared optional configuration, produce that
//! host's source listing. Implementations read the configuration fields
//! they recognize and ignore the rest; any of them may fail with one of
//! the shared error classes.

use vstd::prelude::*;

use crate::error::ExtractorError;
use crate::models::types::ExtractConfig;

verus! {

/// The uniform interface of all host-specific resolvers.
pub trait VideoExtractor {
    type VideoSource;

    /// Resolves the sources available behind a host embed URL.
    fn extract(&mut self, video_url: String, args: ExtractConfig) -> Result<
        Self::VideoSource,
        ExtractorError,
    >;
}

} // verus!
