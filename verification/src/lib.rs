//! Media source resolution and aggregation library.
//!
//! Resolves playable media source URLs from video-embed hosts: it decodes
//! passphrase-encrypted source manifests, expands master playlists into
//! per-quality variants, and merges concurrent multi-page scrape results
//! into a single collection, tolerating partial failure.

pub mod aggregator;
pub mod envelope;
pub mod error;
pub mod extractors;
pub mod get_comics;
pub mod manifest;
pub mod models;
pub mod playlist;
pub mod providers;
pub mod queries;
pub mod strutil;
pub mod util_funcs;
