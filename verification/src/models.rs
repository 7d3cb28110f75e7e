//! Shared data model: the result, info and configuration types that
//! providers and extractors exchange, and the extractor contract.

pub mod base_provider;
pub mod base_types;
pub mod type_objects;
pub mod types;
pub mod video_extractor;
