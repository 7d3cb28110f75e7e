use consumet::error::ExtractorError;
use consumet::extractors::{AsianLoad, MixDrop, StreamTape};
use consumet::models::types::{
    ExtractConfig, MediaFormat, MediaStatus, StreamingServers, SubOrSub, TvType,
};
use consumet::models::video_extractor::VideoExtractor;

#[test]
fn enum_display_names() {
    assert_eq!(MediaFormat::OneShot.to_string(), "ONE_SHOT");
    assert_eq!(MediaFormat::Tv.to_string(), "TV");
    assert_eq!(MediaStatus::NotYetAired.to_string(), "Not yet aired");
    assert_eq!(SubOrSub::Both.to_string(), "both");
    assert_eq!(TvType::TvSeries.to_string(), "TV Series");
    assert_eq!(StreamingServers::Filemoon.to_string(), "FileMoon");
    assert_eq!(StreamingServers::VidCloud.lowercase_name(), "vidcloud");
}

#[test]
fn default_config_leaves_every_knob_unset() {
    let c = ExtractConfig::default();
    assert!(c.vis_cloud_helper.is_none());
    assert!(c.api_key.is_none());
    assert!(c.is_alternative.is_none());
    assert!(c.user_agent.is_none());
}

#[test]
fn pass_through_extractors_append_one_entry() {
    let mut e = AsianLoad { sources: vec![], subtitles: vec![] };
    let out = e
        .extract("https://host/embed".to_string(), ExtractConfig::default())
        .expect("extract");
    assert_eq!(e.sources.len(), 1);
    assert_eq!(e.subtitles.len(), 1);
    assert_eq!(out.sources.len(), 1);
    assert_eq!(out.sources[0].url, "");
    assert!(!out.sources[0].is_m3u8);

    let mut m = MixDrop { sources: vec![], subtitles: vec![] };
    m.extract(String::new(), ExtractConfig::default()).expect("extract");
    m.extract(String::new(), ExtractConfig::default()).expect("extract");
    assert_eq!(m.sources.len(), 2);

    let mut t = StreamTape { sources: vec![] };
    let out = t.extract(String::new(), ExtractConfig::default()).expect("extract");
    assert_eq!(out.sources.len(), 1);
}

#[test]
fn error_classes_describe_themselves() {
    assert_eq!(ExtractorError::Network.describe(), "network failure");
    assert_eq!(ExtractorError::Format.describe(), "malformed input");
    assert_eq!(ExtractorError::Crypto.describe(), "decryption failure");
    assert_eq!(ExtractorError::NotFound.describe(), "not found");
}
