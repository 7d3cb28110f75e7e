use consumet::manifest::{
    decrypt_source_envelope, extract_embed_id, get_sources_url, host_url,
    passphrase_from_key_bytes, subtitles_from_tracks, File, Sources, Tracks,
};

#[test]
fn embed_id_is_the_trailing_segment_without_query() {
    assert_eq!(
        extract_embed_id("https://dokicloud.one/embed/abc123?z=enabled"),
        "abc123"
    );
    assert_eq!(extract_embed_id("https://host/path/xyz"), "xyz");
    assert_eq!(extract_embed_id("justanid"), "justanid");
    assert_eq!(extract_embed_id("id?query=1"), "id");
}

#[test]
fn sources_url_is_host_endpoint_and_id() {
    assert_eq!(host_url(false), "https://dokicloud.one");
    assert_eq!(host_url(true), "https://rabbitstream.net");
    assert_eq!(
        get_sources_url(host_url(false), "abc123"),
        "https://dokicloud.one/ajax/embed/getSources?id=abc123"
    );
}

#[test]
fn tracks_map_one_to_one_with_label_default() {
    let tracks = vec![
        Tracks {
            file: "https://s/en.vtt".to_string(),
            label: Some("English".to_string()),
            kind: Some("captions".to_string()),
            default: Some(true),
        },
        Tracks {
            file: "https://s/x.vtt".to_string(),
            label: None,
            kind: None,
            default: None,
        },
    ];
    let subs = subtitles_from_tracks(&tracks);
    assert_eq!(subs.len(), 2);
    assert_eq!(subs[0].url, "https://s/en.vtt");
    assert_eq!(subs[0].lang, "English");
    assert_eq!(subs[1].url, "https://s/x.vtt");
    assert_eq!(subs[1].lang, "unspecified");
}

#[test]
fn manifest_invariant_ties_flag_to_shape() {
    let encrypted = Sources {
        sources: File::EncryptedURL("U2FsdGVk".to_string()),
        tracks: None,
        encrypted: true,
        server: 4,
    };
    assert!(encrypted.check_well_formed());
    let inconsistent = Sources {
        sources: File::DecryptedURL(vec![]),
        tracks: None,
        encrypted: true,
        server: 0,
    };
    assert!(!inconsistent.check_well_formed());
}

#[test]
fn encrypted_sources_decrypt_with_the_remote_key_bytes() {
    // the key service answers raw bytes; the passphrase is their base64
    let key_bytes: Vec<u8> = vec![1, 2, 3, 4, 5, 6, 7, 8, 9, 10];
    let passphrase = passphrase_from_key_bytes(&key_bytes);
    assert_eq!(passphrase, openssl::base64::encode_block(&key_bytes));
    let plaintext = "[{\"file\":\"https://cdn/x.m3u8\"}]";
    let salt = [8u8; 8];
    let ct = consumet::envelope::encrypt_url(plaintext, passphrase.as_bytes(), &salt);
    let back = decrypt_source_envelope(&ct, &key_bytes).expect("decrypt");
    assert_eq!(back, plaintext);
}
