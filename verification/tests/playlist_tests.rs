use consumet::playlist::{expand_playlist, expand_playlist_checked, quality_label, split_lines};

const PLAYLIST: &str = "#EXTM3U\n\
#EXT-X-STREAM-INF:BANDWIDTH=1000000,RESOLUTION=1280x720\n\
https://cdn.example.org/v/720/index.m3u8\n\
#EXT-X-STREAM-INF:BANDWIDTH=2000000,RESOLUTION=1920x1080\n\
https://cdn.example.org/v/1080/index.m3u8\n";

#[test]
fn expansion_yields_one_entry_per_pair_plus_auto() {
    let sources = expand_playlist("https://cdn.example.org/v/master.m3u8", PLAYLIST);
    // two resolution/URL pairs expand to 2 + 1 entries
    assert_eq!(sources.len(), 3);
    assert_eq!(sources[0].quality, "auto");
    assert_eq!(sources[0].url, "https://cdn.example.org/v/master.m3u8");
    assert!(sources[0].is_m3u8);
    assert_eq!(sources[1].quality, "720");
    assert_eq!(sources[1].url, "https://cdn.example.org/v/720/index.m3u8");
    assert!(sources[1].is_m3u8);
    assert_eq!(sources[2].quality, "1080");
    assert_eq!(sources[2].url, "https://cdn.example.org/v/1080/index.m3u8");
    assert!(sources[2].is_m3u8);
}

#[test]
fn auto_entry_tracks_the_master_url() {
    let sources = expand_playlist("https://cdn.example.org/plain.mp4", "");
    assert_eq!(sources.len(), 1);
    assert_eq!(sources[0].quality, "auto");
    assert_eq!(sources[0].url, "https://cdn.example.org/plain.mp4");
    assert!(!sources[0].is_m3u8);
}

#[test]
fn quality_is_the_token_after_the_x() {
    assert_eq!(quality_label("1280x720"), "720");
    assert_eq!(quality_label("RESOLUTION=1920x1080"), "1080");
    assert_eq!(quality_label("640x360x999"), "360");
    assert_eq!(quality_label("no resolution here"), "");
}

#[test]
fn mismatched_pairing_is_detected() {
    // two resolution lines, one URL line: the positional pairing would
    // run off the end
    let text = "RESOLUTION=1280x720\nRESOLUTION=1920x1080\nhttps://a/.m3u8\n";
    assert!(expand_playlist_checked("https://a/master.m3u8", text).is_none());
    let ok = expand_playlist_checked("https://a/master.m3u8", PLAYLIST);
    assert_eq!(ok.expect("pairs line up").len(), 3);
}

#[test]
fn lines_split_like_the_standard_lines() {
    let lines = split_lines("a\r\nb\nc");
    let texts: Vec<&str> = lines.iter().map(|l| l.as_str()).collect();
    assert_eq!(texts, vec!["a", "b", "c"]);
    let lines = split_lines("one\n");
    assert_eq!(lines.len(), 1);
    assert_eq!(lines[0], "one");
    assert_eq!(split_lines("").len(), 0);
}
