//! Manifest model and resolver.
//!
//! A host's AJAX endpoint answers with a JSON manifest that describes one
//! or more source files and subtitle tracks. The manifest arrives here as
//! plain values (the I/O shell parses the JSON); this module holds the
//! model types, the invariant tying the `encrypted` flag to the shape of
//! the sources, the embed-id and URL computations, and the decryption of
//! an encrypted source list with a remotely fetched passphrase.

use vstd::prelude::*;

use crate::envelope;
use crate::error::ExtractorError;
use crate::strutil;

verus! {

use vstd::string::StringExecFns;

/// One subtitle or caption track listed by a manifest.
#[derive(Debug)]
pub struct Tracks {
    pub file: String,
    pub label: Option<String>,
    pub kind: Option<String>,
    pub default: Option<bool>,
}

/// One manifest-listed source file, possibly a master playlist.
#[derive(Debug)]
pub struct Video {
    pub file: Option<String>,
    pub media_type: Option<String>,
}

/// The source list of a manifest: either still an encrypted envelope, or
/// an already decrypted list of files.
#[derive(Debug)]
pub enum File {
    EncryptedURL(String),
    DecryptedURL(Vec<Video>),
}

/// A host's source manifest.
#[derive(Debug)]
pub struct Sources {
    pub sources: File,
    pub tracks: Option<Vec<Tracks>>,
    pub encrypted: bool,
    pub server: u8,
}

impl Sources {
    /// The manifest invariant: the `encrypted` flag holds exactly when the
    /// sources are still a cipher envelope.
    pub open spec fn well_formed(&self) -> bool {
        self.encrypted <==> self.sources is EncryptedURL
    }

    /// Checks the manifest invariant.
    pub fn check_well_formed(&self) -> (r: bool)
        ensures
            r == self.well_formed(),
    {
        match &self.sources {
            File::EncryptedURL(_) => self.encrypted,
            File::DecryptedURL(_) => !self.encrypted,
        }
    }
}

/// One resolved, possibly playlist-expanded source.
#[derive(Debug)]
pub struct VidCloudSource {
    pub url: String,
    pub quality: String,
    pub is_m3u8: bool,
}

/// One resolved subtitle entry.
#[derive(Debug)]
pub struct VidCloudSubtitle {
    pub url: String,
    pub lang: String,
}

/// The resolved output of the encrypted-manifest extractor: quality-tagged
/// sources and subtitle tracks.
#[derive(Debug)]
pub struct VidCloud {
    pub sources: Vec<VidCloudSource>,
    pub subtitles: Vec<VidCloudSubtitle>,
}

/// The sentinel label used for a track without one.
pub open spec fn unspecified_label() -> Seq<char> {
    seq!['u', 'n', 's', 'p', 'e', 'c', 'i', 'f', 'i', 'e', 'd']
}

/// The subtitle entry a track maps to: the track's file and its label,
/// with the sentinel substituted when the label is absent.
pub open spec fn spec_subtitle_of(t: Tracks) -> (Seq<char>, Seq<char>) {
    (
        t.file@,
        match t.label {
            Some(l) => l@,
            None => unspecified_label(),
        },
    )
}

/// Maps manifest tracks one to one onto subtitle entries, substituting the
/// default sentinel for an absent label.
#[verifier::loop_isolation(false)]
pub fn subtitles_from_tracks(tracks: &Vec<Tracks>) -> (r: Vec<VidCloudSubtitle>)
    ensures
        r@.len() == tracks@.len(),
        forall|i: int|
            0 <= i < r@.len() ==> (#[trigger] r@[i].url@, r@[i].lang@) == spec_subtitle_of(
                tracks@[i],
            ),
{
    let mut r: Vec<VidCloudSubtitle> = Vec::new();
    let n = tracks.len();
    let mut i: usize = 0;
    while i < n
        invariant
            n == tracks@.len(),
            i <= n,
            r@.len() == i,
            forall|k: int|
                0 <= k < i ==> (#[trigger] r@[k].url@, r@[k].lang@) == spec_subtitle_of(
                    tracks@[k],
                ),
        decreases n - i,
    {
        let t = &tracks[i];
        let lang = match &t.label {
            Some(l) => clone_string(l),
            None => {
                let s = unspecified_sentinel();
                s
            },
        };
        r.push(VidCloudSubtitle { url: clone_string(&t.file), lang });
        i = i + 1;
    }
    r
}

/// The literal sentinel label.
pub fn unspecified_sentinel() -> (r: String)
    ensures
        r@ == unspecified_label(),
{
    proof {
        reveal_strlit("unspecified");
    }
    let s: &str = "unspecified";
    s.to_owned()
}

/// A copy of a string with the same characters.
pub fn clone_string(s: &String) -> (r: String)
    ensures
        r == s,
        r@ == s@,
{
    s.clone()
}

/// The embed id of an embed URL: the part after the last `/`, with any
/// query string (from the first `?` on) stripped.
pub open spec fn spec_embed_id(url: Seq<char>) -> Seq<char> {
    let tail = if strutil::contains_seq(url, seq!['/']) {
        url.skip(strutil::last_index_of(url, '/') + 1)
    } else {
        url
    };
    if strutil::contains_seq(tail, seq!['?']) {
        tail.take(strutil::first_index_of(tail, '?'))
    } else {
        tail
    }
}

/// Extracts the embed id from an embed URL: the trailing path segment,
/// stripped of the query string.
pub fn extract_embed_id(url: &str) -> (r: String)
    ensures
        r@ == spec_embed_id(url@),
{
    let chars = strutil::str_chars(url);
    let chars_len = chars.len();
    let slash: [char; 1] = ['/'];
    let qmark: [char; 1] = ['?'];
    let ghost orig = chars@;
    let tail: Vec<char> = match strutil::find_last(chars.as_slice(), slash.as_slice()) {
        Some(i) => {
            proof {
                assert(slash@ =~= seq!['/']);
                assert(i == strutil::last_index_of(orig, '/')) by {
                    let w = strutil::last_index_of(orig, '/');
                    assert(strutil::match_at(orig, seq!['/'], i as int) && forall|j: int|
                        i < j ==> !strutil::match_at(orig, seq!['/'], j));
                }
            }
            slice_suffix(chars.as_slice(), i + 1)
        },
        None => {
            proof {
                assert(slash@ =~= seq!['/']);
            }
            chars
        },
    };
    let ghost mid = tail@;
    let head: Vec<char> = match strutil::find_first(tail.as_slice(), qmark.as_slice()) {
        Some(i) => {
            proof {
                assert(qmark@ =~= seq!['?']);
                assert(i == strutil::first_index_of(mid, '?')) by {
                    let w = strutil::first_index_of(mid, '?');
                    assert(strutil::match_at(mid, seq!['?'], i as int) && forall|j: int|
                        0 <= j < i ==> !strutil::match_at(mid, seq!['?'], j));
                }
            }
            slice_prefix(tail.as_slice(), i)
        },
        None => {
            proof {
                assert(qmark@ =~= seq!['?']);
            }
            tail
        },
    };
    strutil::chars_to_string(head.as_slice())
}

/// The primary mirror host for the manifest endpoint.
pub fn host_url(is_alternative: bool) -> (r: &'static str)
    ensures
        !is_alternative ==> r@ == "https://dokicloud.one"@,
        is_alternative ==> r@ == "https://rabbitstream.net"@,
{
    if !is_alternative {
        "https://dokicloud.one"
    } else {
        "https://rabbitstream.net"
    }
}

/// The manifest endpoint URL for a host and an embed id.
pub fn get_sources_url(host: &str, id: &str) -> (r: String)
    ensures
        r@ == host@ + "/ajax/embed/getSources?id="@ + id@,
{
    let mut r = host.to_owned();
    r.append("/ajax/embed/getSources?id=");
    r.append(id);
    r
}

/// The decryption passphrase derived from the key service's bytes: their
/// base64 encoding, used as passphrase text.
pub fn passphrase_from_key_bytes(key_json: &[u8]) -> (r: String)
    requires
        key_json@.len() <= 0x0400_0000,
    ensures
        r@ == envelope::base64_encoded(key_json@),
{
    envelope::base64_encode_block(key_json)
}

/// Decrypts an encrypted source list with the key service's bytes: the
/// passphrase is the base64 text of those bytes, taken as UTF-8 bytes.
///
/// The result is the decrypted JSON text of the source list, exactly what
/// `envelope::spec_decrypt_url` describes under that passphrase.
pub fn decrypt_source_envelope(encrypted: &str, key_json: &[u8]) -> (r: Result<
    String,
    ExtractorError,
>)
    requires
        encrypted@.len() <= 0x0800_0000,
        key_json@.len() <= 0x0400_0000,
    ensures
        ({
            let pass = vstd::utf8::encode_utf8(envelope::base64_encoded(key_json@));
            match r {
                Ok(s) => envelope::spec_decrypt_url(encrypted@, pass) == Ok::<_, ExtractorError>(
                    s@,
                ),
                Err(e) => envelope::spec_decrypt_url(encrypted@, pass) == Err::<
                    Seq<char>,
                    ExtractorError,
                >(e),
            }
        }),
{
    let passphrase = passphrase_from_key_bytes(key_json);
    let pass_bytes = passphrase.as_str().as_bytes();
    envelope::decrypt_url(encrypted, pass_bytes)
}

impl VidCloud {
    /// An empty resolution output.
    pub fn new() -> (r: VidCloud)
        ensures
            r.sources@.len() == 0,
            r.subtitles@.len() == 0,
    {
        VidCloud { sources: Vec::new(), subtitles: Vec::new() }
    }
}

/// The characters of `s` from position `i` on.
#[verifier::loop_isolation(false)]
pub fn slice_suffix(s: &[char], i: usize) -> (r: Vec<char>)
    requires
        i <= s@.len(),
    ensures
        r@ == s@.skip(i as int),
{
    let n = s.len();
    let mut r: Vec<char> = Vec::new();
    let mut k: usize = i;
    while k < n
        invariant
            n == s@.len(),
            i <= k <= n,
            r@ == s@.subrange(i as int, k as int),
        decreases n - k,
    {
        r.push(s[k]);
        k = k + 1;
        proof {
            assert(r@ =~= s@.subrange(i as int, k as int));
        }
    }
    proof {
        assert(r@ =~= s@.skip(i as int));
    }
    r
}

/// The first `i` characters of `s`.
#[verifier::loop_isolation(false)]
pub fn slice_prefix(s: &[char], i: usize) -> (r: Vec<char>)
    requires
        i <= s@.len(),
    ensures
        r@ == s@.take(i as int),
{
    let mut r: Vec<char> = Vec::new();
    let mut k: usize = 0;
    while k < i
        invariant
            i <= s@.len(),
            k <= i,
            r@ == s@.subrange(0, k as int),
        decreases i - k,
    {
        r.push(s[k]);
        k = k + 1;
        proof {
            assert(r@ =~= s@.subrange(0, k as int));
        }
    }
    proof {
        assert(r@ =~= s@.take(i as int));
    }
    r
}

} // verus!
