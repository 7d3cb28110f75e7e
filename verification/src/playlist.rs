//! Playlist expander.
//!
//! A master streaming playlist is line-oriented text. Expansion collects
//! the lines carrying a resolution attribute and the lines carrying a
//! segment-list URL, pairs them positionally (the i-th resolution line
//! with the i-th URL line — a structural assumption about the playlist's
//! interleaving, kept deliberately), and derives each variant's quality
//! label from the token after the `x` of its `WxH` resolution. A synthetic
//! `auto` entry pointing at the master playlist itself always comes first.

use vstd::prelude::*;

use crate::manifest::VidCloudSource;
use crate::strutil;

verus! {

use crate::strutil::char_break;
use crate::strutil::views_of;
use crate::strutil::lemma_first_single_match;
use crate::strutil::lemma_no_single_match;

/// A line with its trailing carriage return removed.
pub open spec fn strip_cr(l: Seq<char>) -> Seq<char> {
    if l.len() > 0 && l.last() == '\r' {
        l.drop_last()
    } else {
        l
    }
}

/// The lines of `s`: segments split at `\n`, each stripped of a trailing
/// `\r`, with no final empty segment after a trailing `\n`.
pub open spec fn spec_lines(s: Seq<char>) -> Seq<Seq<char>>
    decreases s.len(),
{
    if s.len() == 0 {
        seq![]
    } else {
        let i = char_break(s, '\n');
        if 0 <= i < s.len() {
            seq![strip_cr(s.take(i))] + spec_lines(s.skip(i + 1))
        } else {
            seq![strip_cr(s)]
        }
    }
}

/// The characters of `l` with a trailing carriage return removed.
fn strip_cr_exec(l: Vec<char>) -> (r: Vec<char>)
    ensures
        r@ == strip_cr(l@),
{
    let n = l.len();
    if n > 0 && l[n - 1] == '\r' {
        let r = crate::manifest::slice_prefix(l.as_slice(), n - 1);
        proof {
            assert(r@ =~= l@.drop_last());
        }
        r
    } else {
        l
    }
}

/// Splits text into lines: at `\n`, stripping a trailing `\r` from each
/// line and producing no final empty line after a trailing `\n`.
#[verifier::loop_isolation(false)]
pub fn split_lines(text: &str) -> (r: Vec<String>)
    ensures
        views_of(r@) == spec_lines(text@),
{
    let chars = strutil::str_chars(text);
    let n = chars.len();
    let newline: [char; 1] = ['\n'];
    let mut r: Vec<String> = Vec::new();
    let mut pos: usize = 0;
    proof {
        assert(views_of(r@) =~= Seq::<Seq<char>>::empty());
        assert(chars@.skip(0) =~= chars@);
        assert(spec_lines(chars@) =~= views_of(r@) + spec_lines(chars@.skip(0)));
    }
    while pos < n
        invariant
            n == chars@.len(),
            pos <= n,
            spec_lines(chars@) == views_of(r@) + spec_lines(chars@.skip(pos as int)),
        decreases n - pos,
    {
        let ghost old_r = r@;
        let ghost rest_view = chars@.skip(pos as int);
        let rest = crate::manifest::slice_suffix(chars.as_slice(), pos);
        proof {
            assert(newline@ =~= seq!['\n']);
        }
        match strutil::find_first(rest.as_slice(), newline.as_slice()) {
            Some(i) => {
                proof {
                    lemma_first_single_match(rest_view, '\n', i as int);
                }
                let line_chars = crate::manifest::slice_prefix(rest.as_slice(), i);
                let stripped = strip_cr_exec(line_chars);
                r.push(strutil::chars_to_string(stripped.as_slice()));
                pos = pos + i + 1;
                proof {
                    assert(chars@.skip(pos as int) =~= rest_view.skip(i + 1));
                    assert(views_of(r@) =~= views_of(old_r).push(strip_cr(rest_view.take(
                        i as int,
                    ))));
                    assert(spec_lines(rest_view) == seq![
                        strip_cr(rest_view.take(i as int)),
                    ] + spec_lines(rest_view.skip(i + 1)));
                    assert(views_of(old_r) + spec_lines(rest_view) =~= views_of(r@) + spec_lines(
                        chars@.skip(pos as int),
                    ));
                }
            },
            None => {
                proof {
                    lemma_no_single_match(rest_view, '\n');
                }
                let stripped = strip_cr_exec(rest);
                r.push(strutil::chars_to_string(stripped.as_slice()));
                pos = n;
                proof {
                    assert(spec_lines(rest_view) == seq![strip_cr(rest_view)]);
                    assert(views_of(r@) =~= views_of(old_r).push(strip_cr(rest_view)));
                    assert(chars@.skip(n as int) =~= Seq::<char>::empty());
                    assert(views_of(old_r) + spec_lines(rest_view) =~= views_of(r@) + spec_lines(
                        chars@.skip(pos as int),
                    ));
                }
            },
        }
    }
    proof {
        assert(chars@.skip(pos as int) =~= Seq::<char>::empty());
        assert(views_of(r@) =~= views_of(r@) + spec_lines(chars@.skip(pos as int)));
    }
    r
}

/// The lines among `lines` that contain the pattern `p`, in order.
pub open spec fn matching_lines(lines: Seq<Seq<char>>, p: Seq<char>) -> Seq<Seq<char>>
    decreases lines.len(),
{
    if lines.len() == 0 {
        seq![]
    } else if strutil::contains_seq(lines.last(), p) {
        matching_lines(lines.drop_last(), p).push(lines.last())
    } else {
        matching_lines(lines.drop_last(), p)
    }
}

/// Keeps the lines that contain `pattern`, preserving their order.
#[verifier::loop_isolation(false)]
pub fn filter_lines(lines: &Vec<String>, pattern: &str) -> (r: Vec<String>)
    ensures
        views_of(r@) == matching_lines(views_of(lines@), pattern@),
{
    let pv = strutil::str_chars(pattern);
    let n = lines.len();
    let mut r: Vec<String> = Vec::new();
    let mut i: usize = 0;
    while i < n
        invariant
            n == lines@.len(),
            i <= n,
            pv@ == pattern@,
            views_of(r@) == matching_lines(views_of(lines@).take(i as int), pattern@),
        decreases n - i,
    {
        let ghost old_r = r@;
        let lv = strutil::str_chars(lines[i].as_str());
        if strutil::contains_pattern(lv.as_slice(), pv.as_slice()) {
            r.push(crate::manifest::clone_string(&lines[i]));
            proof {
                assert(views_of(r@) =~= views_of(old_r).push(lines@[i as int]@));
            }
        }
        i = i + 1;
        proof {
            let taken = views_of(lines@).take(i as int);
            assert(taken.drop_last() =~= views_of(lines@).take(i - 1));
            assert(taken.last() == lines@[i - 1]@);
        }
    }
    proof {
        assert(views_of(lines@).take(n as int) =~= views_of(lines@));
    }
    r
}

/// The quality label a resolution line yields: the token between the
/// first `x` and the next `x` (or the end of the line); empty when the
/// line has no `x` at all.
pub open spec fn spec_quality(l: Seq<char>) -> Seq<char> {
    if char_break(l, 'x') == l.len() {
        Seq::empty()
    } else {
        let rest = l.skip(char_break(l, 'x') + 1);
        rest.take(char_break(rest, 'x'))
    }
}

/// Derives the quality label from a resolution line: the token after the
/// first `x`, up to the next `x` or the end (the height of a `WxH`
/// resolution token).
pub fn quality_label(line: &str) -> (r: String)
    ensures
        r@ == spec_quality(line@),
{
    let chars = strutil::str_chars(line);
    let chars_len = chars.len();
    let x_pat: [char; 1] = ['x'];
    proof {
        assert(x_pat@ =~= seq!['x']);
    }
    match strutil::find_first(chars.as_slice(), x_pat.as_slice()) {
        Some(i) => {
            proof {
                lemma_first_single_match(chars@, 'x', i as int);
            }
            let rest = crate::manifest::slice_suffix(chars.as_slice(), i + 1);
            let rest_len = rest.len();
            match strutil::find_first(rest.as_slice(), x_pat.as_slice()) {
                Some(j) => {
                    proof {
                        lemma_first_single_match(rest@, 'x', j as int);
                    }
                    let head = crate::manifest::slice_prefix(rest.as_slice(), j);
                    strutil::chars_to_string(head.as_slice())
                },
                None => {
                    proof {
                        lemma_no_single_match(rest@, 'x');
                        assert(rest@.take(rest@.len() as int) =~= rest@);
                    }
                    strutil::chars_to_string(rest.as_slice())
                },
            }
        },
        None => {
            proof {
                lemma_no_single_match(chars@, 'x');
            }
            String::new()
        },
    }
}

/// The characters of the synthetic quality label `auto`.
pub open spec fn auto_label() -> Seq<char> {
    seq!['a', 'u', 't', 'o']
}

/// The marker a segment-list URL line carries.
pub open spec fn m3u8_marker() -> Seq<char> {
    seq!['.', 'm', '3', 'u', '8']
}

/// The marker a resolution line carries.
pub open spec fn resolution_marker() -> Seq<char> {
    seq!['R', 'E', 'S', 'O', 'L', 'U', 'T', 'I', 'O', 'N', '=']
}

/// The URL lines of a playlist text.
pub open spec fn playlist_urls(text: Seq<char>) -> Seq<Seq<char>> {
    matching_lines(spec_lines(text), m3u8_marker())
}

/// The resolution lines of a playlist text.
pub open spec fn playlist_resolutions(text: Seq<char>) -> Seq<Seq<char>> {
    matching_lines(spec_lines(text), resolution_marker())
}

/// Expands one master playlist: entry 0 is the synthetic `auto` variant
/// pointing at the playlist itself, and one entry follows per resolution
/// line, paired positionally with the URL line of the same rank.
///
/// The pairing assumes the playlist interleaves resolution and URL lines
/// one to one; a playlist with more resolution lines than URL lines is
/// outside this function's domain (see `expand_playlist_checked`).
#[verifier::loop_isolation(false)]
pub fn expand_playlist(file_url: &str, playlist_text: &str) -> (r: Vec<VidCloudSource>)
    requires
        playlist_resolutions(playlist_text@).len() <= playlist_urls(playlist_text@).len(),
    ensures
        r@.len() == 1 + playlist_resolutions(playlist_text@).len(),
        r@[0].url@ == file_url@,
        r@[0].quality@ == auto_label(),
        r@[0].is_m3u8 == strutil::contains_seq(file_url@, m3u8_marker()),
        forall|i: int|
            1 <= i < r@.len() ==> (#[trigger] r@[i]).url@ == playlist_urls(playlist_text@)[i - 1]
                && r@[i].quality@ == spec_quality(playlist_resolutions(playlist_text@)[i - 1])
                && r@[i].is_m3u8 == strutil::contains_seq(
                playlist_urls(playlist_text@)[i - 1],
                m3u8_marker(),
            ),
{
    let lines = split_lines(playlist_text);
    proof {
        reveal_strlit(".m3u8");
        reveal_strlit("RESOLUTION=");
        reveal_strlit("auto");
        assert(".m3u8"@ =~= m3u8_marker());
        assert("RESOLUTION="@ =~= resolution_marker());
        assert("auto"@ =~= auto_label());
    }
    let urls = filter_lines(&lines, ".m3u8");
    let quals = filter_lines(&lines, "RESOLUTION=");
    let mut r: Vec<VidCloudSource> = Vec::new();
    r.push(
        VidCloudSource {
            url: file_url.to_owned(),
            quality: "auto".to_owned(),
            is_m3u8: strutil::str_contains(file_url, ".m3u8"),
        },
    );
    let n = quals.len();
    let mut i: usize = 0;
    while i < n
        invariant
            n == quals@.len(),
            n <= urls@.len(),
            i <= n,
            r@.len() == 1 + i,
            r@[0].url@ == file_url@,
            r@[0].quality@ == auto_label(),
            r@[0].is_m3u8 == strutil::contains_seq(file_url@, m3u8_marker()),
            views_of(urls@) == playlist_urls(playlist_text@),
            views_of(quals@) == playlist_resolutions(playlist_text@),
            forall|k: int|
                1 <= k < r@.len() ==> (#[trigger] r@[k]).url@ == playlist_urls(playlist_text@)[k
                    - 1] && r@[k].quality@ == spec_quality(
                    playlist_resolutions(playlist_text@)[k - 1],
                ) && r@[k].is_m3u8 == strutil::contains_seq(
                    playlist_urls(playlist_text@)[k - 1],
                    m3u8_marker(),
                ),
        decreases n - i,
    {
        r.push(
            VidCloudSource {
                url: crate::manifest::clone_string(&urls[i]),
                quality: quality_label(quals[i].as_str()),
                is_m3u8: strutil::str_contains(urls[i].as_str(), ".m3u8"),
            },
        );
        i = i + 1;
    }
    r
}

/// Expands a playlist after checking the structural pairing assumption:
/// when the playlist has more resolution lines than URL lines the pairing
/// would run off the end, and `None` is returned instead. A successful
/// expansion carries exactly the entries `expand_playlist` describes.
pub fn expand_playlist_checked(file_url: &str, playlist_text: &str) -> (r: Option<
    Vec<VidCloudSource>,
>)
    ensures
        playlist_resolutions(playlist_text@).len() <= playlist_urls(playlist_text@).len()
            <==> r is Some,
        r matches Some(v) ==> v@.len() == 1 + playlist_resolutions(playlist_text@).len()
            && v@[0].url@ == file_url@ && v@[0].quality@ == auto_label() && v@[0].is_m3u8
            == strutil::contains_seq(file_url@, m3u8_marker()) && forall|i: int|
            1 <= i < v@.len() ==> (#[trigger] v@[i]).url@ == playlist_urls(playlist_text@)[i - 1]
                && v@[i].quality@ == spec_quality(playlist_resolutions(playlist_text@)[i - 1])
                && v@[i].is_m3u8 == strutil::contains_seq(
                playlist_urls(playlist_text@)[i - 1],
                m3u8_marker(),
            ),
{
    let lines = split_lines(playlist_text);
    proof {
        reveal_strlit(".m3u8");
        reveal_strlit("RESOLUTION=");
        assert(".m3u8"@ =~= m3u8_marker());
        assert("RESOLUTION="@ =~= resolution_marker());
    }
    let urls = filter_lines(&lines, ".m3u8");
    let quals = filter_lines(&lines, "RESOLUTION=");
    if quals.len() <= urls.len() {
        Some(expand_playlist(file_url, playlist_text))
    } else {
        None
    }
}

} // verus!
