//! Post description scanning.
//!
//! A comic post is one free-form text blob. The scanner walks it once:
//! a `Year ` marker yields the four characters two places after it, a
//! `Size ` marker yields a digit run plus the two characters after the
//! run (the unit), and everything after the first size is collected as
//! the description, finally shortened by a fixed twelve-character tail.
//! A scan that would run off the end of the text stops early and keeps
//! what it has.

use vstd::prelude::*;

use crate::strutil;
use crate::util_funcs::is_ascii_digit_char;

verus! {

/// The three fields scanned out of a post.
pub struct PostInfo {
    pub year: String,
    pub size: String,
    pub description: String,
}

/// An index clamped to the text, so a scan past the end is the end.
pub open spec fn clamp_to(s: Seq<char>, i: int) -> int {
    if i > s.len() {
        s.len() as int
    } else {
        i
    }
}

/// Where a digit run starting at `j` ends: the first position at or
/// before `stop` (and inside the text) that does not hold a digit.
pub open spec fn digit_run_end(s: Seq<char>, j: int, stop: int) -> int
    decreases stop - j,
{
    if j < stop && 0 <= j < s.len() && is_ascii_digit_char(s[j]) {
        digit_run_end(s, j + 1, stop)
    } else {
        j
    }
}

/// One pass of the post scan from position `i`, carrying the fields
/// collected so far and whether a size was already closed.
pub open spec fn spec_post_scan(
    s: Seq<char>,
    i: int,
    year: Seq<char>,
    size: Seq<char>,
    desc: Seq<char>,
    size_done: bool,
) -> (Seq<char>, Seq<char>, Seq<char>)
    decreases s.len() - clamp_to(s, i),
{
    if i < 0 || i >= s.len() {
        (year, size, desc)
    } else if i + 5 < s.len() && s.subrange(i, i + 5) == "Year "@ {
        if i + 11 <= s.len() {
            let year2 = s.subrange(i + 7, i + 11);
            let i2 = i + 10;
            let desc2 = if size_done && i2 < s.len() {
                desc.push(s[i2])
            } else {
                desc
            };
            spec_post_scan(s, clamp_to(s, i2 + 1), year2, size, desc2, size_done)
        } else {
            (year, size, desc)
        }
    } else if i + 5 < s.len() && s.subrange(i, i + 5) == "Size "@ {
        let k = digit_run_end(s, i + 7, i + 11);
        let j = if k < i + 7 {
            i + 7
        } else {
            k
        };
        if j + 2 <= s.len() {
            let size2 = size + s.subrange(i + 7, j + 2);
            let i2 = j + 2;
            let desc2 = if i2 < s.len() {
                desc.push(s[i2])
            } else {
                desc
            };
            spec_post_scan(s, clamp_to(s, i2 + 1), year, size2, desc2, true)
        } else {
            (year, size, desc)
        }
    } else {
        let desc2 = if size_done {
            desc.push(s[i])
        } else {
            desc
        };
        spec_post_scan(s, i + 1, year, size, desc2, size_done)
    }
}

/// The description's fixed tail cut: twelve characters are dropped from
/// the end, and a shorter description becomes empty.
pub open spec fn spec_cut_tail(desc: Seq<char>) -> Seq<char> {
    if desc.len() >= 12 {
        desc.take(desc.len() - 12)
    } else {
        Seq::empty()
    }
}

/// What scanning a whole post yields: year, size, and the cut description.
pub open spec fn spec_post_info(s: Seq<char>) -> (Seq<char>, Seq<char>, Seq<char>) {
    let scanned = spec_post_scan(s, 0, Seq::empty(), Seq::empty(), Seq::empty(), false);
    (scanned.0, scanned.1, spec_cut_tail(scanned.2))
}

/// Whether the character at `j` is a decimal digit.
fn digit_at(s: &[char], j: usize) -> (r: bool)
    requires
        j < s@.len(),
    ensures
        r == is_ascii_digit_char(s@[j as int]),
{
    let cv = s[j] as u32;
    48 <= cv && cv <= 57
}

/// Scans a post into its year, size and description fields.
#[verifier::loop_isolation(false)]
pub fn parse_post_info(post: &str) -> (r: PostInfo)
    ensures
        r.year@ == spec_post_info(post@).0,
        r.size@ == spec_post_info(post@).1,
        r.description@ == spec_post_info(post@).2,
{
    let chars = strutil::str_chars(post);
    let n = chars.len();
    let year_pat = strutil::str_chars("Year ");
    let size_pat = strutil::str_chars("Size ");
    let mut year: Vec<char> = Vec::new();
    let mut size: Vec<char> = Vec::new();
    let mut desc: Vec<char> = Vec::new();
    let mut size_done = false;
    let mut i: usize = 0;
    proof {
        reveal_strlit("Year ");
        reveal_strlit("Size ");
        assert(year@ =~= Seq::<char>::empty());
        assert(size@ =~= Seq::<char>::empty());
        assert(desc@ =~= Seq::<char>::empty());
    }
    let mut done = false;
    while i < n && !done
        invariant
            n == chars@.len(),
            chars@ == post@,
            year_pat@ == "Year "@,
            size_pat@ == "Size "@,
            year_pat@.len() == 5,
            size_pat@.len() == 5,
            i <= n,
            !done ==> spec_post_scan(post@, 0, Seq::empty(), Seq::empty(), Seq::empty(), false)
                == spec_post_scan(post@, i as int, year@, size@, desc@, size_done),
            done ==> spec_post_scan(post@, 0, Seq::empty(), Seq::empty(), Seq::empty(), false) == (
                year@,
                size@,
                desc@,
            ),
        decreases n - i, (if done { 0int } else { 1int }),
    {
        let ghost g_i = i as int;
        let ghost g_year = year@;
        let ghost g_size = size@;
        let ghost g_desc = desc@;
        let ghost g_done = size_done;
        let is_year = n - i > 5 && strutil::check_match_at(
            chars.as_slice(),
            year_pat.as_slice(),
            i,
        );
        let is_size = !is_year && n - i > 5 && strutil::check_match_at(
            chars.as_slice(),
            size_pat.as_slice(),
            i,
        );
        if is_year {
            if n - i >= 11 {
                let mut y: Vec<char> = Vec::new();
                let mut k: usize = i + 7;
                while k < i + 11
                    invariant
                        i + 11 <= n,
                        i + 7 <= k <= i + 11,
                        y@ == post@.subrange(i + 7, k as int),
                    decreases i + 11 - k,
                {
                    y.push(chars[k]);
                    k = k + 1;
                    proof {
                        assert(y@ =~= post@.subrange(i + 7, k as int));
                    }
                }
                year = y;
                if size_done {
                    desc.push(chars[i + 10]);
                }
                i = i + 11;
                proof {
                    assert(spec_post_scan(post@, g_i, g_year, g_size, g_desc, g_done)
                        == spec_post_scan(post@, i as int, year@, size@, desc@, size_done));
                }
            } else {
                proof {
                    assert(spec_post_scan(post@, g_i, g_year, g_size, g_desc, g_done) == (
                        year@,
                        size@,
                        desc@,
                    ));
                }
                done = true;
            }
        } else if is_size {
            let mut j_rel: usize = 0;
            while j_rel < 4 && n - i > 7 + j_rel && digit_at(chars.as_slice(), i + 7 + j_rel)
                invariant
                    n - i > 5,
                    j_rel <= 4,
                    digit_run_end(post@, i + 7, i + 11) == digit_run_end(
                        post@,
                        i + 7 + j_rel,
                        i + 11,
                    ),
                decreases 4 - j_rel,
            {
                j_rel = j_rel + 1;
            }
            proof {
                assert(digit_run_end(post@, i + 7 + j_rel, i + 11) == i + 7 + j_rel);
            }
            let ghost g_j = i + 7 + j_rel as int;
            if n - i >= 9 + j_rel {
                let j = i + 7 + j_rel;
                let mut k: usize = i + 7;
                let ghost size_before = size@;
                while k < j + 2
                    invariant
                        j + 2 <= n,
                        j == i + 7 + j_rel,
                        i + 7 <= k <= j + 2,
                        size@ == size_before + post@.subrange(i + 7, k as int),
                    decreases j + 2 - k,
                {
                    size.push(chars[k]);
                    k = k + 1;
                    proof {
                        assert(size@ =~= size_before + post@.subrange(i + 7, k as int));
                    }
                }
                size_done = true;
                if n - j > 2 {
                    desc.push(chars[j + 2]);
                }
                i = if n - j >= 3 {
                    j + 3
                } else {
                    n
                };
                proof {
                    assert(spec_post_scan(post@, g_i, g_year, g_size, g_desc, g_done)
                        == spec_post_scan(post@, i as int, year@, size@, desc@, size_done));
                }
            } else {
                proof {
                    assert(g_j + 2 > n);
                    assert(spec_post_scan(post@, g_i, g_year, g_size, g_desc, g_done) == (
                        year@,
                        size@,
                        desc@,
                    ));
                }
                done = true;
            }
        } else {
            if size_done {
                desc.push(chars[i]);
            }
            i = i + 1;
            proof {
                assert(spec_post_scan(post@, g_i, g_year, g_size, g_desc, g_done)
                    == spec_post_scan(post@, i as int, year@, size@, desc@, size_done));
            }
        }
    }
    let description = if desc.len() >= 12 {
        let d = desc.len() - 12;
        crate::manifest::slice_prefix(desc.as_slice(), d)
    } else {
        proof {
            assert(spec_cut_tail(desc@) =~= Seq::<char>::empty());
        }
        Vec::new()
    };
    PostInfo {
        year: strutil::chars_to_string(year.as_slice()),
        size: strutil::chars_to_string(size.as_slice()),
        description: strutil::chars_to_string(description.as_slice()),
    }
}

} // verus!
