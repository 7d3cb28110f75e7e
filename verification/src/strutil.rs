//! Verified string primitives.
//!
//! Everything here works over `Seq<char>` views: conversion between `&str`
//! and `Vec<char>`, substring search from either end, and string assembly.

use vstd::prelude::*;

verus! {

/// The views of a sequence of strings.
pub open spec fn views_of(v: Seq<String>) -> Seq<Seq<char>> {
    v.map_values(|s: String| s@)
}

/// True when pattern `p` occurs in `s` starting at position `i`.
pub open spec fn match_at(s: Seq<char>, p: Seq<char>, i: int) -> bool {
    0 <= i && i + p.len() <= s.len() && s.subrange(i, i + p.len() as int) == p
}

/// True when pattern `p` occurs somewhere in `s`.
pub open spec fn contains_seq(s: Seq<char>, p: Seq<char>) -> bool {
    exists|i: int| match_at(s, p, i)
}

/// Appends one character to a string.
///
/// Relies on `String::push`: pushes the given char onto the end.
#[verifier::external_body]
pub fn push_char(s: &mut String, c: char)
    ensures
        final(s)@ == old(s)@.push(c),
{
    s.push(c);
}

/// The characters of `s` as a vector.
#[verifier::loop_isolation(false)]
pub fn str_chars(s: &str) -> (r: Vec<char>)
    ensures
        r@ == s@,
{
    let n = s.unicode_len();
    let mut r: Vec<char> = Vec::new();
    let mut i: usize = 0;
    while i < n
        invariant
            n == s@.len(),
            i <= n,
            r@ == s@.subrange(0, i as int),
        decreases n - i,
    {
        r.push(s.get_char(i));
        i = i + 1;
        proof {
            assert(r@ =~= s@.subrange(0, i as int));
        }
    }
    proof {
        assert(r@ =~= s@);
    }
    r
}

/// A string holding exactly the characters of `v`.
#[verifier::loop_isolation(false)]
pub fn chars_to_string(v: &[char]) -> (r: String)
    ensures
        r@ == v@,
{
    let mut r = String::new();
    let n = v.len();
    let mut i: usize = 0;
    while i < n
        invariant
            n == v@.len(),
            i <= n,
            r@ == v@.subrange(0, i as int),
        decreases n - i,
    {
        push_char(&mut r, v[i]);
        i = i + 1;
        proof {
            assert(r@ =~= v@.subrange(0, i as int));
        }
    }
    proof {
        assert(r@ =~= v@);
    }
    r
}

/// Whether `p` occurs at position `i` of `s`.
#[verifier::loop_isolation(false)]
pub fn check_match_at(s: &[char], p: &[char], i: usize) -> (r: bool)
    requires
        i + p@.len() <= s@.len(),
    ensures
        r == match_at(s@, p@, i as int),
{
    let n = s.len();
    let m = p.len();
    let mut j: usize = 0;
    while j < m
        invariant
            n == s@.len(),
            m == p@.len(),
            i + m <= n,
            j <= m,
            forall|k: int| 0 <= k < j ==> s@[i + k] == p@[k],
        decreases m - j,
    {
        if s[i + j] != p[j] {
            proof {
                assert(s@.subrange(i as int, i + p@.len() as int)[j as int] == s@[i + j]);
            }
            return false;
        }
        j = j + 1;
    }
    proof {
        assert(s@.subrange(i as int, i + p@.len() as int) =~= p@);
    }
    true
}

/// The first position where `p` occurs in `s`, if any.
#[verifier::loop_isolation(false)]
pub fn find_first(s: &[char], p: &[char]) -> (r: Option<usize>)
    ensures
        match r {
            Some(i) => match_at(s@, p@, i as int) && forall|j: int|
                0 <= j < i ==> !match_at(s@, p@, j),
            None => !contains_seq(s@, p@),
        },
{
    let n = s.len();
    let m = p.len();
    if m > n {
        return None;
    }
    if m == 0 {
        proof {
            assert(match_at(s@, p@, 0)) by {
                assert(s@.subrange(0, 0) =~= p@);
            }
        }
        return Some(0);
    }
    let mut i: usize = 0;
    while i <= n - m
        invariant
            n == s@.len(),
            m == p@.len(),
            m <= n,
            i <= n - m + 1,
            forall|j: int| 0 <= j < i ==> !match_at(s@, p@, j),
        decreases n - m + 1 - i,
    {
        if check_match_at(s, p, i) {
            return Some(i);
        }
        i = i + 1;
    }
    proof {
        assert(forall|j: int| match_at(s@, p@, j) ==> 0 <= j <= s@.len() - p@.len());
    }
    None
}

/// The last position where `p` occurs in `s`, if any.
#[verifier::loop_isolation(false)]
pub fn find_last(s: &[char], p: &[char]) -> (r: Option<usize>)
    ensures
        match r {
            Some(i) => match_at(s@, p@, i as int) && forall|j: int|
                i < j ==> !match_at(s@, p@, j),
            None => !contains_seq(s@, p@),
        },
{
    let n = s.len();
    let m = p.len();
    if m > n {
        return None;
    }
    if m == 0 {
        proof {
            assert(match_at(s@, p@, n as int)) by {
                assert(s@.subrange(n as int, n as int) =~= p@);
            }
        }
        return Some(n);
    }
    let mut i: usize = n - m + 1;
    while i > 0
        invariant
            n == s@.len(),
            m == p@.len(),
            m <= n,
            i <= n - m + 1,
            forall|j: int| i <= j ==> !match_at(s@, p@, j),
        decreases i,
    {
        i = i - 1;
        if check_match_at(s, p, i) {
            return Some(i);
        }
    }
    None
}

/// Whether `p` occurs anywhere in `s`.
pub fn contains_pattern(s: &[char], p: &[char]) -> (r: bool)
    ensures
        r == contains_seq(s@, p@),
{
    match find_first(s, p) {
        Some(_) => true,
        None => false,
    }
}

/// Whether the string `s` contains the string `p`.
pub fn str_contains(s: &str, p: &str) -> (r: bool)
    ensures
        r == contains_seq(s@, p@),
{
    let sv = str_chars(s);
    let pv = str_chars(p);
    contains_pattern(sv.as_slice(), pv.as_slice())
}

/// Whether `s` starts with `p`.
pub fn str_starts_with(s: &str, p: &str) -> (r: bool)
    ensures
        r == match_at(s@, p@, 0),
{
    let sv = str_chars(s);
    let pv = str_chars(p);
    if pv.len() > sv.len() {
        return false;
    }
    check_match_at(sv.as_slice(), pv.as_slice(), 0)
}

/// The largest index at which `c` occurs in `s` (unspecified when absent).
pub open spec fn last_index_of(s: Seq<char>, c: char) -> int {
    choose|i: int|
        match_at(s, seq![c], i) && forall|j: int| i < j ==> !match_at(s, seq![c], j)
}

/// The smallest index at which `c` occurs in `s` (unspecified when absent).
pub open spec fn first_index_of(s: Seq<char>, c: char) -> int {
    choose|i: int|
        match_at(s, seq![c], i) && forall|j: int| 0 <= j < i ==> !match_at(s, seq![c], j)
}

/// What follows the last occurrence of `c` in `s`; all of `s` when `c`
/// does not occur.
pub open spec fn spec_after_last(s: Seq<char>, c: char) -> Seq<char> {
    if contains_seq(s, seq![c]) {
        s.skip(last_index_of(s, c) + 1)
    } else {
        s
    }
}

/// The suffix of `s` after the last occurrence of `sep`, or all of `s`
/// when `sep` does not occur.
pub fn suffix_after_last(s: &str, sep: char) -> (r: String)
    ensures
        r@ == spec_after_last(s@, sep),
{
    let chars = str_chars(s);
    let chars_len = chars.len();
    let pat: [char; 1] = [sep];
    proof {
        assert(pat@ =~= seq![sep]);
    }
    match find_last(chars.as_slice(), pat.as_slice()) {
        Some(i) => {
            proof {
                assert(i == last_index_of(chars@, sep)) by {
                    let w = last_index_of(chars@, sep);
                    assert(match_at(chars@, seq![sep], i as int) && forall|j: int|
                        i < j ==> !match_at(chars@, seq![sep], j));
                }
            }
            let tail = crate::manifest::slice_suffix(chars.as_slice(), i + 1);
            chars_to_string(tail.as_slice())
        },
        None => chars_to_string(chars.as_slice()),
    }
}

/// The index of the first occurrence of `c` in `s`, or `s.len()` when `c`
/// does not occur.
pub open spec fn char_break(s: Seq<char>, c: char) -> int
    decreases s.len(),
{
    if s.len() == 0 {
        0
    } else if s[0] == c {
        0
    } else {
        1 + char_break(s.drop_first(), c)
    }
}

/// `char_break` is in range, lands on `c`, and nothing before it is `c`.
pub proof fn lemma_char_break(s: Seq<char>, c: char)
    ensures
        0 <= char_break(s, c) <= s.len(),
        char_break(s, c) < s.len() ==> s[char_break(s, c)] == c,
        forall|j: int| 0 <= j < char_break(s, c) ==> s[j] != c,
    decreases s.len(),
{
    if s.len() > 0 && s[0] != c {
        lemma_char_break(s.drop_first(), c);
        assert(forall|j: int|
            0 <= j < char_break(s, c) ==> s[j] != c) by {
            assert(forall|j: int|
                1 <= j < char_break(s, c) ==> s[j] == s.drop_first()[j - 1] && s.drop_first()[j - 1]
                    != c);
        }
    }
}

/// A single-character pattern matches at `j` exactly when `s[j]` is that
/// character.
pub proof fn lemma_match_single(s: Seq<char>, c: char, j: int)
    ensures
        match_at(s, seq![c], j) <==> (0 <= j < s.len() && s[j] == c),
{
    if 0 <= j && j + 1 <= s.len() {
        assert(s.subrange(j, j + 1) =~= seq![s[j]]);
        if s[j] == c {
            assert(s.subrange(j, j + 1) =~= seq![c]);
        } else {
            if s.subrange(j, j + 1) == seq![c] {
                assert(s[j] == seq![c][0]);
            }
        }
    }
}

/// The first match position of the single-character pattern `c` is
/// exactly `char_break`.
pub proof fn lemma_first_single_match(s: Seq<char>, c: char, i: int)
    requires
        match_at(s, seq![c], i),
        forall|j: int| 0 <= j < i ==> !match_at(s, seq![c], j),
    ensures
        i == char_break(s, c),
{
    lemma_char_break(s, c);
    lemma_match_single(s, c, i);
    let cb = char_break(s, c);
    if cb < i {
        lemma_match_single(s, c, cb);
    }
    if cb > i {
        assert(s[i] != c);
    }
}

/// When `c` occurs nowhere in `s`, `char_break` is `s.len()`.
pub proof fn lemma_no_single_match(s: Seq<char>, c: char)
    requires
        !contains_seq(s, seq![c]),
    ensures
        char_break(s, c) == s.len(),
{
    lemma_char_break(s, c);
    let cb = char_break(s, c);
    if cb < s.len() {
        lemma_match_single(s, c, cb);
    }
}

/// The character of a decimal digit.
pub open spec fn digit_char(d: int) -> char {
    if d == 0 {
        '0'
    } else if d == 1 {
        '1'
    } else if d == 2 {
        '2'
    } else if d == 3 {
        '3'
    } else if d == 4 {
        '4'
    } else if d == 5 {
        '5'
    } else if d == 6 {
        '6'
    } else if d == 7 {
        '7'
    } else if d == 8 {
        '8'
    } else {
        '9'
    }
}

/// The decimal digits of a non-negative number, most significant first.
pub open spec fn dec_digits(n: int) -> Seq<char>
    decreases n,
{
    if n < 10 {
        seq![digit_char(n)]
    } else {
        dec_digits(n / 10).push(digit_char(n % 10))
    }
}

/// The character of one digit.
fn digit_of(d: usize) -> (c: char)
    requires
        d < 10,
    ensures
        c == digit_char(d as int),
{
    match d {
        0 => '0',
        1 => '1',
        2 => '2',
        3 => '3',
        4 => '4',
        5 => '5',
        6 => '6',
        7 => '7',
        8 => '8',
        _ => '9',
    }
}

/// The decimal rendering of a number.
pub fn usize_to_string(n: usize) -> (r: String)
    ensures
        r@ == dec_digits(n as int),
    decreases n,
{
    if n < 10 {
        let mut s = String::new();
        push_char(&mut s, digit_of(n));
        proof {
            assert(s@ =~= dec_digits(n as int));
        }
        s
    } else {
        let mut s = usize_to_string(n / 10);
        push_char(&mut s, digit_of(n % 10));
        s
    }
}

/// `s` with every occurrence of `from` replaced by `to`.
#[verifier::loop_isolation(false)]
pub fn replace_char(s: &str, from: char, to: char) -> (r: String)
    ensures
        r@ == s@.map_values(
            |c: char|
                if c == from {
                    to
                } else {
                    c
                },
        ),
{
    let chars = str_chars(s);
    let n = chars.len();
    let mut r = String::new();
    let mut i: usize = 0;
    while i < n
        invariant
            n == chars@.len(),
            chars@ == s@,
            i <= n,
            r@ == s@.take(i as int).map_values(
                |c: char|
                    if c == from {
                        to
                    } else {
                        c
                    },
            ),
        decreases n - i,
    {
        let c = chars[i];
        if c == from {
            push_char(&mut r, to);
        } else {
            push_char(&mut r, c);
        }
        i = i + 1;
        proof {
            assert(r@ =~= s@.take(i as int).map_values(
                |c: char|
                    if c == from {
                        to
                    } else {
                        c
                    },
            ));
        }
    }
    proof {
        assert(s@.take(n as int) =~= s@);
    }
    r
}

} // verus!
