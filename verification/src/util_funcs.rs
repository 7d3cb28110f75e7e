//! Utility functions shared by the parsers: day arithmetic, duration
//! rendering, and the string helpers behind the `UtilFuncs` interface.

use vstd::prelude::*;

use crate::strutil;

verus! {

use vstd::string::StringExecFns;

/// The User-Agent sent with HTTP requests by some parser implementations.
pub const USER_AGENT: &'static str =
    "Mozilla/5.0 (Windows NT 10.0; Win64; x64) AppleWebKit/537.36 (KHTML, like Gecko) Chrome/83.0.4103.116 Safari/537.36";

/// A day of the week.
pub enum Days {
    Sunday,
    Monday,
    Tuesday,
    Wednesday,
    Thursday,
    Friday,
    Saturday,
}

impl Days {
    /// The day's index, Sunday first.
    pub open spec fn spec_index(&self) -> int {
        match self {
            Days::Sunday => 0,
            Days::Monday => 1,
            Days::Tuesday => 2,
            Days::Wednesday => 3,
            Days::Thursday => 4,
            Days::Friday => 5,
            Days::Saturday => 6,
        }
    }

    /// The day's index, Sunday first.
    pub fn index(&self) -> (r: u32)
        ensures
            r as int == self.spec_index(),
            r < 7,
    {
        match self {
            Days::Sunday => 0,
            Days::Monday => 1,
            Days::Tuesday => 2,
            Days::Wednesday => 3,
            Days::Thursday => 4,
            Days::Friday => 5,
            Days::Saturday => 6,
        }
    }
}

/// Reads the clock.
///
/// Relies on `chrono::Local::now` and `chrono::Utc::now`: the current
/// local weekday (counted from Sunday, so below 7) and the current Unix
/// timestamp in seconds. Both depend on the clock, so nothing further is
/// promised of them.
#[verifier::external_body]
fn now_weekday_and_timestamp() -> (r: (u32, i64))
    ensures
        r.0 < 7,
{
    let current_day = chrono::Datelike::weekday(&chrono::Local::now()).num_days_from_sunday();
    (current_day, chrono::Utc::now().timestamp())
}

/// The Unix timestamp of the next occurrence of the given weekday: `now`
/// plus one day-length per day remaining until it.
pub fn day_offset_timestamp(day: &Days, weekday_from_sunday: u32, now: i64) -> (r: i64)
    requires
        weekday_from_sunday < 7,
        now <= i64::MAX - 6 * 86400,
    ensures
        r == now + ((day.spec_index() + 7 - weekday_from_sunday) % 7) * 86400,
{
    let idx = day.index();
    let x = (idx + 7 - weekday_from_sunday) % 7;
    now + (x as i64) * 86400
}

/// The Unix timestamp of the next occurrence of the given weekday, from
/// the current local clock.
pub fn get_day(day: Days) -> i64 {
    let (weekday, now) = now_weekday_and_timestamp();
    if now <= i64::MAX - 6 * 86400 {
        day_offset_timestamp(&day, weekday, now)
    } else {
        now
    }
}

/// One timestamp per requested day, in order.
#[verifier::loop_isolation(false)]
pub fn get_days(days: Vec<Days>) -> (r: Vec<i64>)
    ensures
        r@.len() == days@.len(),
{
    let mut day_vec: Vec<i64> = Vec::new();
    let n = days.len();
    let mut i: usize = 0;
    while i < n
        invariant
            n == days@.len(),
            i <= n,
            day_vec@.len() == i,
        decreases n - i,
    {
        let (weekday, now) = now_weekday_and_timestamp();
        let t = if now <= i64::MAX - 6 * 86400 {
            day_offset_timestamp(&days[i], weekday, now)
        } else {
            now
        };
        day_vec.push(t);
        i = i + 1;
    }
    day_vec
}

/// A number rendered with at least two digits.
pub open spec fn spec_pad2(n: int) -> Seq<char> {
    if n < 10 {
        seq!['0'] + strutil::dec_digits(n)
    } else {
        strutil::dec_digits(n)
    }
}

/// A number rendered with at least two digits.
fn pad2(n: u64) -> (r: String)
    requires
        n < 100,
    ensures
        r@ == spec_pad2(n as int),
{
    if n < 10 {
        let mut r = "0".to_owned();
        let d = strutil::usize_to_string(n as usize);
        r.append(d.as_str());
        proof {
            reveal_strlit("0");
            assert("0"@ =~= seq!['0']);
        }
        r
    } else {
        strutil::usize_to_string(n as usize)
    }
}

/// The 24-hour rendering of a duration: the milliseconds, taken as a
/// second count scaled by 1000, reduced to the time of day they fall on.
pub open spec fn spec_duration(ms: int) -> Seq<char> {
    let t = ms * 1000;
    let sod = t % 86400;
    "PT"@ + spec_pad2(sod / 3600) + "H"@ + spec_pad2((sod % 3600) / 60) + "M"@ + spec_pad2(
        sod % 60,
    ) + "S"@
}

/// Renders milliseconds in a 24-hour `PT..H..M..S` form, exactly as the
/// legacy conversion did: the millisecond count is scaled by 1000 and
/// read as seconds, and the time of day of the resulting instant is
/// rendered with two digits per part.
pub fn convert_duration(milliseconds: i64) -> (r: String)
    requires
        0 <= milliseconds <= i64::MAX / 1000,
    ensures
        r@ == spec_duration(milliseconds as int),
{
    let t = milliseconds * 1000;
    let sod = (t % 86400) as u64;
    let hours = sod / 3600;
    let minutes = (sod % 3600) / 60;
    let seconds = sod % 60;
    let mut r = "PT".to_owned();
    let h = pad2(hours);
    let m = pad2(minutes);
    let s = pad2(seconds);
    r.append(h.as_str());
    r.append("H");
    r.append(m.as_str());
    r.append("M");
    r.append(s.as_str());
    r.append("S");
    r
}

/// Whether a character counts as numeric (the Unicode numeric property).
pub uninterp spec fn is_numeric_char(c: char) -> bool;

/// Whether a character counts as whitespace (the Unicode property).
pub uninterp spec fn is_space_char(c: char) -> bool;

/// The uppercase mapping of a character (one character can map to
/// several).
pub uninterp spec fn upper_of(c: char) -> Seq<char>;

/// Whether the character is numeric.
///
/// Relies on `char::is_numeric`: the Unicode numeric property, a function
/// of the character alone.
#[verifier::external_body]
fn char_is_numeric(c: char) -> (r: bool)
    ensures
        r == is_numeric_char(c),
{
    c.is_numeric()
}

/// Whether the character is whitespace.
///
/// Relies on `char::is_whitespace`: the Unicode whitespace property, a
/// function of the character alone.
#[verifier::external_body]
fn char_is_whitespace(c: char) -> (r: bool)
    ensures
        r == is_space_char(c),
{
    c.is_whitespace()
}

/// The uppercase form of the character.
///
/// Relies on `char::to_uppercase`: the Unicode uppercase mapping, a
/// function of the character alone.
#[verifier::external_body]
fn char_to_uppercase(c: char) -> (r: String)
    ensures
        r@ == upper_of(c),
{
    let mut s = String::new();
    for u in c.to_uppercase() {
        s.push(u);
    }
    s
}

/// `s` without its leading whitespace.
pub open spec fn spec_trim_start(s: Seq<char>) -> Seq<char>
    decreases s.len(),
{
    if s.len() > 0 && is_space_char(s[0]) {
        spec_trim_start(s.drop_first())
    } else {
        s
    }
}

/// `s` without its trailing whitespace.
pub open spec fn spec_trim_end(s: Seq<char>) -> Seq<char>
    decreases s.len(),
{
    if s.len() > 0 && is_space_char(s.last()) {
        spec_trim_end(s.drop_last())
    } else {
        s
    }
}

/// `s` without leading and trailing whitespace.
pub open spec fn spec_trim(s: Seq<char>) -> Seq<char> {
    spec_trim_end(spec_trim_start(s))
}

/// The characters of `v` without leading and trailing whitespace.
#[verifier::loop_isolation(false)]
fn trim_chars(v: &[char]) -> (r: Vec<char>)
    ensures
        r@ == spec_trim(v@),
{
    let n = v.len();
    let mut start: usize = 0;
    proof {
        assert(v@.skip(0) =~= v@);
    }
    while start < n && char_is_whitespace(v[start])
        invariant
            n == v@.len(),
            start <= n,
            spec_trim_start(v@) == spec_trim_start(v@.skip(start as int)),
            start < n ==> v@.skip(start as int)[0] == v@[start as int],
        decreases n - start,
    {
        proof {
            assert(v@.skip(start as int).drop_first() =~= v@.skip(start + 1));
        }
        start = start + 1;
    }
    proof {
        assert(spec_trim_start(v@.skip(start as int)) == v@.skip(start as int));
    }
    let mut end: usize = n;
    while end > start && char_is_whitespace(v[end - 1])
        invariant
            n == v@.len(),
            start <= end <= n,
            spec_trim_start(v@) == v@.skip(start as int),
            spec_trim_end(v@.subrange(start as int, n as int)) == spec_trim_end(
                v@.subrange(start as int, end as int),
            ),
        decreases end,
    {
        proof {
            let cur = v@.subrange(start as int, end as int);
            assert(cur.last() == v@[end - 1]);
            assert(cur.drop_last() =~= v@.subrange(start as int, end - 1));
        }
        end = end - 1;
    }
    proof {
        let cur = v@.subrange(start as int, end as int);
        if cur.len() > 0 {
            assert(cur.last() == v@[end - 1]);
        }
        assert(spec_trim_end(cur) == cur);
    }
    let r = crate::manifest::slice_prefix(v, end);
    let r2 = crate::manifest::slice_suffix(r.as_slice(), start);
    proof {
        assert(r2@ =~= v@.subrange(start as int, end as int));
    }
    r2
}

/// `s` with every numeric character removed.
pub open spec fn spec_drop_numeric(s: Seq<char>) -> Seq<char>
    decreases s.len(),
{
    if s.len() == 0 {
        Seq::empty()
    } else if is_numeric_char(s.last()) {
        spec_drop_numeric(s.drop_last())
    } else {
        spec_drop_numeric(s.drop_last()).push(s.last())
    }
}

/// Formats a title: every numeric character is removed, and the result is
/// trimmed of surrounding whitespace.
#[verifier::loop_isolation(false)]
pub fn format_title(s: &str) -> (r: String)
    ensures
        r@ == spec_trim(spec_drop_numeric(s@)),
{
    let chars = strutil::str_chars(s);
    let n = chars.len();
    let mut kept: Vec<char> = Vec::new();
    let mut i: usize = 0;
    while i < n
        invariant
            n == chars@.len(),
            chars@ == s@,
            i <= n,
            kept@ == spec_drop_numeric(s@.take(i as int)),
        decreases n - i,
    {
        if !char_is_numeric(chars[i]) {
            kept.push(chars[i]);
        }
        i = i + 1;
        proof {
            let taken = s@.take(i as int);
            assert(taken.drop_last() =~= s@.take(i - 1));
            assert(taken.last() == s@[i - 1]);
        }
    }
    proof {
        assert(s@.take(n as int) =~= s@);
    }
    let trimmed = trim_chars(kept.as_slice());
    strutil::chars_to_string(trimmed.as_slice())
}

/// Capitalizes the first letter: the Unicode uppercase mapping of the
/// first character, followed by the rest unchanged; empty input stays
/// empty.
pub fn capitalize_first_letter(s: &str) -> (r: String)
    ensures
        s@.len() == 0 ==> r@ == Seq::<char>::empty(),
        s@.len() > 0 ==> r@ == upper_of(s@[0]) + s@.skip(1),
{
    let chars = strutil::str_chars(s);
    let chars_len = chars.len();
    if chars_len == 0 {
        return String::new();
    }
    let mut r = char_to_uppercase(chars[0]);
    let rest = crate::manifest::slice_suffix(chars.as_slice(), 1);
    let rest_str = strutil::chars_to_string(rest.as_slice());
    r.append(rest_str.as_str());
    r
}

/// The message reported when a pattern is not found.
pub open spec fn spec_not_found_message(to_find: Seq<char>) -> Seq<char> {
    "to_find=("@ + to_find + ")"@
}

/// The not-found message for a pattern.
fn not_found_message(to_find: &str) -> (r: String)
    ensures
        r@ == spec_not_found_message(to_find@),
{
    let mut r = "to_find=(".to_owned();
    r.append(to_find);
    r.append(")");
    r
}

/// What precedes the first occurrence of `to_find` in `s`; an explicit
/// miss when `to_find` does not occur.
pub fn substring_before(s: &str, to_find: &str) -> (r: Result<String, String>)
    ensures
        match r {
            Ok(t) => exists|i: int|
                {
                    &&& #[trigger] strutil::match_at(s@, to_find@, i)
                    &&& t@ == s@.take(i)
                    &&& forall|j: int| 0 <= j < i ==> !strutil::match_at(s@, to_find@, j)
                },
            Err(e) => !strutil::contains_seq(s@, to_find@) && e@ == spec_not_found_message(
                to_find@,
            ),
        },
{
    let sv = strutil::str_chars(s);
    let pv = strutil::str_chars(to_find);
    match strutil::find_first(sv.as_slice(), pv.as_slice()) {
        Some(i) => {
            let head = crate::manifest::slice_prefix(sv.as_slice(), i);
            Ok(strutil::chars_to_string(head.as_slice()))
        },
        None => Err(not_found_message(to_find)),
    }
}

/// What follows the first occurrence of `to_find` in `s`; an explicit
/// miss when `to_find` does not occur.
pub fn substring_after(s: &str, to_find: &str) -> (r: Result<String, String>)
    ensures
        match r {
            Ok(t) => exists|i: int|
                {
                    &&& #[trigger] strutil::match_at(s@, to_find@, i)
                    &&& t@ == s@.skip(i + to_find@.len())
                    &&& forall|j: int| 0 <= j < i ==> !strutil::match_at(s@, to_find@, j)
                },
            Err(e) => !strutil::contains_seq(s@, to_find@) && e@ == spec_not_found_message(
                to_find@,
            ),
        },
{
    let sv = strutil::str_chars(s);
    let sv_len = sv.len();
    let pv = strutil::str_chars(to_find);
    let pv_len = pv.len();
    match strutil::find_first(sv.as_slice(), pv.as_slice()) {
        Some(i) => {
            let tail = crate::manifest::slice_suffix(sv.as_slice(), i + pv_len);
            Ok(strutil::chars_to_string(tail.as_slice()))
        },
        None => Err(not_found_message(to_find)),
    }
}

/// What precedes the last occurrence of `to_find` in `s`; an explicit
/// miss when `to_find` does not occur.
pub fn substring_before_last(s: &str, to_find: &str) -> (r: Result<String, String>)
    ensures
        match r {
            Ok(t) => exists|i: int|
                {
                    &&& #[trigger] strutil::match_at(s@, to_find@, i)
                    &&& t@ == s@.take(i)
                    &&& forall|j: int| i < j ==> !strutil::match_at(s@, to_find@, j)
                },
            Err(e) => !strutil::contains_seq(s@, to_find@) && e@ == spec_not_found_message(
                to_find@,
            ),
        },
{
    let sv = strutil::str_chars(s);
    let pv = strutil::str_chars(to_find);
    match strutil::find_last(sv.as_slice(), pv.as_slice()) {
        Some(i) => {
            let head = crate::manifest::slice_prefix(sv.as_slice(), i);
            Ok(strutil::chars_to_string(head.as_slice()))
        },
        None => Err(not_found_message(to_find)),
    }
}

/// What follows the last occurrence of `to_find` in `s`; an explicit
/// miss when `to_find` does not occur.
pub fn substring_after_last(s: &str, to_find: &str) -> (r: Result<String, String>)
    ensures
        match r {
            Ok(t) => exists|i: int|
                {
                    &&& #[trigger] strutil::match_at(s@, to_find@, i)
                    &&& t@ == s@.skip(i + to_find@.len())
                    &&& forall|j: int| i < j ==> !strutil::match_at(s@, to_find@, j)
                },
            Err(e) => !strutil::contains_seq(s@, to_find@) && e@ == spec_not_found_message(
                to_find@,
            ),
        },
{
    let sv = strutil::str_chars(s);
    let sv_len = sv.len();
    let pv = strutil::str_chars(to_find);
    let pv_len = pv.len();
    match strutil::find_last(sv.as_slice(), pv.as_slice()) {
        Some(i) => {
            let tail = crate::manifest::slice_suffix(sv.as_slice(), i + pv_len);
            Ok(strutil::chars_to_string(tail.as_slice()))
        },
        None => Err(not_found_message(to_find)),
    }
}

/// One step of the author-list scan, from position `i` with the pending
/// name `eater` and the names collected so far: a space right after a
/// separator is skipped, a separator closes the pending name (trimmed),
/// any other character extends it; the final pending name is appended
/// untrimmed.
pub open spec fn spec_split_author_from(
    s: Seq<char>,
    i: int,
    eater: Seq<char>,
    acc: Seq<Seq<char>>,
) -> Seq<Seq<char>>
    decreases s.len() - i,
{
    if i < 0 || i >= s.len() {
        acc.push(eater)
    } else {
        let c = s[i];
        if c == ' ' && 1 <= i && (s[i - 1] == ',' || s[i - 1] == ';') {
            spec_split_author_from(s, i + 1, eater, acc)
        } else if c == ',' || c == ';' {
            spec_split_author_from(s, i + 1, Seq::empty(), acc.push(spec_trim(eater)))
        } else {
            spec_split_author_from(s, i + 1, eater.push(c), acc)
        }
    }
}

/// The author names of a separator-joined list.
pub open spec fn spec_split_author(s: Seq<char>) -> Seq<Seq<char>> {
    spec_split_author_from(s, 0, Seq::empty(), Seq::empty())
}

/// Splits an author list on `,` and `;`: each closed name is trimmed, a
/// space directly after a separator is skipped, and the final pending
/// name is appended as it stands.
#[verifier::loop_isolation(false)]
pub fn split_author(s: &str) -> (r: Vec<String>)
    ensures
        strutil::views_of(r@) == spec_split_author(s@),
{
    let chars = strutil::str_chars(s);
    let n = chars.len();
    let mut eater: Vec<char> = Vec::new();
    let mut res: Vec<String> = Vec::new();
    let mut i: usize = 0;
    proof {
        assert(eater@ =~= Seq::<char>::empty());
        assert(strutil::views_of(res@) =~= Seq::<Seq<char>>::empty());
    }
    while i < n
        invariant
            n == chars@.len(),
            chars@ == s@,
            i <= n,
            spec_split_author(s@) == spec_split_author_from(
                s@,
                i as int,
                eater@,
                strutil::views_of(res@),
            ),
        decreases n - i,
    {
        let ghost old_acc = strutil::views_of(res@);
        let ghost old_eater = eater@;
        let ghost old_i = i as int;
        let c = chars[i];
        if c == ' ' && i >= 1 && (chars[i - 1] == ',' || chars[i - 1] == ';') {
            // a space that only follows a separator
        } else if c == ',' || c == ';' {
            let trimmed = trim_chars(eater.as_slice());
            res.push(strutil::chars_to_string(trimmed.as_slice()));
            eater = Vec::new();
            proof {
                assert(strutil::views_of(res@) =~= old_acc.push(spec_trim(old_eater)));
                assert(eater@ =~= Seq::<char>::empty());
            }
        } else {
            eater.push(c);
        }
        i = i + 1;
        proof {
            assert(spec_split_author_from(s@, old_i, old_eater, old_acc)
                == spec_split_author_from(s@, i as int, eater@, strutil::views_of(res@)));
        }
    }
    let last = strutil::chars_to_string(eater.as_slice());
    res.push(last);
    proof {
        assert(strutil::views_of(res@) =~= spec_split_author(s@));
    }
    res
}

/// Whether the character is a decimal digit.
pub open spec fn is_ascii_digit_char(c: char) -> bool {
    48 <= c as u32 <= 57
}

/// The value of a decimal digit character.
pub open spec fn digit_val(c: char) -> int {
    c as u32 - 48
}

/// The value of a digit string, most significant digit first.
pub open spec fn digits_val(s: Seq<char>) -> int
    decreases s.len(),
{
    if s.len() == 0 {
        0
    } else {
        digits_val(s.drop_last()) * 10 + digit_val(s.last())
    }
}

/// Whether every character is a decimal digit.
pub open spec fn all_ascii_digits(s: Seq<char>) -> bool {
    forall|i: int| 0 <= i < s.len() ==> is_ascii_digit_char(#[trigger] s[i])
}

/// What parsing a signed 32-bit number yields: an optional sign, then at
/// least one digit and nothing else, with the value in range.
pub open spec fn spec_parse_i32(s: Seq<char>) -> Option<int> {
    let sign: int = if s.len() > 0 && s[0] == '-' {
        -1
    } else {
        1
    };
    let ds = if s.len() > 0 && (s[0] == '+' || s[0] == '-') {
        s.skip(1)
    } else {
        s
    };
    if ds.len() > 0 && all_ascii_digits(ds) && -2147483648 <= sign * digits_val(ds) <= 2147483647 {
        Some(sign * digits_val(ds))
    } else {
        None
    }
}

/// A digit string's value only grows as digits are appended.
proof fn lemma_digits_val_prefix(s: Seq<char>, i: int)
    requires
        all_ascii_digits(s),
        0 <= i <= s.len(),
    ensures
        0 <= digits_val(s.take(i)) <= digits_val(s),
    decreases s.len() - i,
{
    assert(all_ascii_digits(s.take(i))) by {
        assert(forall|k: int| 0 <= k < i ==> s.take(i)[k] == s[k]);
    }
    lemma_digits_val_nonneg(s.take(i));
    if i == s.len() {
        assert(s.take(i) =~= s);
    } else {
        lemma_digits_val_prefix(s, i + 1);
        let t = s.take(i + 1);
        assert(t.drop_last() =~= s.take(i));
        assert(is_ascii_digit_char(t.last())) by {
            assert(t.last() == s[i]);
        }
        assert(digits_val(s.take(i)) <= digits_val(t));
    }
}

/// A digit string's value is non-negative.
proof fn lemma_digits_val_nonneg(s: Seq<char>)
    requires
        all_ascii_digits(s),
    ensures
        digits_val(s) >= 0,
    decreases s.len(),
{
    if s.len() > 0 {
        assert(all_ascii_digits(s.drop_last())) by {
            assert(forall|k: int| 0 <= k < s.len() - 1 ==> s.drop_last()[k] == s[k]);
        }
        lemma_digits_val_nonneg(s.drop_last());
    }
}

/// Parses a signed 32-bit number: an optional sign, then digits only,
/// succeeding exactly when the value is in range.
#[verifier::loop_isolation(false)]
pub fn parse_i32(s: &str) -> (r: Option<i32>)
    ensures
        match r {
            Some(v) => spec_parse_i32(s@) == Some(v as int),
            None => spec_parse_i32(s@) is None,
        },
{
    let chars = strutil::str_chars(s);
    let n = chars.len();
    if n == 0 {
        return None;
    }
    let (neg, start): (bool, usize) = if chars[0] == '-' {
        (true, 1)
    } else if chars[0] == '+' {
        (false, 1)
    } else {
        (false, 0)
    };
    let ghost ds = if start == 1 {
        s@.skip(1)
    } else {
        s@
    };
    if n == start {
        return None;
    }
    let mut i: usize = start;
    let mut acc: u64 = 0;
    while i < n
        invariant
            n == chars@.len(),
            chars@ == s@,
            start <= i <= n,
            start <= 1,
            n > start,
            ds == s@.skip(start as int),
            all_ascii_digits(ds.take(i - start)),
            acc == digits_val(ds.take(i - start)),
            acc <= 2147483648,
        decreases n - i,
    {
        let c = chars[i];
        let cv = c as u32;
        if cv < 48 || cv > 57 {
            proof {
                assert(ds[i - start] == s@[i as int]);
                assert(!all_ascii_digits(ds));
            }
            return None;
        }
        let d = (cv - 48) as u64;
        proof {
            assert(ds.take(i + 1 - start).drop_last() =~= ds.take(i - start));
            assert(ds.take(i + 1 - start).last() == s@[i as int]);
        }
        acc = acc * 10 + d;
        i = i + 1;
        if acc > 2147483648 {
            proof {
                if all_ascii_digits(ds) {
                    lemma_digits_val_prefix(ds, i - start);
                    assert(digits_val(ds) >= acc > 2147483648);
                }
                assert(ds == (if s@.len() > 0 && (s@[0] == '+' || s@[0] == '-') {
                    s@.skip(1)
                } else {
                    s@
                }));
                assert(ds.len() > 0);
                let sg: int = if s@.len() > 0 && s@[0] == '-' {
                    -1
                } else {
                    1
                };
                assert(!(ds.len() > 0 && all_ascii_digits(ds) && -2147483648 <= sg * digits_val(
                    ds,
                ) <= 2147483647));
                assert(spec_parse_i32(s@) is None);
            }
            return None;
        }
    }
    proof {
        assert(ds.take(n - start) =~= ds);
        assert(ds == (if s@.len() > 0 && (s@[0] == '+' || s@[0] == '-') {
            s@.skip(1)
        } else {
            s@
        }));
        assert(acc == digits_val(ds));
        assert(all_ascii_digits(ds));
        assert(ds.len() > 0);
    }
    if neg {
        if acc == 2147483648 {
            Some(i32::MIN)
        } else {
            Some(-(acc as i32))
        }
    } else {
        if acc > 2147483647 {
            proof {
                assert(spec_parse_i32(s@) is None);
            }
            None
        } else {
            Some(acc as i32)
        }
    }
}

/// The part of an id string that `floor_id` parses: everything except the
/// last three characters (the whole string when it is shorter).
pub open spec fn spec_floor_prefix(s: Seq<char>) -> Seq<char> {
    if s.len() >= 3 {
        s.take(s.len() - 3)
    } else {
        s
    }
}

/// Floors an id: the id without its last three characters is parsed as a
/// number and scaled by 1000. An unparsable prefix, or one whose scaled
/// value would overflow, gives 0.
pub fn floor_id(s: &str) -> (r: i32)
    ensures
        r as int == (match spec_parse_i32(spec_floor_prefix(s@)) {
            Some(v) => if -2147483 <= v <= 2147483 {
                1000 * v
            } else {
                0
            },
            None => 0,
        }),
{
    let chars = strutil::str_chars(s);
    let n = chars.len();
    let prefix = if n >= 3 {
        crate::manifest::slice_prefix(chars.as_slice(), n - 3)
    } else {
        chars
    };
    let text = strutil::chars_to_string(prefix.as_slice());
    match parse_i32(text.as_str()) {
        Some(v) => {
            if -2147483 <= v && v <= 2147483 {
                v * 1000
            } else {
                0
            }
        },
        None => 0,
    }
}

/// The string helpers available on `str`, as methods.
pub trait UtilFuncs {
    /// The author names of a separator-joined list.
    fn split_author(&self) -> Vec<String>;

    /// The floored form of an id.
    fn floor_id(&self) -> i32;

    /// The title without numeric characters, trimmed.
    fn format_title(&self) -> String;

    /// The string with its first letter capitalized.
    fn capitalize_first_letter(&self) -> String;

    /// What precedes the first occurrence of `to_find`.
    fn substring_before(&self, to_find: &str) -> Result<String, String>;

    /// What follows the first occurrence of `to_find`.
    fn substring_after(&self, to_find: &str) -> Result<String, String>;

    /// What precedes the last occurrence of `to_find`.
    fn substring_before_last(&self, to_find: &str) -> Result<String, String>;

    /// What follows the last occurrence of `to_find`.
    fn substring_after_last(&self, to_find: &str) -> Result<String, String>;
}

impl UtilFuncs for str {
    fn split_author(&self) -> Vec<String> {
        split_author(self)
    }

    fn floor_id(&self) -> i32 {
        floor_id(self)
    }

    fn format_title(&self) -> String {
        format_title(self)
    }

    fn capitalize_first_letter(&self) -> String {
        capitalize_first_letter(self)
    }

    fn substring_before(&self, to_find: &str) -> Result<String, String> {
        substring_before(self, to_find)
    }

    fn substring_after(&self, to_find: &str) -> Result<String, String> {
        substring_after(self, to_find)
    }

    fn substring_before_last(&self, to_find: &str) -> Result<String, String> {
        substring_before_last(self, to_find)
    }

    fn substring_after_last(&self, to_find: &str) -> Result<String, String> {
        substring_after_last(self, to_find)
    }
}

} // verus!
