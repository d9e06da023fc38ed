//! Live-mode timestamp rewriting.
//!
//! In live mode, every ISO-8601-like timestamp substring of a record is
//! replaced by the current wall-clock time in a fixed millisecond-precision
//! UTC format. The recognized grammar is
//! `DDDD-DD-DD(T| )DD:DD:DD(.DDD..DDDDDDDDD)?(Z|+DD:DD|-DD:DD)?`:
//! a date and time joined by `T` or a space, an optional fraction of at
//! least three and at most nine digits, and an optional `Z` or numeric
//! offset. Matching is leftmost and greedy; replacement scanning resumes
//! after each match.

use vstd::prelude::*;

verus! {

/// An ASCII decimal digit.
pub open spec fn ts_digit(c: char) -> bool {
    48 <= c as u32 && c as u32 <= 57
}

/// The fixed 19-character core `DDDD-DD-DD(T| )DD:DD:DD` starts at `i`.
pub open spec fn ts_base_at(s: Seq<char>, i: int) -> bool {
    &&& 0 <= i
    &&& i + 19 <= s.len()
    &&& ts_digit(s[i]) && ts_digit(s[i + 1]) && ts_digit(s[i + 2]) && ts_digit(s[i + 3])
    &&& s[i + 4] == '-'
    &&& ts_digit(s[i + 5]) && ts_digit(s[i + 6])
    &&& s[i + 7] == '-'
    &&& ts_digit(s[i + 8]) && ts_digit(s[i + 9])
    &&& (s[i + 10] == 'T' || s[i + 10] == ' ')
    &&& ts_digit(s[i + 11]) && ts_digit(s[i + 12])
    &&& s[i + 13] == ':'
    &&& ts_digit(s[i + 14]) && ts_digit(s[i + 15])
    &&& s[i + 16] == ':'
    &&& ts_digit(s[i + 17]) && ts_digit(s[i + 18])
}

/// The number of consecutive digits starting at `i`.
pub open spec fn digit_run(s: Seq<char>, i: int) -> nat
    decreases s.len() - i,
{
    if 0 <= i < s.len() && ts_digit(s[i]) {
        1 + digit_run(s, i + 1)
    } else {
        0
    }
}

/// Length contributed by an optional fraction `.DDD..DDDDDDDDD` at `i`: the
/// dot plus at least three and (greedily) at most nine digits, or nothing.
pub open spec fn frac_len_at(s: Seq<char>, i: int) -> int {
    if 0 <= i < s.len() && s[i] == '.' && digit_run(s, i + 1) >= 3 {
        if digit_run(s, i + 1) > 9 {
            10
        } else {
            1 + digit_run(s, i + 1) as int
        }
    } else {
        0
    }
}

/// Length contributed by an optional timezone at `i`: `Z`, or a sign with a
/// two-digit hour, a colon and a two-digit minute, or nothing.
pub open spec fn tz_len_at(s: Seq<char>, i: int) -> int {
    if 0 <= i < s.len() && s[i] == 'Z' {
        1
    } else if 0 <= i && i + 6 <= s.len() && (s[i] == '+' || s[i] == '-') && ts_digit(s[i + 1])
        && ts_digit(s[i + 2]) && s[i + 3] == ':' && ts_digit(s[i + 4]) && ts_digit(s[i + 5]) {
        6
    } else {
        0
    }
}

/// The length of the timestamp match starting at `i`, or 0 if none starts
/// there.
pub open spec fn ts_match_len(s: Seq<char>, i: int) -> int {
    if ts_base_at(s, i) {
        let f = frac_len_at(s, i + 19);
        19 + f + tz_len_at(s, i + 19 + f)
    } else {
        0
    }
}

pub proof fn lemma_digit_run_bounded(s: Seq<char>, i: int)
    requires
        0 <= i <= s.len(),
    ensures
        digit_run(s, i) <= s.len() - i,
    decreases s.len() - i,
{
    if i < s.len() && ts_digit(s[i]) {
        lemma_digit_run_bounded(s, i + 1);
    }
}

/// A match never runs past the end of the sequence and is at least 19
/// characters long.
pub proof fn lemma_ts_match_len_bounds(s: Seq<char>, i: int)
    requires
        0 <= i <= s.len(),
    ensures
        ts_match_len(s, i) == 0 || (19 <= ts_match_len(s, i) && i + ts_match_len(s, i) <= s.len()),
{
    if ts_base_at(s, i) {
        if i + 20 <= s.len() {
            lemma_digit_run_bounded(s, i + 20);
        }
    }
}

/// The rewrite of `s` from position `i` on: each leftmost timestamp match is
/// replaced by `now`, and scanning resumes after the match.
pub open spec fn ts_replace_from(s: Seq<char>, now: Seq<char>, i: int) -> Seq<char>
    decreases s.len() - i,
{
    if i < 0 || i >= s.len() {
        Seq::empty()
    } else {
        let m = ts_match_len(s, i);
        if 0 < m && i + m <= s.len() {
            now + ts_replace_from(s, now, i + m)
        } else {
            seq![s[i]] + ts_replace_from(s, now, i + 1)
        }
    }
}

/// The full rewrite of `s`, every timestamp match replaced by `now`.
pub open spec fn ts_replace_all(s: Seq<char>, now: Seq<char>) -> Seq<char> {
    ts_replace_from(s, now, 0)
}

/// The canonical shape of the replacement string:
/// `DDDD-DD-DDTDD:DD:DD.DDDZ`, 24 characters.
pub open spec fn is_canonical_ts(s: Seq<char>) -> bool {
    &&& s.len() == 24
    &&& ts_base_at(s, 0)
    &&& s[10] == 'T'
    &&& s[19] == '.'
    &&& ts_digit(s[20]) && ts_digit(s[21]) && ts_digit(s[22])
    &&& s[23] == 'Z'
}

fn is_ts_digit_char(c: char) -> (r: bool)
    ensures
        r == ts_digit(c),
{
    let u = c as u32;
    48 <= u && u <= 57
}

/// The characters of a string, in order, as a vector.
fn chars_of(s: &str) -> (v: Vec<char>)
    ensures
        v@ == s@,
{
    let n = s.unicode_len();
    let mut v: Vec<char> = Vec::new();
    let mut i: usize = 0;
    while i < n
        invariant
            i <= n,
            n == s@.len(),
            v@ == s@.take(i as int),
        decreases n - i,
    {
        v.push(s.get_char(i));
        i = i + 1;
        proof {
            assert(v@ =~= s@.take(i as int));
        }
    }
    proof {
        assert(v@ =~= s@);
    }
    v
}

fn digit_run_from(v: &Vec<char>, start: usize) -> (k: usize)
    requires
        start <= v@.len(),
    ensures
        k == digit_run(v@, start as int),
{
    let mut j = start;
    while j < v.len() && is_ts_digit_char(v[j])
        invariant
            start <= j <= v@.len(),
            digit_run(v@, start as int) == j - start + digit_run(v@, j as int),
        decreases v@.len() - j,
    {
        j = j + 1;
    }
    j - start
}

fn ts_base_check(v: &Vec<char>, i: usize) -> (r: bool)
    requires
        i <= v@.len(),
    ensures
        r == ts_base_at(v@, i as int),
{
    if v.len() - i < 19 {
        return false;
    }
    is_ts_digit_char(v[i]) && is_ts_digit_char(v[i + 1]) && is_ts_digit_char(v[i + 2])
        && is_ts_digit_char(v[i + 3]) && v[i + 4] == '-' && is_ts_digit_char(v[i + 5])
        && is_ts_digit_char(v[i + 6]) && v[i + 7] == '-' && is_ts_digit_char(v[i + 8])
        && is_ts_digit_char(v[i + 9]) && (v[i + 10] == 'T' || v[i + 10] == ' ')
        && is_ts_digit_char(v[i + 11]) && is_ts_digit_char(v[i + 12]) && v[i + 13] == ':'
        && is_ts_digit_char(v[i + 14]) && is_ts_digit_char(v[i + 15]) && v[i + 16] == ':'
        && is_ts_digit_char(v[i + 17]) && is_ts_digit_char(v[i + 18])
}

fn ts_match_len_at(v: &Vec<char>, i: usize) -> (m: usize)
    requires
        i <= v@.len(),
    ensures
        m == ts_match_len(v@, i as int),
        i + m <= v@.len(),
{
    proof {
        lemma_ts_match_len_bounds(v@, i as int);
    }
    if !ts_base_check(v, i) {
        return 0;
    }
    let n = v.len();
    assert(i + 19 <= n);
    let after = i + 19;
    let frac: usize = if after < v.len() && v[after] == '.' {
        let run = digit_run_from(v, after + 1);
        if run >= 3 {
            if run > 9 {
                10
            } else {
                1 + run
            }
        } else {
            0
        }
    } else {
        0
    };
    let tz_pos = after + frac;
    let tz: usize = if tz_pos < v.len() && v[tz_pos] == 'Z' {
        1
    } else if v.len() - tz_pos >= 6 && (v[tz_pos] == '+' || v[tz_pos] == '-')
        && is_ts_digit_char(v[tz_pos + 1]) && is_ts_digit_char(v[tz_pos + 2])
        && v[tz_pos + 3] == ':' && is_ts_digit_char(v[tz_pos + 4])
        && is_ts_digit_char(v[tz_pos + 5]) {
        6
    } else {
        0
    };
    19 + frac + tz
}

/// Relies on `String::push`: appends one character to the string.
#[verifier::external_body]
fn push_char(s: &mut String, c: char)
    ensures
        final(s)@ == old(s)@ + seq![c],
{
    s.push(c);
}

/// Rewrite every timestamp match in `line` to the given replacement string.
/// The result is exactly `line` with each leftmost, non-overlapping match of
/// the timestamp grammar replaced by `now`; all other characters are kept
/// unchanged, in order.
pub fn replace_timestamps_with(line: &str, now: &str) -> (r: String)
    ensures
        r@ == ts_replace_all(line@, now@),
{
    let v = chars_of(line);
    let mut out = String::new();
    let mut i: usize = 0;
    while i < v.len()
        invariant
            i <= v@.len(),
            v@ == line@,
            out@ + ts_replace_from(v@, now@, i as int) =~= ts_replace_all(v@, now@),
        decreases v@.len() - i,
    {
        let m = ts_match_len_at(&v, i);
        if m > 0 {
            let ghost prev = out@;
            out.append(now);
            proof {
                assert(ts_replace_from(v@, now@, i as int) =~= now@ + ts_replace_from(
                    v@,
                    now@,
                    i + m,
                ));
                assert(out@ + ts_replace_from(v@, now@, (i + m) as int) =~= prev
                    + ts_replace_from(v@, now@, i as int));
            }
            i = i + m;
        } else {
            let ghost prev = out@;
            let c = v[i];
            push_char(&mut out, c);
            proof {
                assert(ts_replace_from(v@, now@, i as int) =~= seq![v@[i as int]]
                    + ts_replace_from(v@, now@, i + 1));
                assert(out@ + ts_replace_from(v@, now@, (i + 1) as int) =~= prev
                    + ts_replace_from(v@, now@, i as int));
            }
            i = i + 1;
        }
    }
    proof {
        assert(out@ + ts_replace_from(v@, now@, i as int) =~= out@);
    }
    out
}

/// Whether `s` has the canonical replacement shape
/// `DDDD-DD-DDTDD:DD:DD.DDDZ`.
pub fn is_canonical_timestamp(s: &str) -> (r: bool)
    ensures
        r == is_canonical_ts(s@),
{
    let v = chars_of(s);
    if v.len() != 24 {
        return false;
    }
    ts_base_check(&v, 0) && v[10] == 'T' && v[19] == '.' && is_ts_digit_char(v[20])
        && is_ts_digit_char(v[21]) && is_ts_digit_char(v[22]) && v[23] == 'Z'
}

/// Relies on `chrono::Utc::now` and its formatter, rendering the current UTC
/// wall-clock time with date, time and millisecond fields. The result
/// depends on the clock, so nothing is assumed of it; callers validate it.
/// `Utc::now` itself panics on a system clock that reads before 1970.
#[verifier::external_body]
fn now_raw() -> String {
    chrono::Utc::now().format("%Y-%m-%dT%H:%M:%S%.3fZ").to_string()
}

/// The current UTC time in the canonical `DDDD-DD-DDTDD:DD:DD.DDDZ` shape.
/// If the clock renders outside that shape, a fixed epoch timestamp is
/// returned instead, so the shape always holds.
pub fn current_timestamp() -> (r: String)
    ensures
        is_canonical_ts(r@),
{
    let now = now_raw();
    if is_canonical_timestamp(now.as_str()) {
        now
    } else {
        let fallback = "1970-01-01T00:00:00.000Z";
        proof {
            reveal_strlit("1970-01-01T00:00:00.000Z");
        }
        String::from_str(fallback)
    }
}

/// Rewrite every timestamp match in `line` to the current wall-clock time:
/// the result is `line` with each match replaced by one canonical timestamp
/// string, the same for all matches.
pub fn replace_timestamps(line: &str) -> (r: String)
    ensures
        exists|ts: Seq<char>|
            is_canonical_ts(ts) && r@ == ts_replace_all(line@, ts),
{
    let now = current_timestamp();
    let r = replace_timestamps_with(line, now.as_str());
    proof {
        assert(is_canonical_ts(now@) && r@ == ts_replace_all(line@, now@));
    }
    r
}

} // verus!
