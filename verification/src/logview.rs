//! Log-line helpers: recognizing the start of a log entry and rendering an
//! entry's header fields in color for a terminal.

use vstd::prelude::*;
use vstd::string::StringSliceAdditionalSpecFns;
use vstd::string::StrSliceExecFns;
use vstd::string::StringExecFns;
use crate::text::str_eq;

verus! {

/// A parsed log entry's header fields and body.
pub struct LogEntry {
    pub timestamp: String,
    pub severity: String,
    pub class: String,
    pub node_id: String,
    pub body: String,
}

/// `inner` appears contiguously inside `out`, with arbitrary text around
/// it. This is what terminal coloring does: it brackets the text with
/// escape sequences, or leaves it alone, but never alters it.
pub open spec fn wraps(out: Seq<char>, inner: Seq<char>) -> bool {
    exists|pre: Seq<char>, post: Seq<char>| out == pre + inner + post
}

/// The text holds no ESC character, so coloring cannot rewrite it.
pub open spec fn esc_free(s: Seq<char>) -> bool {
    forall|j: int| 0 <= j < s.len() ==> (#[trigger] s[j]) as u32 != 27
}

/// Whether a line starts a new log entry: it opens with `[`, is longer than
/// 11 bytes, and its sixth character is the `-` of an ISO date.
pub open spec fn log_line_start(s: &str) -> bool {
    &&& s@.len() > 0
    &&& s@[0] == '['
    &&& s.spec_bytes().len() > 11
    &&& s@.len() > 5
    &&& s@[5] == '-'
}

/// Determine whether the provided line is the start of a log entry. Just
/// checks for the start of an ISO date.
pub fn is_log_line_start(s: &str) -> (r: bool)
    ensures
        r == log_line_start(s),
{
    let n = s.unicode_len();
    if n == 0 {
        return false;
    }
    if s.get_char(0) != '[' {
        return false;
    }
    let bytes = s.as_bytes();
    if bytes.len() <= 11 {
        return false;
    }
    if n <= 5 {
        return false;
    }
    s.get_char(5) == '-'
}

/// `sub` is a contiguous subrange of `s`.
pub open spec fn subrange_of(sub: Seq<char>, s: Seq<char>) -> bool {
    exists|i: int, j: int| 0 <= i <= j <= s.len() && sub == s.subrange(i, j)
}

/// Relies on `str::trim`: the result is a contiguous substring of the
/// input (the input with leading and trailing whitespace removed).
#[verifier::external_body]
fn str_trim(s: &str) -> (r: &str)
    ensures
        subrange_of(r@, s@),
{
    s.trim()
}

/// Relies on `colored::Colorize::blue` and `ColoredString`'s display: the
/// text is bracketed by escape sequences, or printed bare, but an ESC-free
/// text is never altered.
#[verifier::external_body]
fn paint_blue(s: &str) -> (r: String)
    ensures
        esc_free(s@) ==> wraps(r@, s@),
{
    colored::Colorize::blue(s).to_string()
}

/// Relies on `colored::Colorize::purple` and `ColoredString`'s display, as
/// `paint_blue` does.
#[verifier::external_body]
fn paint_purple(s: &str) -> (r: String)
    ensures
        esc_free(s@) ==> wraps(r@, s@),
{
    colored::Colorize::purple(s).to_string()
}

/// Relies on `colored::Colorize::green` and `ColoredString`'s display, as
/// `paint_blue` does.
#[verifier::external_body]
fn paint_green(s: &str) -> (r: String)
    ensures
        esc_free(s@) ==> wraps(r@, s@),
{
    colored::Colorize::green(s).to_string()
}

/// Relies on `colored::Colorize::dimmed` and `ColoredString`'s display, as
/// `paint_blue` does.
#[verifier::external_body]
fn paint_dimmed(s: &str) -> (r: String)
    ensures
        esc_free(s@) ==> wraps(r@, s@),
{
    colored::Colorize::dimmed(s).to_string()
}

/// Relies on `colored::Colorize::yellow` and `ColoredString`'s display, as
/// `paint_blue` does.
#[verifier::external_body]
fn paint_yellow(s: &str) -> (r: String)
    ensures
        esc_free(s@) ==> wraps(r@, s@),
{
    colored::Colorize::yellow(s).to_string()
}

/// Relies on `colored::Colorize::red` and `ColoredString`'s display, as
/// `paint_blue` does.
#[verifier::external_body]
fn paint_red(s: &str) -> (r: String)
    ensures
        esc_free(s@) ==> wraps(r@, s@),
{
    colored::Colorize::red(s).to_string()
}

/// Relies on `colored::Colorize::red` and `bold`, and `ColoredString`'s
/// display, as `paint_blue` does.
#[verifier::external_body]
fn paint_bold_red(s: &str) -> (r: String)
    ensures
        esc_free(s@) ==> wraps(r@, s@),
{
    colored::Colorize::bold(colored::Colorize::red(s)).to_string()
}

/// Color a severity field by rank: debug and trace dimmed, warnings yellow,
/// errors red, fatal bold red, anything else unchanged. The text itself is
/// kept intact inside the coloring.
pub fn colorize_severity(sev: &str) -> (r: String)
    ensures
        esc_free(sev@) ==> wraps(r@, sev@),
{
    let t = str_trim(sev);
    if str_eq(t, "DEBUG") || str_eq(t, "TRACE") {
        paint_dimmed(sev)
    } else if str_eq(t, "WARN") {
        paint_yellow(sev)
    } else if str_eq(t, "ERROR") {
        paint_red(sev)
    } else if str_eq(t, "FATAL") {
        paint_bold_red(sev)
    } else {
        let r = String::from_str(sev);
        proof {
            assert(wraps(r@, sev@)) by {
                assert(r@ =~= Seq::<char>::empty() + sev@ + Seq::<char>::empty());
            }
        }
        r
    }
}

/// The rendered shape of a colored entry: the four colored header fields in
/// brackets, then a space and the body, verbatim.
pub open spec fn entry_render(
    c1: Seq<char>,
    c2: Seq<char>,
    c3: Seq<char>,
    c4: Seq<char>,
    body: Seq<char>,
) -> Seq<char> {
    "["@ + c1 + "]["@ + c2 + "]["@ + c3 + "]["@ + c4 + "] "@ + body
}

/// Render an entry for the terminal: bracketed colored header fields —
/// timestamp blue, severity by rank, class purple, node id green — then the
/// body unchanged. Each ESC-free field survives intact inside its coloring.
pub fn colorize_entry(entry: &LogEntry) -> (r: String)
    ensures
        exists|c1: Seq<char>, c2: Seq<char>, c3: Seq<char>, c4: Seq<char>|
            {
                &&& r@ == entry_render(c1, c2, c3, c4, entry.body@)
                &&& esc_free(entry.timestamp@) ==> wraps(c1, entry.timestamp@)
                &&& esc_free(entry.severity@) ==> wraps(c2, entry.severity@)
                &&& esc_free(entry.class@) ==> wraps(c3, entry.class@)
                &&& esc_free(entry.node_id@) ==> wraps(c4, entry.node_id@)
            },
{
    let t1 = paint_blue(entry.timestamp.as_str());
    let t2 = colorize_severity(entry.severity.as_str());
    let t3 = paint_purple(entry.class.as_str());
    let t4 = paint_green(entry.node_id.as_str());
    let mut r = String::new();
    r.append("[");
    r.append(t1.as_str());
    r.append("][");
    r.append(t2.as_str());
    r.append("][");
    r.append(t3.as_str());
    r.append("][");
    r.append(t4.as_str());
    r.append("] ");
    r.append(entry.body.as_str());
    proof {
        assert(r@ =~= entry_render(t1@, t2@, t3@, t4@, entry.body@));
    }
    r
}

} // verus!
