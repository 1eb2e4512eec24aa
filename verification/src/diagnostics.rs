//! Rendering of decode failures. A decode failure is an unhandled
//! archive-schema variant needing human triage, so the report shows the
//! offending record pretty-printed, line-numbered, with three lines of
//! context on either side of the reported error position: `-` before the
//! error line, `>` on it, `+` after it. A syntax error carries its own
//! position; a field-level error is placed on the first line that shows
//! the quoted field name.

use crate::decode::{error_names_decode_failure, DecodeError};
use crate::json::{json_parses, json_value, parse_json, pretty_json, pretty_of};
use crate::numstr::{dec_digits, u64_to_dec};
use crate::raw_comment::{decodable_comment, spec_comment_rules, RedditComment};
use crate::raw_submission::{decodable_submission, spec_submission_rules, RedditSubmission};
use crate::strutil::{spec_contains, str_contains};
use vstd::prelude::*;
use vstd::string::StringExecFns;

verus! {

/// Index of the first newline in `s`, or its length if it has none.
pub open spec fn line_break(s: Seq<char>) -> int
    decreases s.len(),
{
    if s.len() == 0 {
        0
    } else if s[0] == '\n' {
        0
    } else {
        1 + line_break(s.drop_first())
    }
}

proof fn lemma_line_break(s: Seq<char>, k: int)
    requires
        0 <= k <= s.len(),
        forall|j: int| 0 <= j < k ==> s[j] != '\n',
        k == s.len() || s[k] == '\n',
    ensures
        line_break(s) == k,
    decreases s.len(),
{
    if s.len() == 0 || s[0] == '\n' {
    } else {
        lemma_line_break(s.drop_first(), k - 1);
    }
}

/// The lines of a text, split at `'\n'`; a trailing newline yields no
/// final empty line.
pub open spec fn split_lines(s: Seq<char>) -> Seq<Seq<char>>
    decreases s.len(),
{
    if s.len() == 0 {
        Seq::empty()
    } else {
        let k = line_break(s);
        if 0 <= k && k < s.len() {
            seq![s.subrange(0, k)] + split_lines(s.subrange(k + 1, s.len() as int))
        } else {
            seq![s]
        }
    }
}

/// Splits a text into its lines.
pub fn split_text(s: &str) -> (r: Vec<String>)
    ensures
        r.deep_view() == split_lines(s@),
    decreases s@.len(),
{
    let len = s.unicode_len();
    if len == 0 {
        let r: Vec<String> = Vec::new();
        proof {
            assert(r.deep_view() =~= split_lines(s@));
        }
        return r;
    }
    let mut k: usize = 0;
    while k < len && s.get_char(k) != '\n'
        invariant
            len == s@.len(),
            k <= len,
            forall|j: int| 0 <= j < k ==> s@[j] != '\n',
        decreases len - k,
    {
        k += 1;
    }
    proof {
        lemma_line_break(s@, k as int);
    }
    let head = s.substring_char(0, k).to_owned();
    if k == len {
        let mut r: Vec<String> = Vec::new();
        r.push(head);
        proof {
            assert(s@.subrange(0, k as int) =~= s@);
            assert(r.deep_view() =~= split_lines(s@));
        }
        r
    } else {
        let tail = s.substring_char(k + 1, len);
        let mut r = split_text(tail);
        r.insert(0, head);
        proof {
            assert(r.deep_view() =~= split_lines(s@));
        }
        r
    }
}

/// The report entry one line contributes: nothing outside the window of
/// three lines around the error, else the line prefixed with its place
/// relative to the error and its one-based number.
pub open spec fn entry_of(content: Seq<char>, lineno: int, err: int) -> Seq<Seq<char>> {
    if lineno < err - 3 || lineno > err + 3 {
        Seq::empty()
    } else {
        let prefix: Seq<char> = if lineno < err {
            ("-")@
        } else if lineno == err {
            (">")@
        } else {
            ("+")@
        };
        seq![prefix + dec_digits(lineno as nat) + (": ")@ + content]
    }
}

/// The report over the first `k` lines.
pub open spec fn report_upto(lines: Seq<Seq<char>>, err: int, k: int) -> Seq<Seq<char>>
    decreases k,
{
    if k <= 0 {
        Seq::empty()
    } else {
        report_upto(lines, err, k - 1) + entry_of(lines[k - 1], k, err)
    }
}

/// The full line-numbered context report.
pub open spec fn report_of(lines: Seq<Seq<char>>, err: int) -> Seq<Seq<char>> {
    report_upto(lines, err, lines.len() as int)
}

/// Renders the context report around the one-based line `err_line`.
pub fn render_report(lines: &Vec<String>, err_line: u64) -> (r: Vec<String>)
    ensures
        r.deep_view() == report_of(lines.deep_view(), err_line as int),
{
    let ghost ls = lines.deep_view();
    let mut out: Vec<String> = Vec::new();
    let n = lines.len();
    let mut i: usize = 0;
    proof {
        assert(out.deep_view() =~= report_upto(ls, err_line as int, 0));
    }
    while i < n
        invariant
            n == lines@.len(),
            ls == lines.deep_view(),
            i <= n,
            out.deep_view() == report_upto(ls, err_line as int, i as int),
        decreases n - i,
    {
        let ln: u64 = (i as u64) + 1;
        let in_window: bool = if err_line > ln {
            err_line - ln <= 3
        } else {
            ln - err_line <= 3
        };
        proof {
            assert(ls[i as int] == lines@[i as int]@);
        }
        if in_window {
            let prefix: &str = if ln < err_line {
                "-"
            } else if ln == err_line {
                ">"
            } else {
                "+"
            };
            let rendered = String::from_str(prefix).concat(u64_to_dec(ln).as_str()).concat(
                ": ",
            ).concat(lines[i].as_str());
            out.push(rendered);
            proof {
                assert(out.deep_view() =~= report_upto(ls, err_line as int, i + 1));
            }
        } else {
            proof {
                assert(entry_of(ls[i as int], i + 1, err_line as int) =~= Seq::<Seq<char>>::empty());
                assert(out.deep_view() =~= report_upto(ls, err_line as int, i + 1));
            }
        }
        i += 1;
    }
    out
}

/// The one-based number of the first line holding `needle`, if any.
pub open spec fn spec_locate(lines: Seq<Seq<char>>, needle: Seq<char>) -> Option<int>
    decreases lines.len(),
{
    if lines.len() == 0 {
        None
    } else if spec_contains(lines[0], needle) {
        Some(1)
    } else {
        match spec_locate(lines.drop_first(), needle) {
            Option::Some(k) => Some(k + 1),
            Option::None => None,
        }
    }
}

proof fn lemma_locate_hit(lines: Seq<Seq<char>>, needle: Seq<char>, k: int)
    requires
        0 <= k < lines.len(),
        forall|j: int| 0 <= j < k ==> !spec_contains(#[trigger] lines[j], needle),
        spec_contains(lines[k], needle),
    ensures
        spec_locate(lines, needle) == Some(k + 1),
    decreases lines.len(),
{
    if k > 0 {
        lemma_locate_hit(lines.drop_first(), needle, k - 1);
    }
}

proof fn lemma_locate_miss(lines: Seq<Seq<char>>, needle: Seq<char>)
    requires
        forall|j: int| 0 <= j < lines.len() ==> !spec_contains(#[trigger] lines[j], needle),
    ensures
        spec_locate(lines, needle) is None,
    decreases lines.len(),
{
    if lines.len() > 0 {
        lemma_locate_miss(lines.drop_first(), needle);
    }
}

/// The first line (one-based) whose text holds the quoted field name, if
/// any: where a field-level decode error is shown in the pretty text.
pub fn locate_field_line(lines: &Vec<String>, quoted: &str) -> (r: Option<u64>)
    ensures
        (match r {
            Some(ln) => spec_locate(lines.deep_view(), quoted@) == Some(ln as int),
            None => spec_locate(lines.deep_view(), quoted@) is None,
        }),
{
    let n = lines.len();
    let mut i: usize = 0;
    while i < n
        invariant
            n == lines@.len(),
            i <= n,
            forall|j: int|
                0 <= j < i ==> !spec_contains(#[trigger] lines.deep_view()[j], quoted@),
        decreases n - i,
    {
        proof {
            assert(lines.deep_view()[i as int] == lines@[i as int]@);
        }
        if str_contains(lines[i].as_str(), quoted) {
            proof {
                lemma_locate_hit(lines.deep_view(), quoted@, i as int);
            }
            return Some((i as u64) + 1);
        }
        i += 1;
    }
    proof {
        lemma_locate_miss(lines.deep_view(), quoted@);
    }
    None
}

/// A field name in quotes, as the rendered JSON shows it.
pub open spec fn spec_quoted(name: Seq<char>) -> Seq<char> {
    ("\"")@ + name + ("\"")@
}

fn quoted_name(name: &str) -> (r: String)
    ensures
        r@ == spec_quoted(name@),
{
    let r = String::from_str("\"").concat(name).concat("\"");
    proof {
        assert(r@ =~= spec_quoted(name@));
    }
    r
}

/// Where a decode error is shown in the pretty text, one-based: a syntax
/// error's own line; the first line carrying the quoted field name for a
/// field-level error; the first line otherwise.
pub open spec fn spec_err_line(pretty: Seq<char>, e: DecodeError) -> int {
    match e {
        DecodeError::Syntax { line, .. } => line as int,
        DecodeError::NotObject => 1,
        DecodeError::MissingField { .. } => 1,
        DecodeError::UnknownField { name } => match spec_locate(
            split_lines(pretty),
            spec_quoted(name@),
        ) {
            Option::Some(k) => k,
            Option::None => 1,
        },
        DecodeError::WrongType { name } => match spec_locate(
            split_lines(pretty),
            spec_quoted(name@),
        ) {
            Option::Some(k) => k,
            Option::None => 1,
        },
    }
}

/// The context report for a decode error over the record's pretty text:
/// exactly the windowed report around the error's placed line.
pub fn error_report(pretty: &str, error: &DecodeError) -> (r: Vec<String>)
    ensures
        r.deep_view() == report_of(split_lines(pretty@), spec_err_line(pretty@, *error)),
{
    let lines = split_text(pretty);
    let err_line: u64 = match error {
        DecodeError::Syntax { line, .. } => *line as u64,
        DecodeError::NotObject => 1,
        DecodeError::MissingField { .. } => 1,
        DecodeError::UnknownField { name } => match locate_field_line(
            &lines,
            quoted_name(name.as_str()).as_str(),
        ) {
            Some(ln) => ln,
            None => 1,
        },
        DecodeError::WrongType { name } => match locate_field_line(
            &lines,
            quoted_name(name.as_str()).as_str(),
        ) {
            Some(ln) => ln,
            None => 1,
        },
    };
    render_report(&lines, err_line)
}

/// One line of plain words for a failure the context view cannot place.
fn headline(text: &'static str) -> (r: Vec<String>)
    ensures
        r.deep_view() =~= seq![text@],
{
    let mut out: Vec<String> = Vec::new();
    out.push(text.to_owned());
    out
}

/// Renders the diagnostic for a submission line that failed to decode:
/// one plain line for invalid JSON, nothing for a line that decodes
/// cleanly, and otherwise exactly the windowed report over the pretty
/// rendering, placed at a genuine decode failure of that text.
pub fn debug_submission(line: &str) -> (r: Vec<String>)
    ensures
        !json_parses(line@) ==> r.deep_view() == seq![("the line is not valid JSON")@],
        json_parses(line@) ==> ({
            let pretty = pretty_of(json_value(line@));
            &&& (decodable_submission(pretty) ==> r.deep_view() == Seq::<Seq<char>>::empty())
            &&& (!decodable_submission(pretty) ==> (exists|e: DecodeError|
                #![auto]
                error_names_decode_failure(e, pretty, spec_submission_rules()) && r.deep_view()
                    == report_of(split_lines(pretty), spec_err_line(pretty, e))))
        }),
{
    let parsed = match parse_json(line) {
        Ok(v) => v,
        Err(_) => {
            return headline("the line is not valid JSON");
        },
    };
    let pretty = pretty_json(&parsed);
    match RedditSubmission::decode(pretty.as_str()) {
        Ok(_) => {
            let r: Vec<String> = Vec::new();
            proof {
                assert(r.deep_view() =~= Seq::<Seq<char>>::empty());
            }
            r
        },
        Err(e) => error_report(pretty.as_str(), &e),
    }
}

/// Renders the diagnostic for a comment line that failed to decode, the
/// same way.
pub fn debug_comment(line: &str) -> (r: Vec<String>)
    ensures
        !json_parses(line@) ==> r.deep_view() == seq![("the line is not valid JSON")@],
        json_parses(line@) ==> ({
            let pretty = pretty_of(json_value(line@));
            &&& (decodable_comment(pretty) ==> r.deep_view() == Seq::<Seq<char>>::empty())
            &&& (!decodable_comment(pretty) ==> (exists|e: DecodeError|
                #![auto]
                error_names_decode_failure(e, pretty, spec_comment_rules()) && r.deep_view()
                    == report_of(split_lines(pretty), spec_err_line(pretty, e))))
        }),
{
    let parsed = match parse_json(line) {
        Ok(v) => v,
        Err(_) => {
            return headline("the line is not valid JSON");
        },
    };
    let pretty = pretty_json(&parsed);
    match RedditComment::decode(pretty.as_str()) {
        Ok(_) => {
            let r: Vec<String> = Vec::new();
            proof {
                assert(r.deep_view() =~= Seq::<Seq<char>>::empty());
            }
            r
        },
        Err(e) => error_report(pretty.as_str(), &e),
    }
}

} // verus!
