//! Validation of submitted forms. Each field is checked by its rules; every
//! failed rule adds an entry `(field path, message)` to a report, fields in
//! alphabetical order and, within a field, the rules in the order ascii,
//! alphanumeric, url, length.
use crate::text::{concat2, concat3, decimal, usize_to_string};
use crate::urls::{opt_view, url_parse};
use vstd::prelude::*;
use vstd::string::StrSliceExecFns;
use vstd::utf8::{encode_utf8, is_ascii_chars};

verus! {

broadcast use vstd::string::group_string_axioms;

/// The entries of a validation report, in the order in which they were found.
#[derive(Debug)]
pub struct Report {
    pub errors: Vec<(String, String)>,
}

pub open spec fn errors_view(v: Seq<(String, String)>) -> Seq<(Seq<char>, Seq<char>)> {
    v.map_values(|e: (String, String)| (e.0@, e.1@))
}

impl View for Report {
    type V = Seq<(Seq<char>, Seq<char>)>;

    open spec fn view(&self) -> Seq<(Seq<char>, Seq<char>)> {
        errors_view(self.errors@)
    }
}

/// `path: message` lines, each ended by a line break.
pub open spec fn report_text(entries: Seq<(Seq<char>, Seq<char>)>) -> Seq<char>
    decreases entries.len(),
{
    if entries.len() == 0 {
        Seq::empty()
    } else {
        report_text(entries.drop_last()) + (entries.last().0 + ": "@ + entries.last().1) + "\n"@
    }
}

impl Report {
    pub fn new() -> (r: Report)
        ensures
            r@ == Seq::<(Seq<char>, Seq<char>)>::empty(),
    {
        Report { errors: Vec::new() }
    }

    pub fn append(&mut self, path: String, message: String)
        ensures
            final(self)@ == old(self)@.push((path@, message@)),
    {
        self.errors.push((path, message));
        assert(errors_view(self.errors@) =~= errors_view(old(self).errors@).push((path@, message@)));
    }

    /// The report as text: one line `path: message` per entry.
    pub fn to_string(&self) -> (s: String)
        ensures
            s@ == report_text(self@),
    {
        let mut out = String::new();
        let mut i: usize = 0;
        while i < self.errors.len()
            invariant
                i <= self.errors@.len(),
                out@ == report_text(self@.take(i as int)),
            decreases self.errors@.len() - i,
        {
            let (path, message) = &self.errors[i];
            proof {
                reveal_strlit(": ");
                reveal_strlit("\n");
                assert(self@.take(i + 1).drop_last() =~= self@.take(i as int));
            }
            let line = concat3(path.as_str(), ": ", message.as_str());
            out = concat3(out.as_str(), line.as_str(), "\n");
            i = i + 1;
        }
        assert(self@.take(i as int) =~= self@);
        out
    }

    pub fn is_empty(&self) -> (b: bool)
        ensures
            b == (self@.len() == 0),
    {
        self.errors.len() == 0
    }
}

/// `char::is_alphanumeric`: alphabetic or numeric in the Unicode sense.
pub uninterp spec fn char_alphanumeric(c: char) -> bool;

/// Calls `char::is_alphanumeric`. Its value on non-ASCII characters follows
/// Unicode tables and is left to `char_alphanumeric`; on ASCII characters the
/// documentation fixes it to the digits and the Latin letters.
#[verifier::external_body]
fn is_alphanumeric_char(c: char) -> (r: bool)
    ensures
        r == char_alphanumeric(c),
        (c as u32) < 128 ==> (r <==> (('0' <= c && c <= '9') || ('a' <= c && c <= 'z') || (
        'A' <= c && c <= 'Z'))),
{
    c.is_alphanumeric()
}

/// Message that `garde`'s url rule gives for a string that does not parse.
pub uninterp spec fn url_rule_message(s: Seq<char>) -> Seq<char>;

pub open spec fn url_rule_prefix() -> Seq<char> {
    "not a valid url: "@
}

/// Applies `garde`'s url rule, which accepts exactly the strings that
/// `url::Url::parse` accepts; its message is `not a valid url: ` followed by
/// the parse error, and is tied to `url_rule_message`.
#[verifier::external_body]
fn apply_url_rule(s: &str) -> (r: Option<String>)
    ensures
        r is None <==> url_parse(s@) is Some,
        r matches Some(m) ==> m@ == url_rule_message(s@) && url_rule_prefix().is_prefix_of(m@),
{
    garde::rules::url::apply(&s, ()).err().map(|e| e.to_string())
}

/// Length of a string in bytes of its UTF-8 encoding.
pub open spec fn byte_len(s: Seq<char>) -> nat {
    encode_utf8(s).len()
}

pub open spec fn length_error(s: Seq<char>, min: usize, max: usize) -> Option<Seq<char>> {
    if byte_len(s) < min {
        Some("length is lower than "@ + decimal(min as nat))
    } else if byte_len(s) > max {
        Some("length is greater than "@ + decimal(max as nat))
    } else {
        None
    }
}

pub open spec fn ascii_error(s: Seq<char>) -> Option<Seq<char>> {
    if is_ascii_chars(s) {
        None
    } else {
        Some("not ascii"@)
    }
}

pub open spec fn all_alphanumeric(s: Seq<char>) -> bool {
    forall|i: int| 0 <= i < s.len() ==> char_alphanumeric(#[trigger] s[i])
}

pub open spec fn alphanumeric_error(s: Seq<char>) -> Option<Seq<char>> {
    if all_alphanumeric(s) {
        None
    } else {
        Some("not alphanumeric"@)
    }
}

pub open spec fn url_error(s: Seq<char>) -> Option<Seq<char>> {
    if url_parse(s) is Some {
        None
    } else {
        Some(url_rule_message(s))
    }
}

/// The report entry for a rule's outcome on the field at `path`.
pub open spec fn entry(path: Seq<char>, e: Option<Seq<char>>) -> Seq<(Seq<char>, Seq<char>)> {
    match e {
        Some(m) => seq![(path, m)],
        None => Seq::empty(),
    }
}

/// The rule `length(min, max)`, counted in bytes.
pub fn check_length(s: &str, min: usize, max: usize) -> (r: Option<String>)
    ensures
        opt_view(r) == length_error(s@, min, max),
{
    let len = s.as_bytes().len();
    if len < min {
        let n = usize_to_string(min);
        proof {
            reveal_strlit("length is lower than ");
        }
        Some(concat2("length is lower than ", n.as_str()))
    } else if len > max {
        let n = usize_to_string(max);
        proof {
            reveal_strlit("length is greater than ");
        }
        Some(concat2("length is greater than ", n.as_str()))
    } else {
        None
    }
}

/// The rule `ascii`.
pub fn check_ascii(s: &str) -> (r: Option<String>)
    ensures
        opt_view(r) == ascii_error(s@),
{
    if s.is_ascii() {
        None
    } else {
        Some("not ascii".to_string())
    }
}

/// The rule `alphanumeric`.
pub fn check_alphanumeric(s: &str) -> (r: Option<String>)
    ensures
        opt_view(r) == alphanumeric_error(s@),
{
    let n = s.unicode_len();
    let mut i: usize = 0;
    while i < n
        invariant
            n == s@.len(),
            i <= n,
            forall|k: int| 0 <= k < i ==> char_alphanumeric(#[trigger] s@[k]),
        decreases n - i,
    {
        if !is_alphanumeric_char(s.get_char(i)) {
            return Some("not alphanumeric".to_string());
        }
        i = i + 1;
    }
    None
}

/// The rule `url`.
pub fn check_url(s: &str) -> (r: Option<String>)
    ensures
        opt_view(r) == url_error(s@),
        r matches Some(m) ==> url_rule_prefix().is_prefix_of(m@),
{
    apply_url_rule(s)
}

/// Records the outcome of one rule on the field at `path`.
pub fn record(report: &mut Report, path: &str, e: Option<String>)
    ensures
        final(report)@ == old(report)@ + entry(path@, opt_view(e)),
{
    match e {
        Some(m) => {
            report.append(path.to_string(), m);
        },
        None => {
            assert(old(report)@ + Seq::<(Seq<char>, Seq<char>)>::empty() =~= old(report)@);
        },
    }
}

/// The rule `length(min, max)` on an optional field; an absent value passes.
pub open spec fn opt_length_error(s: Option<Seq<char>>, min: usize, max: usize) -> Option<
    Seq<char>,
> {
    match s {
        Some(v) => length_error(v, min, max),
        None => None,
    }
}

pub fn check_opt_length(s: &Option<String>, min: usize, max: usize) -> (r: Option<String>)
    ensures
        opt_view(r) == opt_length_error(opt_view(*s), min, max),
{
    match s {
        Some(v) => check_length(v.as_str(), min, max),
        None => None,
    }
}

/// The rules of a user name: `ascii`, `alphanumeric`, `length(min = 3, max = 50)`.
pub open spec fn username_entries(path: Seq<char>, s: Seq<char>) -> Seq<(Seq<char>, Seq<char>)> {
    entry(path, ascii_error(s)) + entry(path, alphanumeric_error(s)) + entry(
        path,
        length_error(s, 3, 50),
    )
}

pub fn check_username(report: &mut Report, path: &str, s: &str)
    ensures
        final(report)@ == old(report)@ + username_entries(path@, s@),
{
    record(report, path, check_ascii(s));
    record(report, path, check_alphanumeric(s));
    record(report, path, check_length(s, 3, 50));
    assert(final(report)@ =~= old(report)@ + username_entries(path@, s@));
}

/// The outcome of validating: success when no rule failed, otherwise the report.
pub open spec fn outcome(entries: Seq<(Seq<char>, Seq<char>)>, r: Result<(), Report>) -> bool {
    &&& r is Ok <==> entries.len() == 0
    &&& r matches Err(rep) ==> rep@ == entries
}

pub fn finish(report: Report) -> (r: Result<(), Report>)
    ensures
        outcome(report@, r),
{
    if report.is_empty() {
        Ok(())
    } else {
        Err(report)
    }
}

} // verus!
