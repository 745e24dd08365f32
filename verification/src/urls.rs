//! URLs are handled in their serialized text form; parsing, joining and the
//! host components come from the `url` crate.
use crate::text::{concat2, decimal, u16_to_string};
use vstd::prelude::*;

verus! {

/// The error `url::Url::parse` and `url::Url::join` report.
#[verifier::external_type_specification]
#[verifier::external_body]
pub struct ExUrlParseError(::url::ParseError);

/// Serialization of the URL that `url::Url::parse` reads from `s`, if it accepts `s`.
pub uninterp spec fn url_parse(s: Seq<char>) -> Option<Seq<char>>;

/// Serialization of `url::Url::join(input)` on the URL that `base` parses to,
/// if both steps succeed. The name covers two outside calls in turn:
/// `url::Url::parse` of `base`, then `join` of `input` on the result; it is
/// a function of its two arguments because each of those calls is.
pub uninterp spec fn url_join(base: Seq<char>, input: Seq<char>) -> Option<Seq<char>>;

/// `url::Url::domain` of the URL that `s` parses to (none if it does not parse).
pub uninterp spec fn url_domain(s: Seq<char>) -> Option<Seq<char>>;

/// `url::Url::host_str` of the URL that `s` parses to (none if it does not parse).
pub uninterp spec fn url_host(s: Seq<char>) -> Option<Seq<char>>;

/// `url::Url::port` of the URL that `s` parses to (none if it does not parse).
pub uninterp spec fn url_port(s: Seq<char>) -> Option<u16>;

pub open spec fn opt_view(o: Option<String>) -> Option<Seq<char>> {
    match o {
        Some(s) => Some(s@),
        None => None,
    }
}

/// Calls `url::Url::parse` and serializes the result. The contract ties the
/// outcome to `url_parse`, whose value is not stated.
#[verifier::external_body]
fn parse_url(s: &str) -> (r: Result<String, ::url::ParseError>)
    ensures
        r is Ok <==> url_parse(s@) is Some,
        r matches Ok(v) ==> url_parse(s@) == Some(v@),
{
    ::url::Url::parse(s).map(String::from)
}

/// Parses `base` with `url::Url::parse`, then calls `url::Url::join` with
/// `input`, and serializes the result. The contract ties the outcome to
/// `url_join`, whose value is not stated.
#[verifier::external_body]
fn join_url(base: &str, input: &str) -> (r: Result<String, ::url::ParseError>)
    ensures
        r is Ok <==> url_join(base@, input@) is Some,
        r matches Ok(v) ==> url_join(base@, input@) == Some(v@),
{
    ::url::Url::parse(base)?.join(input).map(String::from)
}

/// `url::Url::domain` of the parsed `s`; tied to `url_domain`.
#[verifier::external_body]
fn domain_of(s: &str) -> (r: Option<String>)
    ensures
        opt_view(r) == url_domain(s@),
{
    ::url::Url::parse(s).ok().and_then(|u| u.domain().map(String::from))
}

/// `url::Url::host_str` of the parsed `s`; tied to `url_host`.
#[verifier::external_body]
fn host_of(s: &str) -> (r: Option<String>)
    ensures
        opt_view(r) == url_host(s@),
{
    ::url::Url::parse(s).ok().and_then(|u| u.host_str().map(String::from))
}

/// `url::Url::port` of the parsed `s`; tied to `url_port`.
#[verifier::external_body]
fn port_of(s: &str) -> (r: Option<u16>)
    ensures
        r == url_port(s@),
{
    ::url::Url::parse(s).ok().and_then(|u| u.port())
}

/// The `Display` text of a URL parse error (such as `relative URL without a
/// base`), the message an internal error built from it carries. Nothing is
/// stated about the text.
#[verifier::external_body]
pub(crate) fn parse_error_message(e: ::url::ParseError) -> (m: String) {
    e.to_string()
}

/// Parses a URL, giving its serialization.
pub fn parse(s: &str) -> (r: Result<String, ::url::ParseError>)
    ensures
        r is Ok <==> url_parse(s@) is Some,
        r matches Ok(v) ==> url_parse(s@) == Some(v@),
{
    parse_url(s)
}

/// Resolves `input` against the URL `base`.
pub fn join(base: &str, input: &str) -> (r: Result<String, ::url::ParseError>)
    ensures
        r is Ok <==> url_join(base@, input@) is Some,
        r matches Ok(v) ==> url_join(base@, input@) == Some(v@),
{
    join_url(base, input)
}

pub fn domain(s: &str) -> (r: Option<String>)
    ensures
        opt_view(r) == url_domain(s@),
{
    domain_of(s)
}

pub fn host(s: &str) -> (r: Option<String>)
    ensures
        opt_view(r) == url_host(s@),
{
    host_of(s)
}

pub fn port(s: &str) -> (r: Option<u16>)
    ensures
        r == url_port(s@),
{
    port_of(s)
}

/// `":{port}"` when a port is given, empty otherwise.
pub open spec fn port_suffix(p: Option<u16>) -> Seq<char> {
    match p {
        Some(p) => seq![':'] + decimal(p as nat),
        None => Seq::empty(),
    }
}

/// The domain of `url`, followed by `":{port}"` when the URL names a port.
pub open spec fn spec_domain_with_port(url: Seq<char>) -> Option<Seq<char>> {
    match url_domain(url) {
        Some(d) => Some(d + port_suffix(url_port(url))),
        None => None,
    }
}

/// The host of `url`, followed by `":{port}"` when the URL names a port.
pub open spec fn spec_host_with_port(url: Seq<char>) -> Option<Seq<char>> {
    match url_host(url) {
        Some(h) => Some(h + port_suffix(url_port(url))),
        None => None,
    }
}

fn with_port_suffix(name: String, p: Option<u16>) -> (r: String)
    ensures
        r@ == name@ + port_suffix(p),
{
    match p {
        Some(p) => {
            let digits = u16_to_string(p);
            let r = concat2(name.as_str(), ":");
            proof {
                reveal_strlit(":");
            }
            let r2 = concat2(r.as_str(), digits.as_str());
            assert(r2@ == name@ + port_suffix(Some(p)));
            r2
        },
        None => {
            assert(name@ + Seq::<char>::empty() == name@);
            name
        },
    }
}

/// `domain[:port]` of a URL, if the URL has a domain.
pub fn domain_with_port(url: &str) -> (r: Option<String>)
    ensures
        opt_view(r) == spec_domain_with_port(url@),
{
    match domain(url) {
        Some(d) => Some(with_port_suffix(d, port(url))),
        None => None,
    }
}

/// `host[:port]` of a URL, if the URL has a host.
pub fn host_with_port(url: &str) -> (r: Option<String>)
    ensures
        opt_view(r) == spec_host_with_port(url@),
{
    match host(url) {
        Some(h) => Some(with_port_suffix(h, port(url))),
        None => None,
    }
}

} // verus!
