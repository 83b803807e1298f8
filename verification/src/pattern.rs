//! The two regular-expression line filters of the CLI scrapers, behind
//! trusted wrappers around the `regex` crate.

use vstd::prelude::*;

verus! {

/// What `regex::Regex::is_match` decides for the fixed pattern
/// `\d{1,3}\.\d{1,3}\.\d{1,3}\.\d{1,3}` on the given line: whether it
/// holds something shaped like a dotted IPv4 address. A function of the
/// line alone.
pub uninterp spec fn ipv4_pattern_match(line: Seq<char>) -> bool;

/// Relies on `regex::Regex::new` and `regex::Regex::is_match`: `new` on
/// this fixed, valid pattern returns `Ok`, and `is_match` returns true
/// iff the pattern matches somewhere in the haystack.
#[verifier::external_body]
pub(crate) fn line_has_ipv4(line: &str) -> (r: bool)
    ensures
        r == ipv4_pattern_match(line@),
{
    regex::Regex::new("\\d{1,3}\\.\\d{1,3}\\.\\d{1,3}\\.\\d{1,3}").unwrap().is_match(line)
}

/// What `regex::Regex::is_match` decides for the fixed pattern
/// `\w.\w.ts.net` on the given line: whether it holds something shaped
/// like a fully qualified tailnet host name. A function of the line
/// alone.
pub uninterp spec fn ts_host_pattern_match(line: Seq<char>) -> bool;

/// Relies on `regex::Regex::new` and `regex::Regex::is_match`: `new` on
/// this fixed, valid pattern returns `Ok`, and `is_match` returns true
/// iff the pattern matches somewhere in the haystack.
#[verifier::external_body]
pub(crate) fn line_has_ts_host(line: &str) -> (r: bool)
    ensures
        r == ts_host_pattern_match(line@),
{
    regex::Regex::new("\\w.\\w.ts.net").unwrap().is_match(line)
}

} // verus!
