//! Trusted boundary to the `semver` crate: parsing of version strings and
//! requirement expressions, and evaluation of a requirement against a version.
//!
//! The registry never inspects the structure of a semantic version itself; it
//! only needs to know whether a string parses and whether a parsed requirement
//! admits a parsed version. Both are pure functions of the input strings, so
//! they are given names below and the wrappers relate their results to those
//! names.

use vstd::prelude::*;

verus! {

/// Whether `semver::VersionReq::parse` succeeds on this string.
pub uninterp spec fn req_parse_ok(s: Seq<char>) -> bool;

/// Whether `semver::Version::parse` succeeds on this string.
pub uninterp spec fn ver_parse_ok(s: Seq<char>) -> bool;

/// What `semver::VersionReq::matches` returns for the parsed requirement
/// `req` and the parsed version `ver`; meaningful only where both parse.
pub uninterp spec fn req_admits(req: Seq<char>, ver: Seq<char>) -> bool;

/// Relies on semver::VersionReq::parse: whether a requirement expression
/// such as `^1.0` or `>=1.20.0` is well formed. The result depends on the
/// characters of the string alone.
#[verifier::external_body]
pub fn check_req(s: &str) -> (r: bool)
    ensures
        r == req_parse_ok(s@),
{
    semver::VersionReq::parse(s).is_ok()
}

/// Relies on semver::Version::parse: whether a version string such as
/// `1.20.0` is a well-formed semantic version. The result depends on the
/// characters of the string alone.
#[verifier::external_body]
pub fn check_version(s: &str) -> (r: bool)
    ensures
        r == ver_parse_ok(s@),
{
    semver::Version::parse(s).is_ok()
}

/// Relies on semver::VersionReq::parse, semver::Version::parse and
/// semver::VersionReq::matches: parses both strings and, where both parse,
/// evaluates the requirement against the version. All three results depend
/// on the characters of the two strings alone.
#[verifier::external_body]
fn eval_req(req: &str, ver: &str) -> (r: Option<bool>)
    ensures
        r == (if req_parse_ok(req@) && ver_parse_ok(ver@) {
            Some(req_admits(req@, ver@))
        } else {
            None::<bool>
        }),
{
    let req = match semver::VersionReq::parse(req) {
        Ok(r) => r,
        Err(_) => return None,
    };
    let ver = match semver::Version::parse(ver) {
        Ok(v) => v,
        Err(_) => return None,
    };
    Some(req.matches(&ver))
}

/// A version string satisfies a requirement string when both parse and the
/// parsed requirement admits the parsed version. A string that does not
/// parse satisfies nothing and is satisfied by nothing.
pub open spec fn version_matched(req: Seq<char>, ver: Seq<char>) -> bool {
    req_parse_ok(req) && ver_parse_ok(ver) && req_admits(req, ver)
}

/// Whether the version string `ver` satisfies the requirement string `req`.
pub fn matches_version(req: &str, ver: &str) -> (r: bool)
    ensures
        r == version_matched(req@, ver@),
{
    match eval_req(req, ver) {
        Some(b) => b,
        None => false,
    }
}

} // verus!
