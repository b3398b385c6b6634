//! Trusted boundary to the `url` crate: absolute-URL validation and joining
//! a base URL with an endpoint path.

use vstd::prelude::*;

verus! {

/// Whether a string parses as an absolute URL. The result of
/// `url::Url::parse` depends on the string alone, so it can be named.
pub uninterp spec fn url_parse_ok(s: Seq<char>) -> bool;

/// The URL obtained by parsing a base URL and joining an endpoint path onto
/// it, when both steps succeed. Both steps depend on their text arguments
/// alone, so the composite result can be named.
pub uninterp spec fn url_join(base: Seq<char>, path: Seq<char>) -> Option<Seq<char>>;

/// Relies on `url::Url::parse`: returns whether the string is a valid
/// absolute URL.
#[verifier::external_body]
pub fn url_is_valid(s: &str) -> (r: bool)
    ensures
        r == url_parse_ok(s@),
{
    url::Url::parse(s).is_ok()
}

/// Relies on `url::Url::parse` followed by `url::Url::join`: resolves an
/// endpoint path against a base URL, or reports the parse error's text.
#[verifier::external_body]
pub fn resolve_url(base: &str, path: &str) -> (r: Result<String, String>)
    ensures
        (r matches Ok(u) ==> url_join(base@, path@) == Some(u@)),
        (r is Err ==> url_join(base@, path@) is None),
{
    match url::Url::parse(base) {
        Ok(b) => match b.join(path) {
            Ok(u) => Ok(String::from(u)),
            Err(e) => Err(e.to_string()),
        },
        Err(e) => Err(e.to_string()),
    }
}

} // verus!
