//! URL handling through the `url` crate: building endpoint addresses with a
//! query parameter, dropping a query before an address is shown, and cutting
//! an address after its port.

use vstd::prelude::*;

verus! {

#[verifier::external_type_specification]
#[verifier::external_body]
pub struct ExParseError(url::ParseError);

/// The serialization of `base` parsed as a URL with the pair `key=value`
/// appended to its query, or `None` where `base` does not parse.
pub uninterp spec fn url_with_param(base: Seq<char>, key: Seq<char>, value: Seq<char>) -> Option<
    Seq<char>,
>;

/// The serialization of `address` parsed as a URL with its query removed, or
/// `None` where `address` does not parse.
pub uninterp spec fn url_without_query(address: Seq<char>) -> Option<Seq<char>>;

/// The serialization of `address` parsed as a URL, up to and including its
/// port, or `None` where `address` does not parse.
pub uninterp spec fn url_through_port(address: Seq<char>) -> Option<Seq<char>>;

/// Relies on `url::Url::parse_with_params`: parses `base` and appends the
/// form-encoded pair to its query; fails exactly where `base` does not parse.
#[verifier::external_body]
pub(crate) fn with_param(base: &str, key: &str, value: &str) -> (r: Result<String, url::ParseError>)
    ensures
        r is Ok <==> url_with_param(base@, key@, value@) is Some,
        r matches Ok(s) ==> url_with_param(base@, key@, value@) == Some(s@),
{
    url::Url::parse_with_params(base, &[(key, value)]).map(String::from)
}

/// Relies on `url::Url::parse` and `url::Url::set_query(None)`: the address
/// with its query string cleared.
#[verifier::external_body]
pub(crate) fn without_query(address: &str) -> (r: Option<String>)
    ensures
        r is Some <==> url_without_query(address@) is Some,
        r matches Some(s) ==> url_without_query(address@) == Some(s@),
{
    match url::Url::parse(address) {
        Ok(mut u) => {
            u.set_query(None);
            Some(String::from(u))
        },
        Err(_) => None,
    }
}

/// Relies on `url::Url::parse` and slicing with `url::Position::AfterPort`:
/// scheme, credentials, host and port of the address.
#[verifier::external_body]
pub(crate) fn through_port(address: &str) -> (r: Option<String>)
    ensures
        r is Some <==> url_through_port(address@) is Some,
        r matches Some(s) ==> url_through_port(address@) == Some(s@),
{
    match url::Url::parse(address) {
        Ok(u) => Some(u[..url::Position::AfterPort].to_string()),
        Err(_) => None,
    }
}

} // verus!
