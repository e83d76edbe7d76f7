//! The endpoint resolver: the base URL of an endpoint.

use vstd::prelude::*;

verus! {

/// Whether or not to use SSL.
#[derive(Debug, Copy, Clone, PartialEq, Eq, Structural)]
pub enum Ssl {
    /// Use SSL.
    Yes,
    /// Do not use SSL.
    No,
}

/// The base URL of `endpoint`: the scheme, the endpoint as it is given, and `/`.
pub open spec fn base_url_of(endpoint: Seq<char>, ssl: Ssl) -> Seq<char> {
    match ssl {
        Ssl::Yes => "https://"@ + endpoint + "/"@,
        Ssl::No => "http://"@ + endpoint + "/"@,
    }
}

/// Builds the base URL of `endpoint`. The endpoint is not examined: every
/// string gives a URL.
pub fn base_url(endpoint: &str, ssl: Ssl) -> (url: String)
    ensures
        url@ == base_url_of(endpoint@, ssl),
{
    let mut url = match ssl {
        Ssl::Yes => String::from_str("https://"),
        Ssl::No => String::from_str("http://"),
    };
    url.append(endpoint);
    url.append("/");
    url
}

} // verus!
