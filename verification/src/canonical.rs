//! The canonicalizer of the header-based signing scheme: the text that is
//! signed for a request, and the `Authorization` value that carries the
//! signature.

use crate::request::{verb, Method};
use vstd::prelude::*;

verus! {

/// The `x-amz-` headers of a request in canonical form: one line for the
/// session token, if there is one.
pub open spec fn canonical_headers_of(token: Option<Seq<char>>) -> Seq<char> {
    match token {
        Some(t) => "x-amz-security-token:"@ + t + "\n"@,
        None => Seq::empty(),
    }
}

/// The resource that a request addresses: the bucket and the object key.
pub open spec fn resource_of(bucket: Seq<char>, key: Seq<char>) -> Seq<char> {
    "/"@ + bucket + "/"@ + key
}

/// The text to sign: the method, the content hash, the content type and the
/// date, a line each, then the canonical headers and the resource.
pub open spec fn string_to_sign_of(
    method: Method,
    content_md5: Seq<char>,
    content_type: Seq<char>,
    date: Seq<char>,
    canonical_headers: Seq<char>,
    resource: Seq<char>,
) -> Seq<char> {
    verb(method) + "\n"@ + content_md5 + "\n"@ + content_type + "\n"@ + date + "\n"@
        + canonical_headers + resource
}

/// The value of the `Authorization` header.
pub open spec fn authorization_of(access_key: Seq<char>, signature: Seq<char>) -> Seq<char> {
    "AWS "@ + access_key + ":"@ + signature
}

/// Builds the canonical form of the `x-amz-` headers.
pub fn canonical_headers(token: Option<&str>) -> (text: String)
    ensures
        text@ == canonical_headers_of(
            match token {
                Some(t) => Some(t@),
                None => None,
            },
        ),
{
    match token {
        Some(t) => {
            let mut text = String::from_str("x-amz-security-token:");
            text.append(t);
            text.append("\n");
            text
        },
        None => String::new(),
    }
}

/// Builds the resource of an object in a bucket.
pub fn resource(bucket: &str, key: &str) -> (text: String)
    ensures
        text@ == resource_of(bucket@, key@),
{
    let mut text = String::from_str("/");
    text.append(bucket);
    text.append("/");
    text.append(key);
    text
}

/// Builds the text to sign.
pub fn string_to_sign(
    method: Method,
    content_md5: &str,
    content_type: &str,
    date: &str,
    canonical_headers: &str,
    resource: &str,
) -> (text: String)
    ensures
        text@ == string_to_sign_of(
            method,
            content_md5@,
            content_type@,
            date@,
            canonical_headers@,
            resource@,
        ),
{
    let mut text = String::from_str(method.as_str());
    text.append("\n");
    text.append(content_md5);
    text.append("\n");
    text.append(content_type);
    text.append("\n");
    text.append(date);
    text.append("\n");
    text.append(canonical_headers);
    text.append(resource);
    text
}

/// Builds the value of the `Authorization` header.
pub fn authorization(access_key: &str, signature: &str) -> (text: String)
    ensures
        text@ == authorization_of(access_key@, signature@),
{
    let mut text = String::from_str("AWS ");
    text.append(access_key);
    text.append(":");
    text.append(signature);
    text
}

} // verus!
