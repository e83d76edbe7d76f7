//! The bucket client: the requests that fetch and store an object.

use crate::canonical::{
    authorization, authorization_of, canonical_headers, canonical_headers_of, resource,
    resource_of, string_to_sign, string_to_sign_of,
};
use crate::credential::{AwsCredentials, CredentialsView};
use crate::endpoint::{base_url, base_url_of, Ssl};
use crate::error::{Error, Refusal};
use crate::request::{header_lines, Header, Method, Request, RequestView};
use crate::response::{body_outcome, is_success, status_outcome};
use crate::sign::{can_sign, signable, signature, signature_of};
use vstd::prelude::*;

verus! {

/// What a bucket holds, as plain text.
pub struct BucketView {
    pub name: Seq<char>,
    pub base_url: Seq<char>,
}

/// Whether `url` is the base URL of some endpoint.
pub open spec fn is_base_url(url: Seq<char>) -> bool {
    exists|endpoint: Seq<char>, ssl: Ssl| url == base_url_of(endpoint, ssl)
}

/// The content type that goes with a method: what is stored is sent as plain
/// bytes, and a GET sends nothing.
pub open spec fn content_type_of(method: Method) -> Seq<char> {
    match method {
        Method::Get => Seq::empty(),
        Method::Put => "application/octet-stream"@,
    }
}

/// The text that is signed for a request of `method` for `key`.
pub open spec fn text_to_sign(
    bucket: BucketView,
    method: Method,
    key: Seq<char>,
    token: Option<Seq<char>>,
    date: Seq<char>,
) -> Seq<char> {
    string_to_sign_of(
        method,
        Seq::empty(),
        content_type_of(method),
        date,
        canonical_headers_of(token),
        resource_of(bucket.name, key),
    )
}

/// Whether a request can be signed: an anonymous one needs no signature.
pub open spec fn can_be_signed(
    bucket: BucketView,
    method: Method,
    key: Seq<char>,
    creds: Option<CredentialsView>,
    date: Seq<char>,
) -> bool {
    match creds {
        Some(c) => signable(text_to_sign(bucket, method, key, c.token, date), c.secret),
        None => true,
    }
}

/// The header that announces the content type, where there is one.
pub open spec fn content_headers(method: Method) -> Seq<(Seq<char>, Seq<char>)> {
    match method {
        Method::Get => Seq::empty(),
        Method::Put => seq![("Content-Type"@, content_type_of(method))],
    }
}

/// The header that carries the session token, where there is one.
pub open spec fn token_headers(token: Option<Seq<char>>) -> Seq<(Seq<char>, Seq<char>)> {
    match token {
        Some(t) => seq![("x-amz-security-token"@, t)],
        None => Seq::empty(),
    }
}

/// The headers of a request, in the order in which they are sent: the content
/// type, and for a signed request the date, the session token and the
/// authorization. An anonymous request carries neither date nor signature.
pub open spec fn headers_of(
    bucket: BucketView,
    method: Method,
    key: Seq<char>,
    creds: Option<CredentialsView>,
    date: Seq<char>,
) -> Seq<(Seq<char>, Seq<char>)> {
    match creds {
        Some(c) => content_headers(method) + seq![("Date"@, date)] + token_headers(c.token)
            + seq![
            (
                "Authorization"@,
                authorization_of(
                    c.key,
                    signature_of(text_to_sign(bucket, method, key, c.token, date), c.secret),
                ),
            ),
        ],
        None => content_headers(method),
    }
}

/// The request of `method` for `key`: the object's URL is the base URL with the
/// key behind it.
pub open spec fn request_of(
    bucket: BucketView,
    method: Method,
    key: Seq<char>,
    body: Option<Seq<u8>>,
    creds: Option<CredentialsView>,
    date: Seq<char>,
) -> RequestView {
    RequestView {
        method,
        url: bucket.base_url + key,
        headers: headers_of(bucket, method, key, creds, date),
        body,
    }
}

/// The view of credentials that may be absent.
pub open spec fn creds_view(creds: Option<&AwsCredentials>) -> Option<CredentialsView> {
    match creds {
        Some(c) => Some(c@),
        None => None,
    }
}

/// An S3 bucket.
pub struct Bucket {
    name: String,
    base_url: String,
}

impl View for Bucket {
    type V = BucketView;

    closed spec fn view(&self) -> BucketView {
        BucketView { name: self.name@, base_url: self.base_url@ }
    }
}

impl Bucket {
    /// The base URL is that of the endpoint the bucket was made for.
    #[verifier::type_invariant]
    spec fn well_formed(&self) -> bool {
        is_base_url(self.base_url@)
    }

    /// A bucket called `name` at `endpoint`. Every name and endpoint is taken:
    /// nothing is sent, and a defect of the endpoint shows when the first
    /// request is.
    pub fn new(name: &str, endpoint: &str, ssl: Ssl) -> (bucket: Result<Bucket, Error>)
        ensures
            bucket matches Ok(b) && b@.name == name@ && b@.base_url == base_url_of(endpoint@, ssl),
    {
        let base_url = base_url(endpoint, ssl);
        Ok(Bucket { name: String::from_str(name), base_url })
    }

    /// The bucket's name.
    pub fn name(&self) -> (name: &str)
        ensures
            name@ == self@.name,
    {
        self.name.as_str()
    }

    /// The bucket's base URL.
    pub fn base_url(&self) -> (url: &str)
        ensures
            url@ == self@.base_url,
            is_base_url(url@),
    {
        proof {
            use_type_invariant(self);
        }
        self.base_url.as_str()
    }

    /// The bucket as a line of text, for diagnostics.
    pub fn to_string(&self) -> (text: String)
        ensures
            text@ == "Bucket(name="@ + self@.name + ", base_url="@ + self@.base_url + ")"@,
    {
        let mut text = String::from_str("Bucket(name=");
        text.append(self.name.as_str());
        text.append(", base_url=");
        text.append(self.base_url.as_str());
        text.append(")");
        text
    }

    /// Builds the request of `method` for `key`. With credentials the text
    /// to sign is made and signed first, and the request is given up where
    /// that text or the secret key is too long for the hash.
    fn request(
        &self,
        method: Method,
        key: &str,
        body: Option<Vec<u8>>,
        creds: Option<&AwsCredentials>,
        date: &str,
    ) -> (request: Result<Request, Error>)
        ensures
            request is Ok <==> can_be_signed(self@, method, key@, creds_view(creds), date@),
            request matches Ok(r) ==> r@ == request_of(
                self@,
                method,
                key@,
                match body {
                    Some(b) => Some(b@),
                    None => None,
                },
                creds_view(creds),
                date@,
            ),
            request matches Err(e) ==> e == Error::Auth(Refusal::TooLong),
    {
        let mut url = self.base_url.clone();
        url.append(key);
        let mut headers: Vec<Header> = Vec::new();
        let content_type = match method {
            Method::Get => "",
            Method::Put => "application/octet-stream",
        };
        proof {
            reveal_strlit("");
            assert(content_type@ =~= content_type_of(method));
        }
        if let Method::Put = method {
            headers.push(
                Header {
                    name: String::from_str("Content-Type"),
                    value: String::from_str(content_type),
                },
            );
        }
        assert(header_lines(headers@) =~= content_headers(method));
        if let Some(c) = creds {
            let token = c.token();
            let canonical = canonical_headers(token);
            let object = resource(self.name.as_str(), key);
            let text = string_to_sign(
                method,
                "",
                content_type,
                date,
                canonical.as_str(),
                object.as_str(),
            );
            assert(""@ =~= Seq::<char>::empty());
            assert(text@ == text_to_sign(self@, method, key@, c@.token, date@));
            if !can_sign(text.as_str(), c.aws_secret_access_key()) {
                return Err(Error::Auth(Refusal::TooLong));
            }
            let sig = signature(text.as_str(), c.aws_secret_access_key());
            let auth = authorization(c.aws_access_key_id(), sig.as_str());
            headers.push(Header { name: String::from_str("Date"), value: String::from_str(date) });
            if let Some(t) = token {
                headers.push(
                    Header {
                        name: String::from_str("x-amz-security-token"),
                        value: String::from_str(t),
                    },
                );
            }
            headers.push(Header { name: String::from_str("Authorization"), value: auth });
            assert(header_lines(headers@) =~= headers_of(
                self@,
                method,
                key@,
                creds_view(creds),
                date@,
            ));
        }
        Ok(Request { method, url, headers, body })
    }

    /// The request that fetches the object `key`, as it is sent on `date`.
    /// With credentials it is signed; without, it is anonymous. It fails only
    /// where the text to sign or the secret key is too long to be signed.
    pub fn get(&self, key: &str, creds: Option<&AwsCredentials>, date: &str) -> (request: Result<
        Request,
        Error,
    >)
        ensures
            request is Ok <==> can_be_signed(self@, Method::Get, key@, creds_view(creds), date@),
            request matches Ok(r) ==> r@ == request_of(
                self@,
                Method::Get,
                key@,
                None,
                creds_view(creds),
                date@,
            ),
            request matches Err(e) ==> e == Error::Auth(Refusal::TooLong),
    {
        self.request(Method::Get, key, None, creds, date)
    }

    /// The request that stores `content` as the object `key`, as it is sent on
    /// `date`: signed, with the content as its body. It fails only where the
    /// text to sign or the secret key is too long to be signed.
    pub fn put(&self, key: &str, content: Vec<u8>, creds: &AwsCredentials, date: &str) -> (request:
        Result<Request, Error>)
        ensures
            request is Ok <==> can_be_signed(self@, Method::Put, key@, Some(creds@), date@),
            request matches Ok(r) ==> r@ == request_of(
                self@,
                Method::Put,
                key@,
                Some(content@),
                Some(creds@),
                date@,
            ),
            request matches Err(e) ==> e == Error::Auth(Refusal::TooLong),
    {
        self.request(Method::Put, key, Some(content), Some(creds), date)
    }
}

/// The client's share of a round trip. A PUT and a GET of one key address the
/// same URL, whatever the credentials and dates; the PUT carries the content
/// as its body; and a GET that is answered with success and whose body is
/// collected ends in exactly the bytes of that body.
pub proof fn lemma_put_then_get(
    bucket: BucketView,
    key: Seq<char>,
    content: Vec<u8>,
    put_creds: CredentialsView,
    put_date: Seq<char>,
    get_creds: Option<CredentialsView>,
    get_date: Seq<char>,
    status: u16,
)
    requires
        is_success(status),
    ensures
        request_of(bucket, Method::Put, key, Some(content@), Some(put_creds), put_date).url
            == request_of(bucket, Method::Get, key, None, get_creds, get_date).url,
        request_of(bucket, Method::Put, key, Some(content@), Some(put_creds), put_date).body
            == Some(content@),
        status_outcome(Ok(status), true) == Ok::<(), Error>(()),
        body_outcome(Ok(Some(content))) == Ok::<Vec<u8>, Error>(content),
{
}

} // verus!
