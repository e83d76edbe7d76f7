//! The credentials that a request is signed with.

use vstd::prelude::*;

verus! {

/// What a set of credentials holds, as plain text.
pub struct CredentialsView {
    pub key: Seq<char>,
    pub secret: Seq<char>,
    pub token: Option<Seq<char>>,
}

/// An access key id, its secret key and, for temporary credentials, a session
/// token. They are handed to each call and never stored by a bucket.
#[derive(Clone)]
pub struct AwsCredentials {
    key: String,
    secret: String,
    token: Option<String>,
}

impl View for AwsCredentials {
    type V = CredentialsView;

    closed spec fn view(&self) -> CredentialsView {
        CredentialsView {
            key: self.key@,
            secret: self.secret@,
            token: match self.token {
                Some(t) => Some(t@),
                None => None,
            },
        }
    }
}

impl AwsCredentials {
    /// Credentials made of the three parts as they are given.
    pub fn new(key: &str, secret: &str, token: Option<String>) -> (creds: AwsCredentials)
        ensures
            creds@.key == key@,
            creds@.secret == secret@,
            creds@.token == match token {
                Some(t) => Some(t@),
                None => None,
            },
    {
        AwsCredentials { key: String::from_str(key), secret: String::from_str(secret), token }
    }

    /// The access key id.
    pub fn aws_access_key_id(&self) -> (key: &str)
        ensures
            key@ == self@.key,
    {
        self.key.as_str()
    }

    /// The secret key.
    pub fn aws_secret_access_key(&self) -> (secret: &str)
        ensures
            secret@ == self@.secret,
    {
        self.secret.as_str()
    }

    /// The session token, if the credentials are temporary.
    pub fn token(&self) -> (token: Option<&str>)
        ensures
            self@.token == match token {
                Some(t) => Some(t@),
                None => None,
            },
    {
        match &self.token {
            Some(t) => Some(t.as_str()),
            None => None,
        }
    }
}

} // verus!
