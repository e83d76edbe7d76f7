//! The ways in which a call can fail.

use vstd::prelude::*;

verus! {

/// Why a request could not be authenticated.
#[derive(Debug, Clone, PartialEq, Eq)]
pub enum Refusal {
    /// The text to sign, or the secret key, is too long for the keyed hash:
    /// nothing was sent.
    TooLong,
    /// The service refused the signature with this status.
    Status(u16),
}

/// What went wrong between the request and a usable response.
#[derive(Debug, Clone, PartialEq, Eq)]
pub enum Fault {
    /// The transport failed; the text is its own account of the failure.
    Network(String),
    /// The service answered with this status, which is no success.
    Status(u16),
    /// The response carried no body where one was due.
    NoBody,
}

/// The failure of a call.
#[derive(Debug, Clone, PartialEq, Eq)]
pub enum Error {
    /// The bucket could not be set up from what was given.
    Config(String),
    /// No usable credentials could be supplied.
    CredentialsUnavailable,
    /// The request was not authenticated.
    Auth(Refusal),
    /// The transport or the service failed.
    Transport(Fault),
    /// The object asked for does not exist.
    ObjectNotFound,
}

} // verus!
