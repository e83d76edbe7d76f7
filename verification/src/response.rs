//! What a response means: each function takes what the transport delivered at
//! one stage of a call and says how the call goes on or ends.

use crate::error::{Error, Fault, Refusal};
use vstd::prelude::*;

verus! {

/// A status that reports success.
pub open spec fn is_success(status: u16) -> bool {
    200 <= status <= 299
}

/// A status with which a service turns down a request's credentials.
pub open spec fn is_refusal(status: u16) -> bool {
    status == 401 || status == 403
}

/// The failure that a status other than success stands for. Only a GET tells a
/// missing object from other failures.
pub open spec fn failure_of(status: u16, method_is_get: bool) -> Error {
    if status == 404 && method_is_get {
        Error::ObjectNotFound
    } else if is_refusal(status) {
        Error::Auth(Refusal::Status(status))
    } else {
        Error::Transport(Fault::Status(status))
    }
}

/// What the first stage of a call comes to: `response` is the status that
/// arrived, or the transport's account of why none did.
pub open spec fn status_outcome(response: Result<u16, String>, method_is_get: bool) -> Result<
    (),
    Error,
> {
    match response {
        Ok(status) => if is_success(status) {
            Ok(())
        } else {
            Err(failure_of(status, method_is_get))
        },
        Err(message) => Err(Error::Transport(Fault::Network(message))),
    }
}

/// What the second stage of a GET comes to: `body` is the body collected in
/// full, `None` where the response had none, or the transport's account of why
/// it could not be collected.
pub open spec fn body_outcome(body: Result<Option<Vec<u8>>, String>) -> Result<Vec<u8>, Error> {
    match body {
        Ok(Some(bytes)) => Ok(bytes),
        Ok(None) => Err(Error::Transport(Fault::NoBody)),
        Err(message) => Err(Error::Transport(Fault::Network(message))),
    }
}

fn classify(response: Result<u16, String>, method_is_get: bool) -> (outcome: Result<(), Error>)
    ensures
        outcome == status_outcome(response, method_is_get),
{
    match response {
        Ok(status) => {
            if 200 <= status && status <= 299 {
                Ok(())
            } else if status == 404 && method_is_get {
                Err(Error::ObjectNotFound)
            } else if status == 401 || status == 403 {
                Err(Error::Auth(Refusal::Status(status)))
            } else {
                Err(Error::Transport(Fault::Status(status)))
            }
        },
        Err(message) => Err(Error::Transport(Fault::Network(message))),
    }
}

/// Decides how a GET goes on once its response has arrived or failed to:
/// `Ok` means that the body is to be collected; a missing object, a refused
/// signature and every other failure end the call with their error.
pub fn get_status(response: Result<u16, String>) -> (outcome: Result<(), Error>)
    ensures
        outcome == status_outcome(response, true),
        outcome is Ok <==> (response matches Ok(status) && is_success(status)),
        response == Ok::<u16, String>(404u16) ==> outcome == Err::<(), Error>(
            Error::ObjectNotFound,
        ),
        outcome matches Err(e) ==> e is ObjectNotFound || e is Auth || e is Transport,
{
    classify(response, true)
}

/// Ends a GET: the body as it was collected, or the failure to collect one.
pub fn get_body(body: Result<Option<Vec<u8>>, String>) -> (outcome: Result<Vec<u8>, Error>)
    ensures
        outcome == body_outcome(body),
        outcome is Ok <==> body matches Ok(Some(_)),
        outcome matches Err(e) ==> e is Transport,
{
    match body {
        Ok(Some(bytes)) => Ok(bytes),
        Ok(None) => Err(Error::Transport(Fault::NoBody)),
        Err(message) => Err(Error::Transport(Fault::Network(message))),
    }
}

/// Ends a PUT once its response has arrived or failed to: success is the
/// service's acknowledgement, everything else an error.
pub fn put_status(response: Result<u16, String>) -> (outcome: Result<(), Error>)
    ensures
        outcome == status_outcome(response, false),
        outcome is Ok <==> (response matches Ok(status) && is_success(status)),
        outcome matches Err(e) ==> e is Auth || e is Transport,
{
    classify(response, false)
}

} // verus!
