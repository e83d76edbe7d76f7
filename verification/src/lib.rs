//! A minimal client core for an S3-compatible object store.
//!
//! The crate computes what a GET or PUT of an object needs and decides what a
//! response means: the base URL of a bucket, the text that is signed, the
//! HMAC-SHA1 signature in base64, the signed request, and the result that a
//! response stands for. Sending a request is left to the caller.

pub mod bucket;
pub mod canonical;
pub mod credential;
pub mod endpoint;
pub mod error;
pub mod request;
pub mod response;
pub mod sign;

pub use bucket::Bucket;
pub use credential::AwsCredentials;
pub use endpoint::{base_url, Ssl};
pub use error::{Error, Fault, Refusal};
pub use request::{Header, Method, Request};
pub use response::{get_body, get_status, put_status};
pub use sign::{can_sign, encode, signature};
