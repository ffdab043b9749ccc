//! Admission of a request: from what was decoded at the boundary to the
//! parameters a transfer runs with.

use crate::error::TransferError;
use crate::error::TransferErrorView;
use crate::lifecycle::Lifecycle;
use crate::params::S3Params;
use crate::params::S3ParamsView;
use std::string::FromUtf8Error;
use vstd::prelude::*;

verus! {

/// Declares `std::string::FromUtf8Error`, the error of bytes that are not
/// UTF-8, as a type whose inside is not looked at.
#[verifier::external_type_specification]
#[verifier::external_body]
pub struct ExFromUtf8Error(FromUtf8Error);

/// What `urlencoding::decode` makes of a text: the decoded text, or nothing
/// where the decoded bytes are not UTF-8.
pub uninterp spec fn url_decoded(data: Seq<char>) -> Option<Seq<char>>;

/// Calls `urlencoding::decode`, which replaces every `%` followed by two
/// hexadecimal digits by the byte they stand for and reads the result as
/// UTF-8. Trusted: the call succeeds exactly where `url_decoded` has a
/// value and then returns that value, and a text without `%` comes back
/// unchanged.
#[verifier::external_body]
fn percent_decode(data: &str) -> (result: Result<String, FromUtf8Error>)
    ensures
        match result {
            Ok(text) => url_decoded(data@) == Some(text@),
            Err(_) => url_decoded(data@).is_none(),
        },
        !data@.contains('%') ==> result.is_ok() && result.unwrap()@ == data@,
{
    match urlencoding::decode(data) {
        Ok(text) => Ok(text.into_owned()),
        Err(error) => Err(error),
    }
}

/// The request with its object key replaced.
pub open spec fn with_key(params: S3ParamsView, key: Seq<char>) -> S3ParamsView {
    S3ParamsView { object: key, ..params }
}

/// Puts the decoded object key into a request, or reports why there is
/// none. With a key, the request comes back with that key and is otherwise
/// unchanged; without, the error is a decode error with the given cause.
pub fn with_object_key(params: S3Params, decoded: Result<String, String>) -> (result: Result<
    S3Params,
    TransferError,
>)
    ensures
        match decoded {
            Ok(key) => result matches Ok(admitted) && admitted@ == with_key(params@, key@),
            Err(cause) => result matches Err(error) && error@ == (TransferErrorView::Decode {
                cause: cause@,
            }),
        },
{
    match decoded {
        Ok(key) => {
            let mut admitted = params;
            admitted.object = key;
            Ok(admitted)
        },
        Err(cause) => Err(TransferError::Decode { cause }),
    }
}

/// Turns what the boundary decoded into the parameters of a transfer.
///
/// A request that could not be decoded gives a configuration error with the
/// decoder's words. Otherwise the object key is percent-decoded: the request
/// comes back with the decoded key, or a decode error is returned where the
/// key does not decode to UTF-8; its cause is the text of the UTF-8 error.
pub fn decode_request(parsed: Result<S3Params, String>) -> (result: Result<S3Params, TransferError>)
    ensures
        match parsed {
            Err(cause) => result matches Err(error) && error@ == (TransferErrorView::Config {
                cause: cause@,
            }),
            Ok(params) => match url_decoded(params@.object) {
                Some(key) => result matches Ok(admitted) && admitted@ == with_key(params@, key),
                None => result matches Err(error) && error@ is Decode,
            },
        },
        parsed matches Ok(params) ==> (params@.object.contains('%') || (result matches Ok(
            admitted,
        ) && admitted@ == params@)),
{
    match parsed {
        Err(cause) => Err(TransferError::Config { cause }),
        Ok(params) => {
            let decoded = match percent_decode(params.object.as_str()) {
                Ok(key) => Ok(key),
                Err(error) => Err(error.to_string()),
            };
            with_object_key(params, decoded)
        },
    }
}

/// Accepts a transfer: finds the runtime to run it on and the parameters to
/// run it with.
///
/// Before initialisation every request is refused with the lifecycle error,
/// whatever it holds. After it, the request is read as `decode_request`
/// reads it. The engine is not changed.
pub fn accept_transfer<'a, R>(lifecycle: &'a Lifecycle<R>, parsed: Result<S3Params, String>) -> (result:
    Result<(&'a R, S3Params), TransferError>)
    ensures
        match lifecycle.current() {
            None => result matches Err(error) && error@ == TransferErrorView::Lifecycle,
            Some(runtime) => match parsed {
                Err(cause) => result matches Err(error) && error@ == (TransferErrorView::Config {
                    cause: cause@,
                }),
                Ok(params) => match url_decoded(params@.object) {
                    Some(key) => result matches Ok(admitted) && *admitted.0 == runtime
                        && admitted.1@ == with_key(params@, key),
                    None => result matches Err(error) && error@ is Decode,
                },
            },
        },
{
    match lifecycle.runtime() {
        Err(error) => Err(error),
        Ok(runtime) => match decode_request(parsed) {
            Err(error) => Err(error),
            Ok(params) => Ok((runtime, params)),
        },
    }
}

} // verus!
