//! The error type of the library.
use vstd::prelude::*;

verus! {

/// The transport error of the HTTP client; carried through unchanged.
#[verifier::external_type_specification]
#[verifier::external_body]
pub struct ExReqwestError(reqwest::Error);

/// The (de)serialisation error of `serde_json`; carried through unchanged.
#[verifier::external_type_specification]
#[verifier::external_body]
pub struct ExSerdeJsonError(serde_json::Error);

/// The decoding/encoding error of the `image` crate; carried through unchanged.
#[verifier::external_type_specification]
#[verifier::external_body]
pub struct ExImageError(image::error::ImageError);

/// Enum of all possible bot errors
#[derive(Debug)]
pub enum BotError {
    ReqwestError(reqwest::Error),
    SerdeError(serde_json::Error),
    ImageError(image::error::ImageError),
    InternalError(String),
    ApiError(String),
}

/// The error is an `InternalError` whose text is `msg`.
pub open spec fn is_internal_error(e: BotError, msg: Seq<char>) -> bool {
    e matches BotError::InternalError(m) && m@ == msg
}

/// The error is an `ApiError` whose text is `msg`.
pub open spec fn is_api_error(e: BotError, msg: Seq<char>) -> bool {
    e matches BotError::ApiError(m) && m@ == msg
}

} // verus!
