//! Failures of the codec, the store and the retrieval protocol, and the way
//! they are flattened into HTTP outcomes.
//!
//! Distinct internal failures deliberately share one external status: a caller
//! must not learn whether a secret never existed, was taken, expired, or failed
//! to authenticate.
use vstd::prelude::*;

verus! {

/// Everything that can go wrong inside the library.
#[derive(Debug, Clone, Copy, PartialEq, Eq, Structural)]
pub enum Error {
    /// The input is structurally unusable: a blob shorter than its nonce, or
    /// text that is not valid base64.
    MalformedBlob,
    /// The authentication tag did not verify: wrong key or altered blob.
    AuthenticationFailure,
    /// The authenticated bytes are not a valid compressed stream.
    DecompressionFailure,
    /// The compressor reported a failure while encoding.
    CompressionFailure,
    /// The compressed payload is too long for the cipher: 2^36 bytes or more.
    PayloadTooLarge,
    /// The shared store could not be reached.
    StoreUnavailable,
    /// No record under the identifier: never created, already taken, or expired.
    NotFound,
}

/// Rejection raised when a request body is not valid base64 or cannot be sealed.
#[derive(Debug, Clone, Copy, PartialEq, Eq, Structural)]
pub struct InvalidBase64;

/// Rejection raised when a secret cannot be handed out, whatever the reason.
#[derive(Debug, Clone, Copy, PartialEq, Eq, Structural)]
pub struct NotFound;

/// Why a request was turned down at the boundary.
#[derive(Debug, Clone, Copy, PartialEq, Eq, Structural)]
pub enum RejectionCause {
    /// No route matched the request.
    NoRoute,
    /// The request carried unusable input.
    InvalidBase64(InvalidBase64),
    /// The secret is not available.
    NotFound(NotFound),
    /// Anything that was not anticipated.
    Unhandled,
}

/// The status codes the boundary uses.
#[derive(Debug, Clone, Copy, PartialEq, Eq, Structural)]
pub enum StatusCode {
    Success,
    BadRequest,
    NotFound,
    InternalServerError,
}

impl StatusCode {
    /// The numeric HTTP status.
    pub open spec fn spec_code(self) -> u16 {
        match self {
            StatusCode::Success => 200,
            StatusCode::BadRequest => 400,
            StatusCode::NotFound => 404,
            StatusCode::InternalServerError => 500,
        }
    }

    /// The numeric HTTP status.
    #[verifier::when_used_as_spec(spec_code)]
    pub fn code(self) -> (code: u16)
        ensures
            code == self.spec_code(),
    {
        match self {
            StatusCode::Success => 200,
            StatusCode::BadRequest => 400,
            StatusCode::NotFound => 404,
            StatusCode::InternalServerError => 500,
        }
    }

    /// The fixed body text that accompanies a failure status.
    pub open spec fn spec_label(self) -> Seq<char> {
        match self {
            StatusCode::Success => "OK"@,
            StatusCode::BadRequest => "BAD_REQUEST"@,
            StatusCode::NotFound => "NOT_FOUND"@,
            StatusCode::InternalServerError => "INTERNAL_SERVER_ERROR"@,
        }
    }

    /// The fixed body text that accompanies a failure status.
    pub fn label(self) -> (label: &'static str)
        ensures
            label@ == self.spec_label(),
    {
        match self {
            StatusCode::Success => "OK",
            StatusCode::BadRequest => "BAD_REQUEST",
            StatusCode::NotFound => "NOT_FOUND",
            StatusCode::InternalServerError => "INTERNAL_SERVER_ERROR",
        }
    }
}

/// What the boundary answers to a rejected request.
#[derive(Debug, Clone, Copy)]
pub struct Reply {
    pub body: &'static str,
    pub status: StatusCode,
}

/// The status a rejection is answered with.
pub open spec fn rejection_status(cause: RejectionCause) -> StatusCode {
    match cause {
        RejectionCause::NoRoute => StatusCode::NotFound,
        RejectionCause::InvalidBase64(_) => StatusCode::BadRequest,
        RejectionCause::NotFound(_) => StatusCode::NotFound,
        RejectionCause::Unhandled => StatusCode::InternalServerError,
    }
}

/// Turns a rejection into the reply sent to the caller: unusable input is a
/// bad request, a missing route or an unavailable secret is not found, and
/// anything else is an internal error that gives no detail.
pub fn handle_rejection(err: RejectionCause) -> (reply: Reply)
    ensures
        reply.status == rejection_status(err),
        reply.body@ == reply.status.spec_label(),
        reply.status != StatusCode::Success,
{
    let status = match err {
        RejectionCause::NoRoute => StatusCode::NotFound,
        RejectionCause::InvalidBase64(_) => StatusCode::BadRequest,
        RejectionCause::NotFound(_) => StatusCode::NotFound,
        RejectionCause::Unhandled => StatusCode::InternalServerError,
    };
    Reply { body: status.label(), status }
}

/// The status with which a library failure leaves the boundary once a request
/// has reached the store or the codec.
pub open spec fn error_status(err: Error) -> StatusCode {
    StatusCode::NotFound
}

impl Error {
    /// Every failure that arises after the input was accepted is reported as
    /// not found, so that the caller cannot tell the failure modes apart.
    pub fn status(self) -> (status: StatusCode)
        ensures
            status == error_status(self),
            status == StatusCode::NotFound,
    {
        StatusCode::NotFound
    }

    /// The rejection that carries this failure to the boundary.
    pub fn rejection(self) -> (cause: RejectionCause)
        ensures
            cause == RejectionCause::NotFound(NotFound),
            rejection_status(cause) == error_status(self),
    {
        RejectionCause::NotFound(NotFound)
    }
}

} // verus!
