use secret_share::{handle_rejection, Error, InvalidBase64, NotFound, RejectionCause, StatusCode};

#[test]
fn missing_route_is_not_found() {
    let reply = handle_rejection(RejectionCause::NoRoute);
    assert_eq!(reply.body, "NOT_FOUND");
    assert_eq!(reply.status, StatusCode::NotFound);
    assert_eq!(reply.status.code(), 404);
}

#[test]
fn invalid_base64_is_bad_request() {
    let reply = handle_rejection(RejectionCause::InvalidBase64(InvalidBase64));
    assert_eq!(reply.body, "BAD_REQUEST");
    assert_eq!(reply.status, StatusCode::BadRequest);
    assert_eq!(reply.status.code(), 400);
}

#[test]
fn unavailable_secret_is_not_found() {
    let reply = handle_rejection(RejectionCause::NotFound(NotFound));
    assert_eq!(reply.body, "NOT_FOUND");
    assert_eq!(reply.status.code(), 404);
}

#[test]
fn anything_else_is_internal_error() {
    let reply = handle_rejection(RejectionCause::Unhandled);
    assert_eq!(reply.body, "INTERNAL_SERVER_ERROR");
    assert_eq!(reply.status, StatusCode::InternalServerError);
    assert_eq!(reply.status.code(), 500);
}

#[test]
fn status_codes_and_labels() {
    assert_eq!(StatusCode::Success.code(), 200);
    assert_eq!(StatusCode::Success.label(), "OK");
    assert_eq!(StatusCode::BadRequest.label(), "BAD_REQUEST");
    assert_eq!(StatusCode::NotFound.label(), "NOT_FOUND");
    assert_eq!(StatusCode::InternalServerError.label(), "INTERNAL_SERVER_ERROR");
}

#[test]
fn every_failure_leaves_as_not_found() {
    let all = [
        Error::MalformedBlob,
        Error::AuthenticationFailure,
        Error::DecompressionFailure,
        Error::CompressionFailure,
        Error::PayloadTooLarge,
        Error::StoreUnavailable,
        Error::NotFound,
    ];
    for error in all {
        assert_eq!(error.status(), StatusCode::NotFound);
        assert_eq!(error.rejection(), RejectionCause::NotFound(NotFound));
        assert_eq!(handle_rejection(error.rejection()).status.code(), 404);
    }
}
