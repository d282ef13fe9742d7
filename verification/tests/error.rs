use secret_redeploy::error::{DecodeError, Error, FAILURE_PREFIX};
use secret_redeploy::response::{Response, BAD_REQUEST, INTERNAL_SERVER_ERROR, OK};

#[test]
fn statuses_are_the_http_ones() {
    assert_eq!(OK, 200);
    assert_eq!(BAD_REQUEST, 400);
    assert_eq!(INTERNAL_SERVER_ERROR, 500);
}

#[test]
fn failure_is_answered_with_its_cause() {
    let error = Error::new("permission denied on project 123".to_string());
    assert_eq!(error.message(), "permission denied on project 123");
    assert_eq!(
        error.into_response(),
        Response {
            status: 500,
            body: "something went wrong: permission denied on project 123".to_string(),
        }
    );
}

#[test]
fn failure_without_cause_is_answered_with_the_prefix() {
    assert_eq!(FAILURE_PREFIX, "something went wrong: ");
    let response = Error::new(String::new()).into_response();
    assert_eq!(response.status, 500);
    assert_eq!(response.body, "something went wrong: ");
}

#[test]
fn decode_errors_are_the_senders_fault() {
    for error in [
        DecodeError::UnreadableEnvelope,
        DecodeError::MissingData,
        DecodeError::MalformedJson,
        DecodeError::MissingPrincipalEmail,
        DecodeError::MissingResourceName,
        DecodeError::InvalidResourceName,
    ] {
        assert_eq!(error.into_response(), Response { status: 400, body: String::new() });
    }
}

#[test]
fn empty_response_has_no_body() {
    assert_eq!(Response::empty(OK), Response { status: 200, body: String::new() });
}
