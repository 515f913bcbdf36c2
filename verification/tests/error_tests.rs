use drawtest::client::{classify_response, APIError};
use drawtest::errors::Error;

#[test]
fn status_codes_follow_the_taxonomy() {
    assert_eq!(Error::Internal.status_code(), 500);
    assert_eq!(Error::InvalidEntity(vec![String::from("x")]).status_code(), 422);
    assert_eq!(Error::UnprocessableEntity(String::from("x")).status_code(), 422);
    assert_eq!(Error::Authorization(String::from("x")).status_code(), 401);
    assert_eq!(Error::Conflict(String::from("x")).status_code(), 409);
}

#[test]
fn only_authorization_raises_the_auth_flag() {
    assert!(Error::Authorization(String::from("x")).is_auth_error());
    assert!(!Error::Internal.is_auth_error());
    assert!(!Error::InvalidEntity(vec![]).is_auth_error());
    assert!(!Error::UnprocessableEntity(String::from("x")).is_auth_error());
    assert!(!Error::Conflict(String::from("x")).is_auth_error());
}

#[test]
fn only_validation_carries_field_messages() {
    let v = Error::InvalidEntity(vec![String::from("bad field")]);
    assert_eq!(v.messages(), Some(&vec![String::from("bad field")]));
    assert_eq!(Error::Internal.messages(), None);
    assert_eq!(Error::Conflict(String::from("x")).messages(), None);
}

#[test]
fn successful_response_classifies_as_ok() {
    let r = classify_response(true, String::from("ignored"), None, false);
    assert!(r.is_ok());
}

#[test]
fn auth_flag_wins_classification() {
    let r = classify_response(
        false,
        String::from("session gone"),
        Some(vec![String::from("irrelevant")]),
        true,
    );
    assert!(matches!(r, Err(APIError::Authorization(ref m)) if m == "session gone"));
}

#[test]
fn field_errors_classify_as_validation() {
    let r = classify_response(
        false,
        String::from("validation error in request body"),
        Some(vec![String::from("name too short")]),
        false,
    );
    match r {
        Err(APIError::Validation(msgs)) => {
            assert_eq!(msgs, vec![String::from("name too short")]);
        }
        other => panic!("expected a validation classification, got {:?}", other),
    }
}

#[test]
fn plain_failure_classifies_as_server_response() {
    let r = classify_response(false, String::from("boom"), None, false);
    assert!(matches!(r, Err(APIError::ServerResponse(ref m)) if m == "boom"));
}
