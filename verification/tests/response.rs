use lemmy_api_common::person::LoginResponse;
use lemmy_api_common::LemmyErrorType;
use lemmy_client::{decode_response, Envelope, LemmyClientError, LemmyResult};

fn read<R: serde::de::DeserializeOwned>(body: &[u8]) -> Result<R, String> {
    serde_json::from_slice::<R>(body).map_err(|e| e.to_string())
}

fn decode<R: serde::de::DeserializeOwned>(body: &[u8]) -> LemmyResult<R> {
    decode_response(read::<R>(body), body)
}

#[test]
fn a_payload_decodes_to_itself() {
    let result: LemmyResult<u32> = decode(b"42");
    assert_eq!(result, Ok(42));
}

#[test]
fn a_declared_error_decodes_to_its_kind() {
    let result: LemmyResult<u32> = decode(b"{\"error\":\"incorrect_login\"}");
    assert_eq!(result, Err(LemmyClientError::Lemmy(LemmyErrorType::IncorrectLogin)));
}

#[test]
fn a_declared_error_keeps_its_message() {
    let body = b"{\"error\":\"person_is_banned_from_site\",\"message\":\"spam\"}";
    let result: LemmyResult<u32> = decode(body);
    assert_eq!(
        result,
        Err(LemmyClientError::Lemmy(LemmyErrorType::PersonIsBannedFromSite("spam".to_string())))
    );
}

#[test]
fn a_body_of_neither_shape_is_other() {
    let body = b"{\"unexpected\":true}";
    let cause = read::<u32>(body).unwrap_err();
    let result: LemmyResult<u32> = decode(body);
    assert_eq!(result, Err(LemmyClientError::Other(cause)));
}

#[test]
fn an_error_kind_that_is_not_known_is_other() {
    let body = b"{\"error\":\"no_such_kind_of_error\"}";
    let result: LemmyResult<u32> = decode(body);
    assert!(matches!(result, Err(LemmyClientError::Other(_))));
}

#[test]
fn text_that_is_not_json_is_other() {
    let result: LemmyResult<u32> = decode(b"<html>502</html>");
    assert!(matches!(result, Err(LemmyClientError::Other(_))));
    let empty: LemmyResult<u32> = decode(b"");
    assert!(matches!(empty, Err(LemmyClientError::Other(_))));
}

#[test]
fn the_payload_has_priority_over_the_error_shape() {
    let body = b"{\"error\":\"incorrect_login\"}";
    let result: LemmyResult<serde_json::Value> = decode(body);
    let expected = read::<serde_json::Value>(body).unwrap();
    assert_eq!(result, Ok(expected));
}

#[test]
fn the_payload_is_taken_without_reading_the_body_again() {
    let result: LemmyResult<u32> = decode_response(Ok(7), b"{\"error\":\"incorrect_login\"}");
    assert_eq!(result, Ok(7));
}

#[test]
fn the_reason_is_the_one_handed_in() {
    let result: LemmyResult<u32> = decode_response(Err("no payload".to_string()), b"[]");
    assert_eq!(result, Err(LemmyClientError::Other("no payload".to_string())));
}

#[test]
fn attempts_make_an_envelope_payload_first() {
    let both: Result<Envelope<u32>, String> =
        Envelope::from_attempts(Ok(1), Some(LemmyErrorType::NotLoggedIn));
    assert_eq!(both, Ok(Envelope::Payload(1)));
    let payload: Result<Envelope<u32>, String> = Envelope::from_attempts(Ok(1), None);
    assert_eq!(payload, Ok(Envelope::Payload(1)));
    let declared: Result<Envelope<u32>, String> =
        Envelope::from_attempts(Err("bad".to_string()), Some(LemmyErrorType::NotLoggedIn));
    assert_eq!(declared, Ok(Envelope::Declared(LemmyErrorType::NotLoggedIn)));
    let neither: Result<Envelope<u32>, String> = Envelope::from_attempts(Err("bad".to_string()), None);
    assert_eq!(neither, Err("bad".to_string()));
}

#[test]
fn an_envelope_becomes_a_result() {
    assert_eq!(Envelope::Payload(5u32).into_result(), Ok(5));
    let declared: Envelope<u32> = Envelope::Declared(LemmyErrorType::NotAnAdmin);
    assert_eq!(declared.into_result(), Err(LemmyClientError::Lemmy(LemmyErrorType::NotAnAdmin)));
}

#[test]
fn an_error_kind_converts_into_a_client_error() {
    let error = LemmyClientError::from(LemmyErrorType::RateLimitError);
    assert_eq!(error, LemmyClientError::Lemmy(LemmyErrorType::RateLimitError));
    let cloned = error.clone();
    assert_eq!(cloned, error);
    let text = LemmyErrorType::Unknown("why".to_string());
    assert_eq!(text.clone(), LemmyErrorType::Unknown("why".to_string()));
}

#[test]
fn login_succeeds_with_a_token() {
    let body = b"{\"jwt\":\"abc\",\"registration_created\":false,\"verify_email_sent\":false}";
    let result: LemmyResult<LoginResponse> = decode(body);
    let response = result.expect("a login response");
    assert_eq!(response.jwt.map(|jwt| jwt.into_inner()), Some("abc".to_string()));
    assert!(!response.registration_created);
    assert!(!response.verify_email_sent);
}

#[test]
fn login_with_wrong_credentials_is_a_declared_error() {
    let body = b"{\"error\":\"incorrect_login\"}";
    let result: LemmyResult<LoginResponse> = decode(body);
    match result {
        Err(LemmyClientError::Lemmy(kind)) => assert_eq!(kind, LemmyErrorType::IncorrectLogin),
        _ => panic!("expected the declared error"),
    }
}

#[test]
fn login_against_an_unreachable_server_is_other() {
    let failure: LemmyResult<LoginResponse> =
        Err(LemmyClientError::Other("error sending request: connection refused".to_string()));
    match failure {
        Err(LemmyClientError::Other(cause)) => assert!(cause.contains("connection refused")),
        _ => panic!("expected a transport failure"),
    }
}
