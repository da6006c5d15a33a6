use project_link::device::{
    AuthError, access_token_request_body, access_token_url, device_code_request_body,
    device_code_url, json_escape, parse_access_token_response, parse_verification_response,
};

#[test]
fn step_a_response_yields_both_codes() {
    let body = "{\"user_code\":\"ABCD-1234\",\"device_code\":\"devxyz\"}";
    let v = parse_verification_response(body).expect("both codes present");
    assert_eq!(v.user_code, "ABCD-1234");
    assert_eq!(v.device_code, "devxyz");
}

#[test]
fn step_a_extra_fields_are_ignored() {
    let body = "{\"device_code\":\"devxyz\",\"user_code\":\"ABCD-1234\",\
                \"verification_uri\":\"https://github.com/login/device\",\"expires_in\":899}";
    let v = parse_verification_response(body).expect("both codes present");
    assert_eq!(v.user_code, "ABCD-1234");
    assert_eq!(v.device_code, "devxyz");
}

#[test]
fn step_a_missing_field_is_the_generic_failure() {
    let body = "{\"user_code\":\"ABCD-1234\"}";
    assert!(matches!(parse_verification_response(body), Err(AuthError::Unknown)));
}

#[test]
fn step_a_unparseable_body_is_the_generic_failure() {
    assert!(matches!(parse_verification_response("not json at all"), Err(AuthError::Unknown)));
    assert!(matches!(parse_verification_response(""), Err(AuthError::Unknown)));
}

#[test]
fn step_b_response_yields_the_token() {
    let body = "{\"access_token\":\"ghp_abc\"}";
    assert_eq!(parse_access_token_response(body).expect("token present"), "ghp_abc");
}

#[test]
fn step_b_extra_fields_are_ignored() {
    let body = "{\"access_token\":\"ghp_abc\",\"token_type\":\"bearer\",\"scope\":\"repo\"}";
    assert_eq!(parse_access_token_response(body).expect("token present"), "ghp_abc");
}

#[test]
fn step_b_pending_answer_is_the_generic_failure() {
    let body = "{\"error\":\"authorization_pending\",\
                \"error_description\":\"The authorization request is still pending.\"}";
    assert!(matches!(parse_access_token_response(body), Err(AuthError::Unknown)));
}

#[test]
fn step_b_non_string_token_is_the_generic_failure() {
    assert!(matches!(parse_access_token_response("{\"access_token\":5}"), Err(AuthError::Unknown)));
    assert!(matches!(parse_access_token_response("{\"access_token\":null}"), Err(AuthError::Unknown)));
}

#[test]
fn step_b_non_object_body_is_the_generic_failure() {
    assert!(matches!(parse_access_token_response("[\"access_token\"]"), Err(AuthError::Unknown)));
    assert!(matches!(parse_access_token_response("\"access_token\""), Err(AuthError::Unknown)));
}

#[test]
fn step_a_request_body_is_exact() {
    assert_eq!(
        device_code_request_body(),
        "{\"client_id\":\"cd51880daa675d9e6452\",\"scope\":\"repo\"}"
    );
}

#[test]
fn step_b_request_body_is_exact() {
    assert_eq!(
        access_token_request_body("devxyz"),
        "{\"client_id\":\"cd51880daa675d9e6452\",\"device_code\":\"devxyz\",\
         \"grant_type\":\"urn:ietf:params:oauth:grant-type:device_code\"}"
    );
}

#[test]
fn json_escape_handles_quotes_backslashes_and_controls() {
    assert_eq!(json_escape("plain-text"), "plain-text");
    assert_eq!(json_escape("a\"b"), "a\\\"b");
    assert_eq!(json_escape("a\\b"), "a\\\\b");
    assert_eq!(json_escape("a\nb\tc"), "a\\u000ab\\u0009c");
    assert_eq!(json_escape("\u{1f}"), "\\u001f");
    assert_eq!(json_escape(""), "");
}

#[test]
fn escaped_request_body_stays_well_formed() {
    let body = access_token_request_body("dev\"xyz\\");
    let token = serde_json::from_str::<serde_json::Value>(&body)
        .expect("the built body is valid JSON")
        .get("device_code")
        .and_then(|v| v.as_str())
        .map(|v| v.to_string())
        .expect("device_code survives the embedding");
    assert_eq!(token, "dev\"xyz\\");
}

#[test]
fn endpoints_are_the_providers() {
    assert_eq!(device_code_url(), "https://github.com/login/device/code");
    assert_eq!(access_token_url(), "https://github.com/login/oauth/access_token");
}
