use osphor::errors::SessionError;
use osphor::player::Account;
use osphor::session::generate_session;
use osphor::session::verify_session;

#[test]
fn session_round_trip() {
    let before = chrono::Utc::now().timestamp();
    let token = generate_session("alice").unwrap();
    let after = chrono::Utc::now().timestamp();
    let claims = verify_session(&token).unwrap();
    assert_eq!(claims.sub, "alice");
    let exp = claims.exp as i64;
    assert!(exp >= before + 86400);
    assert!(exp <= after + 86400);
}

#[test]
fn session_corrupted_signature_is_invalid() {
    let token = generate_session("alice").unwrap();
    let mut corrupted: String = token[..token.len() - 1].to_string();
    let last = token.chars().last().unwrap();
    corrupted.push(if last == 'Q' { 'E' } else { 'Q' });
    assert_eq!(verify_session(&corrupted), Err(SessionError::InvalidSignature));
}

#[test]
fn session_garbage_token_is_invalid() {
    assert_eq!(verify_session("not-a-token"), Err(SessionError::InvalidSignature));
    assert_eq!(verify_session(""), Err(SessionError::InvalidSignature));
}

#[test]
fn session_past_expiration_is_expired() {
    let claims: serde_json::Value = serde_json::from_str(r#"{"sub":"alice","exp":1}"#).unwrap();
    let token = jsonwebtoken::encode(
        &jsonwebtoken::Header::default(),
        &claims,
        &jsonwebtoken::EncodingKey::from_secret("fumo".as_bytes()),
    )
    .unwrap();
    assert_eq!(verify_session(&token), Err(SessionError::Expired));
}

#[test]
fn session_wrong_key_is_invalid() {
    let claims: serde_json::Value =
        serde_json::from_str(r#"{"sub":"alice","exp":99999999999}"#).unwrap();
    let token = jsonwebtoken::encode(
        &jsonwebtoken::Header::default(),
        &claims,
        &jsonwebtoken::EncodingKey::from_secret("other".as_bytes()),
    )
    .unwrap();
    assert_eq!(verify_session(&token), Err(SessionError::InvalidSignature));
}

#[test]
fn validate_yields_subject_line_or_failure_marker() {
    let token = Account::generate_session("alice").unwrap();
    assert_eq!(Account::validate(&token), "sub: alice");
    assert_eq!(Account::validate("garbage"), "Failed");
}

#[test]
fn validate_marker_never_collides_with_a_subject() {
    let token = Account::generate_session("Failed").unwrap();
    assert_eq!(Account::validate(&token), "sub: Failed");
    assert_ne!(Account::validate(&token), "Failed");
}

#[test]
fn account_verify_session_delegates() {
    let token = Account::generate_session("carol").unwrap();
    let claims = Account::verify_session(&token).unwrap();
    assert_eq!(claims.sub, "carol");
}
