use rustyverse::models::users::Uuid;
use rustyverse::json::JsonValue;
use rustyverse::sessions::{claims_guard, claims_of_decoded, get_jwt_secret, Claims, SessionError, SessionManager, UNAUTHORIZED};

#[test]
fn bearer_header_carries_token() {
    let m = SessionManager::init();
    assert_eq!(m.extract_jwt(Some("Bearer abc.def.ghi"), None).ok(), Some("abc.def.ghi".to_string()));
}

#[test]
fn bearer_header_wins_over_cookie() {
    let m = SessionManager::init();
    assert_eq!(m.extract_jwt(Some("Bearer from-header"), Some("from-cookie")).ok(), Some("from-header".to_string()));
}

#[test]
fn bearer_marker_found_anywhere_first_occurrence() {
    let m = SessionManager::init();
    assert_eq!(m.extract_jwt(Some("Token Bearer x Bearer y"), None).ok(), Some("x Bearer y".to_string()));
    assert_eq!(m.extract_jwt(Some("Bearer "), Some("c")).ok(), Some("".to_string()));
    assert_eq!(m.extract_jwt(Some("Béärer Bearer ü"), None).ok(), Some("ü".to_string()));
}

#[test]
fn header_without_bearer_falls_back_to_cookie() {
    let m = SessionManager::init();
    assert_eq!(m.extract_jwt(Some("Basic dXNlcjpwdw=="), Some("cookie-jwt")).ok(), Some("cookie-jwt".to_string()));
    assert_eq!(m.extract_jwt(Some("bearer lower"), Some("c2")).ok(), Some("c2".to_string()));
    assert_eq!(m.extract_jwt(None, Some("c3")).ok(), Some("c3".to_string()));
}

#[test]
fn no_token_at_all() {
    let m = SessionManager::init();
    let err = m.extract_jwt(Some("Basic x"), None).err().unwrap();
    assert!(matches!(err, SessionError::NoJwt));
    assert_eq!(err.message(), "No jwt found in request");
    assert!(m.extract_jwt(None, None).is_err());
}

#[test]
fn jwt_secret_is_30_alphanumerics() {
    let a = get_jwt_secret();
    let b = get_jwt_secret();
    assert_eq!(a.chars().count(), 30);
    assert!(a.chars().all(|c| c.is_ascii_alphanumeric()));
    assert_ne!(a, b);
}

#[test]
fn keys_sign_and_check_tokens() {
    let m = SessionManager::init();
    let mut claims = std::collections::BTreeMap::new();
    claims.insert("exp".to_string(), serde_json::Value::from(4_000_000_000u64));
    let token = jsonwebtoken::encode(&jsonwebtoken::Header::default(), &claims, m.encoding_key()).unwrap();
    let decoded = jsonwebtoken::decode::<serde_json::Value>(
        &token,
        m.decoding_key(),
        &jsonwebtoken::Validation::new(jsonwebtoken::Algorithm::HS256),
    );
    assert!(decoded.is_ok());
    let other = SessionManager::init();
    let rejected = jsonwebtoken::decode::<serde_json::Value>(
        &token,
        other.decoding_key(),
        &jsonwebtoken::Validation::new(jsonwebtoken::Algorithm::HS256),
    );
    assert!(rejected.is_err());
}

fn claims() -> Claims {
    Claims { uuid: Uuid { value: 1 }, user_uuid: Uuid { value: 2 }, sub: "s".to_string(), exp: 3 }
}

#[test]
fn claims_guard_decisions() {
    let passed = claims_guard(Some(claims()), Some(true)).ok().unwrap();
    assert_eq!(passed.sub, "s");
    assert_eq!(claims_guard(Some(claims()), Some(false)).err(), Some(UNAUTHORIZED));
    assert_eq!(claims_guard(Some(claims()), None).err(), Some(401));
    assert_eq!(claims_guard(None, Some(true)).err(), Some(401));
}

fn signed_token(m: &SessionManager, exp: u64) -> String {
    let mut claims = std::collections::BTreeMap::new();
    claims.insert("exp".to_string(), serde_json::Value::from(exp));
    claims.insert("sub".to_string(), serde_json::Value::from("ada@example.org"));
    claims.insert("user_uuid".to_string(), serde_json::Value::from("00000000-0000-0000-0000-000000000007"));
    claims.insert("uuid".to_string(), serde_json::Value::from("00000000-0000-4000-8000-000000000009"));
    claims.insert("extra".to_string(), serde_json::Value::from(vec![1, 2]));
    jsonwebtoken::encode(&jsonwebtoken::Header::default(), &claims, m.encoding_key()).unwrap()
}

#[test]
fn request_claims_decoded_from_header() {
    let m = SessionManager::init();
    let token = signed_token(&m, 4_000_000_000);
    let header = format!("Bearer {}", token);
    let c = m.decode_request_claims(Some(&header), Some("garbage")).ok().unwrap();
    assert_eq!(c.sub, "ada@example.org");
    assert_eq!((c.user_uuid.value, c.uuid.value, c.exp), (7, 0x4000_8000_0000_0000_0009, 4_000_000_000));
    let c = m.decode_request_claims(None, Some(&token)).ok().unwrap();
    assert_eq!(c.exp, 4_000_000_000);
}

#[test]
fn request_claims_refused() {
    let m = SessionManager::init();
    assert!(matches!(m.decode_request_claims(None, None), Err(SessionError::NoJwt)));
    let expired = signed_token(&m, 1_000);
    let err = m.decode_request_claims(None, Some(&expired)).err().unwrap();
    assert!(matches!(err, SessionError::Decode(_)));
    assert!(err.message().starts_with("decode jwt: "));
    let other = SessionManager::init();
    let foreign = signed_token(&other, 4_000_000_000);
    assert!(matches!(m.decode_request_claims(None, Some(&foreign)), Err(SessionError::Decode(_))));
    assert!(matches!(m.decode_request_claims(Some("Bearer not.a.jwt"), None), Err(SessionError::Decode(_))));
}

#[test]
fn decoded_json_to_claims() {
    let err = claims_of_decoded(Ok(JsonValue::Null)).err().unwrap();
    assert_eq!(err.message(), "decode jwt: claims missing or malformed");
    let err = claims_of_decoded(Err("InvalidSignature".to_string())).err().unwrap();
    assert_eq!(err.message(), "decode jwt: InvalidSignature");
}
