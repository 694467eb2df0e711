use argon2::password_hash::{PasswordHash, PasswordVerifier};
use argon2::Argon2;
use rustyverse::json::{JsonNumber, JsonValue};
use rustyverse::models::users::{NewUserToken, Timestamp, User, Uuid, MAX_TIMESTAMP, MIN_TIMESTAMP};
use rustyverse::models::{extract_id, extract_key, hash_option_password, hash_password_str, ModelError};
use rustyverse::sessions::Claims;

fn obj(fields: Vec<(&str, JsonValue)>) -> JsonValue {
    JsonValue::Object(fields.into_iter().map(|(k, v)| (k.to_string(), v)).collect())
}

fn s(text: &str) -> JsonValue {
    JsonValue::String(text.to_string())
}

#[test]
fn extract_key_takes_last_result() {
    let results = vec![
        obj(vec![("_key", s("first")), ("_id", s("users/first"))]),
        obj(vec![("_id", s("users/second")), ("_key", s("second"))]),
    ];
    assert_eq!(extract_key(results).ok(), Some("second".to_string()));
}

#[test]
fn extract_id_takes_last_result() {
    let results = vec![obj(vec![("_key", s("k")), ("_id", s("files/k"))])];
    assert_eq!(extract_id(results).ok(), Some("files/k".to_string()));
}

#[test]
fn extract_key_of_no_result() {
    let err = extract_key(vec![]).err().unwrap();
    assert!(matches!(err, ModelError::EmptyResult));
    assert_eq!(err.message(), "Empty result");
}

#[test]
fn extract_key_missing_field() {
    let err = extract_key(vec![obj(vec![("_id", s("x"))])]).err().unwrap();
    assert_eq!(err.message(), "No _key");
    let err = extract_id(vec![s("not an object")]).err().unwrap();
    assert_eq!(err.message(), "No _id");
}

#[test]
fn extract_key_not_string() {
    let err = extract_key(vec![obj(vec![("_key", JsonValue::Number(JsonNumber::PosInt(7)))])])
        .err()
        .unwrap();
    assert!(matches!(err, ModelError::FieldNotString(_)));
    assert_eq!(err.message(), "_key not string");
}

#[test]
fn extract_key_first_of_duplicate_fields() {
    let results = vec![obj(vec![("_key", s("a")), ("_key", s("b"))])];
    assert_eq!(extract_key(results).ok(), Some("a".to_string()));
}

#[test]
fn hashed_password_is_argon2id_phc_and_verifies() {
    let hash = hash_password_str("correct horse").ok().unwrap();
    let prefix = "$argon2id$v=19$m=19456,t=2,p=1$";
    assert!(hash.starts_with(prefix));
    let salt = &hash[prefix.len()..prefix.len() + 22];
    assert_eq!(&hash[prefix.len() + 22..prefix.len() + 23], "$");
    assert!(salt.chars().all(|c| c.is_ascii_alphanumeric() || c == '+' || c == '/'));
    let parsed = PasswordHash::new(&hash).unwrap();
    assert!(Argon2::default().verify_password(b"correct horse", &parsed).is_ok());
    assert!(Argon2::default().verify_password(b"wrong horse", &parsed).is_err());
}

#[test]
fn hashes_use_fresh_salts() {
    let a = hash_password_str("pw").ok().unwrap();
    let b = hash_password_str("pw").ok().unwrap();
    assert_ne!(a, b);
}

#[test]
fn hash_option_password_cases() {
    assert!(matches!(hash_option_password(&None), Ok(None)));
    let hashed = hash_option_password(&Some("secret".to_string())).ok().unwrap().unwrap();
    assert!(hashed.starts_with("$argon2id$v=19$"));
    assert_ne!(hashed, "secret");
}

#[test]
fn uuid_v4_and_text() {
    for _ in 0..20 {
        let u = Uuid::new_v4();
        assert_eq!(u.value & 0xF000_C000_0000_0000_0000, 0x4000_8000_0000_0000_0000);
        let reference = uuid::Uuid::from_u128(u.value);
        assert_eq!(reference.get_version_num(), 4);
        assert_eq!(u.hyphenated(), reference.hyphenated().to_string());
    }
    let u = Uuid { value: 0x0123_4567_89ab_cdef_fedc_ba98_7654_3210 };
    assert_eq!(u.hyphenated(), "01234567-89ab-cdef-fedc-ba9876543210");
}

#[test]
fn timestamp_from_secs_range() {
    let t = Timestamp::from_secs(1_700_000_000).unwrap();
    assert_eq!(t, Timestamp { secs: 1_700_000_000, nsecs: 0 });
    assert!(Timestamp::from_secs(-1).is_some());
    assert!(Timestamp::from_secs(i64::MAX).is_none());
    assert!(Timestamp::from_secs(i64::MIN).is_none());
    let now = Timestamp::now().unwrap();
    assert!(now.nsecs < 1_000_000_000);
    assert!(now.secs > 1_600_000_000);
}

fn sample_claims(exp: u64) -> Claims {
    Claims {
        uuid: Uuid { value: 0x1111_2222_3333_4444_5555_6666_7777_8888 },
        user_uuid: Uuid { value: 0xaaaa_bbbb_cccc_4ddd_9eee_ffff_0000_1111 },
        sub: "ada@example.org".to_string(),
        exp,
    }
}

#[test]
fn new_user_token_from_claims() {
    let claims = sample_claims(1_800_000_000);
    let token = NewUserToken::from(sample_claims(1_800_000_000)).unwrap();
    assert_eq!(token.uuid, claims.uuid);
    assert_eq!(token.user_uuid, claims.user_uuid);
    assert_eq!(token.expires, Timestamp { secs: 1_800_000_000, nsecs: 0 });
    assert!(token.created.secs > 1_600_000_000);
    let JsonValue::Object(fields) = &token.claims else { panic!("claims are no object") };
    let keys: Vec<&str> = fields.iter().map(|(k, _)| k.as_str()).collect();
    assert_eq!(keys, vec!["exp", "sub", "user_uuid", "uuid"]);
    assert_eq!(token.claims.get("sub").and_then(|v| v.as_str()), Some("ada@example.org"));
    assert_eq!(
        token.claims.get("uuid").and_then(|v| v.as_str()),
        Some("11112222-3333-4444-5555-666677778888")
    );
    assert!(matches!(token.claims.get("exp"), Some(JsonValue::Number(JsonNumber::PosInt(1_800_000_000)))));
}

#[test]
fn new_user_token_out_of_range_expiry() {
    assert!(NewUserToken::try_from_claims(sample_claims(u64::MAX / 2)).is_none());
    assert!(NewUserToken::try_from_claims(sample_claims(42)).is_some());
}

#[test]
fn claims_json_matches_serde_json() {
    let claims = sample_claims(99);
    let mut map = serde_json::Map::new();
    map.insert("uuid".to_string(), serde_json::Value::String(uuid::Uuid::from_u128(claims.uuid.value).to_string()));
    map.insert(
        "user_uuid".to_string(),
        serde_json::Value::String(uuid::Uuid::from_u128(claims.user_uuid.value).to_string()),
    );
    map.insert("sub".to_string(), serde_json::Value::String(claims.sub.clone()));
    map.insert("exp".to_string(), serde_json::Value::from(claims.exp));
    let JsonValue::Object(fields) = claims.to_json() else { panic!("claims are no object") };
    let ours: Vec<(String, String)> = fields
        .iter()
        .map(|(k, v)| {
            let text = match v {
                JsonValue::String(s) => format!("\"{}\"", s),
                JsonValue::Number(JsonNumber::PosInt(n)) => n.to_string(),
                _ => panic!("unexpected value"),
            };
            (k.clone(), text)
        })
        .collect();
    let theirs: Vec<(String, String)> = map.iter().map(|(k, v)| (k.clone(), v.to_string())).collect();
    assert_eq!(ours, theirs);
}

#[test]
fn claims_for_user() {
    let user = User {
        _id: "users/1".to_string(),
        _key: "1".to_string(),
        _rev: "r".to_string(),
        email: "bob@example.org".to_string(),
        name: "Bob".to_string(),
        uuid: Uuid { value: 5 },
    };
    let c = Claims::for_user_at(&user, -1234, Uuid { value: 9 }).unwrap();
    assert_eq!(c.exp, 1234);
    assert_eq!(c.sub, "bob@example.org");
    assert_eq!(c.user_uuid, Uuid { value: 5 });
    assert_eq!(c.uuid, Uuid { value: 9 });
    assert!(Claims::for_user_at(&user, i64::MIN, Uuid { value: 9 }).is_none());
    assert_eq!(Claims::for_user_at(&user, i64::MAX, Uuid { value: 9 }).unwrap().exp, i64::MAX as u64);
    let fresh = Claims::new_claims_for_user(&user).unwrap();
    assert_eq!(fresh.user_uuid, user.uuid);
    assert_eq!(fresh.sub, user.email);
    assert_eq!(uuid::Uuid::from_u128(fresh.uuid.value).get_version_num(), 4);
    let now = chrono::Utc::now().timestamp() as u64;
    assert!(fresh.exp >= now + 86_400 - 5 && fresh.exp <= now + 86_400 + 5);
}

#[test]
fn claims_expire_one_day_after_start() {
    let user = User {
        _id: "users/2".to_string(),
        _key: "2".to_string(),
        _rev: "r".to_string(),
        email: "eve@example.org".to_string(),
        name: "Eve".to_string(),
        uuid: Uuid { value: 6 },
    };
    let c = Claims::for_user_from(&user, Timestamp { secs: 1000, nsecs: 5 }, Uuid { value: 8 }).unwrap();
    assert_eq!(c.exp, 87_400);
    assert_eq!(c.uuid, Uuid { value: 8 });
    assert_eq!(c.sub, "eve@example.org");
    let c = Claims::for_user_from(&user, Timestamp { secs: -100_000, nsecs: 0 }, Uuid { value: 8 }).unwrap();
    assert_eq!(c.exp, 13_600);
    assert!(Claims::for_user_from(&user, Timestamp { secs: i64::MAX, nsecs: 0 }, Uuid { value: 8 }).is_none());
    assert!(Claims::for_user_from(&user, Timestamp { secs: i64::MAX / 2, nsecs: 0 }, Uuid { value: 8 }).is_none());
}

#[test]
fn claims_json_reads_back() {
    let claims = sample_claims(1_800_000_000);
    let back = Claims::from_json_object(&claims.to_json()).unwrap();
    assert_eq!((back.uuid, back.user_uuid, back.sub.as_str(), back.exp), (claims.uuid, claims.user_uuid, claims.sub.as_str(), claims.exp));
    let token = NewUserToken::from(sample_claims(5)).unwrap();
    assert_eq!(Claims::from_json_object(&token.claims).unwrap().exp, 5);
}

fn claims_object(exp: JsonNumber, uuid_text: &str) -> JsonValue {
    JsonValue::Object(vec![
        ("exp".to_string(), JsonValue::Number(exp)),
        ("sub".to_string(), s("x")),
        ("user_uuid".to_string(), s("00000000-0000-0000-0000-000000000001")),
        ("uuid".to_string(), s(uuid_text)),
    ])
}

#[test]
fn claims_json_refused() {
    let two = "00000000000000000000000000000002";
    assert!(Claims::from_json_object(&claims_object(JsonNumber::NegInt(-1), two)).is_none());
    let c = Claims::from_json_object(&claims_object(JsonNumber::PosInt(9), two)).unwrap();
    assert_eq!((c.uuid.value, c.user_uuid.value, c.exp), (2, 1, 9));
    assert!(Claims::from_json_object(&claims_object(JsonNumber::PosInt(9), "not-a-uuid")).is_none());
    assert!(Claims::from_json_object(&s("x")).is_none());
}

#[test]
fn uuid_parse_reads_texts() {
    let u = Uuid { value: 0x0123_4567_89ab_cdef_fedc_ba98_7654_3210 };
    assert_eq!(Uuid::parse(&u.hyphenated()), Some(u));
    assert_eq!(Uuid::parse("0123456789abcdeffedcba9876543210"), Some(u));
    assert_eq!(Uuid::parse("nope"), None);
}

#[test]
fn ordinary_passwords_always_hash() {
    for p in ["", "a", "pässwörd", &"x".repeat(10_000)] {
        assert!(hash_password_str(p).is_ok());
    }
}

#[test]
fn chrono_range_bounds() {
    for (secs, nsecs) in [
        (MIN_TIMESTAMP, 0),
        (MIN_TIMESTAMP - 1, 0),
        (MAX_TIMESTAMP, 0),
        (MAX_TIMESTAMP + 1, 0),
        (59, 1_500_000_000),
        (58, 1_500_000_000),
        (59, 2_000_000_000),
        (0, 999_999_999),
        (-1, 1_000_000_000),
    ] {
        let ours = Timestamp::new(secs, nsecs);
        let theirs = chrono::DateTime::from_timestamp(secs, nsecs);
        assert_eq!(ours.is_some(), theirs.is_some(), "{} {}", secs, nsecs);
    }
    assert!(Timestamp::new(MIN_TIMESTAMP, 0).is_some());
    assert!(Timestamp::new(MAX_TIMESTAMP, 0).is_some());
    assert_eq!(chrono::DateTime::<chrono::Utc>::MIN_UTC.timestamp(), MIN_TIMESTAMP);
    assert_eq!(chrono::DateTime::<chrono::Utc>::MAX_UTC.timestamp(), MAX_TIMESTAMP);
}

#[test]
fn token_created_at_given_time() {
    let created = Timestamp { secs: 1_700_000_000, nsecs: 12 };
    let token = NewUserToken::from_at(sample_claims(1_800_000_000), created);
    assert_eq!(token.created, created);
    assert_eq!(token.expires, Timestamp { secs: 1_800_000_000, nsecs: 0 });
    assert_eq!(token.uuid, sample_claims(0).uuid);
}
