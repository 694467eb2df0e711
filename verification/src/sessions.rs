//! Sessions: JSON web token claims, the signing keys, and how a request's token
//! is found.
use crate::json::{key_lt, keys_sorted, lookup, JsonNumber, JsonValue};
use crate::models::users::{chrono_accepts, hyphenated_text, uuid_from_text, is_version4, Timestamp, User, Uuid};
use crate::text::{find, first_occurrence, is_ascii_alphanumeric, lemma_find_from, opt_chars};
use jsonwebtoken::{DecodingKey, EncodingKey};
use serde_json::Value;
use rand::Rng;
use vstd::prelude::*;
use vstd::utf8::encode_utf8;

verus! {

/// The claims of a JSON web token.
pub struct Claims {
    /// Unique identifier of the session.
    pub uuid: Uuid,
    /// The user's identifier.
    pub user_uuid: Uuid,
    /// Subject (whom the token refers to): the user's e-mail.
    pub sub: String,
    /// Expiration time, as a UTC timestamp in seconds.
    pub exp: u64,
}

impl Claims {
    /// The identifiers, subject and expiry of these claims.
    pub open spec fn fields(&self) -> (u128, u128, Seq<char>, u64) {
        (self.uuid.value, self.user_uuid.value, self.sub@, self.exp)
    }

    /// Whether these claims are `other`'s: the same identifiers, subject and
    /// expiry.
    pub open spec fn same_claims(&self, other: Claims) -> bool {
        &&& self.uuid == other.uuid
        &&& self.user_uuid == other.user_uuid
        &&& self.sub@ == other.sub@
        &&& self.exp == other.exp
    }

    /// Whether `v` is the JSON object of these claims, fields in key order:
    /// `exp` (a number), `sub`, `user_uuid` and `uuid` (strings, the
    /// identifiers hyphenated).
    pub open spec fn is_json_of(&self, v: JsonValue) -> bool {
        &&& v matches JsonValue::Object(fields)
        &&& fields@.len() == 4
        &&& fields@[0].0@ == "exp"@
        &&& fields@[0].1 == JsonValue::Number(JsonNumber::PosInt(self.exp))
        &&& fields@[1].0@ == "sub"@
        &&& fields@[1].1.spec_as_str() == Some(self.sub@)
        &&& fields@[2].0@ == "user_uuid"@
        &&& fields@[2].1.spec_as_str() == Some(hyphenated_text(self.user_uuid.value))
        &&& fields@[3].0@ == "uuid"@
        &&& fields@[3].1.spec_as_str() == Some(hyphenated_text(self.uuid.value))
    }

    /// The JSON object of these claims, keys sorted as serde_json keeps them.
    pub fn to_json(&self) -> (res: JsonValue)
        ensures
            self.is_json_of(res),
            res.wf(),
    {
        let mut fields: Vec<(String, JsonValue)> = Vec::new();
        fields.push((String::from_str("exp"), JsonValue::Number(JsonNumber::PosInt(self.exp))));
        fields.push((String::from_str("sub"), JsonValue::String(self.sub.clone())));
        fields.push((String::from_str("user_uuid"), JsonValue::String(self.user_uuid.hyphenated())));
        fields.push((String::from_str("uuid"), JsonValue::String(self.uuid.hyphenated())));
        proof {
            reveal_strlit("exp");
            reveal_strlit("sub");
            reveal_strlit("user_uuid");
            reveal_strlit("uuid");
            let k = fields@;
            assert(key_lt("exp"@, "sub"@));
            assert(key_lt("exp"@, "user_uuid"@));
            assert(key_lt("exp"@, "uuid"@));
            assert(key_lt("sub"@, "user_uuid"@));
            assert(key_lt("sub"@, "uuid"@));
            assert("user_uuid"@.drop_first() =~= seq!['s', 'e', 'r', '_', 'u', 'u', 'i', 'd']);
            assert("uuid"@.drop_first() =~= seq!['u', 'i', 'd']);
            assert(key_lt("user_uuid"@.drop_first(), "uuid"@.drop_first()));
            assert(key_lt("user_uuid"@, "uuid"@));
            assert(keys_sorted(k));
            assert forall|i: int| 0 <= i < k.len() implies (#[trigger] k[i]).1.wf() by {}
        }
        JsonValue::Object(fields)
    }
}

/// The claims that the JSON object `v` holds, as deserializing claims reads
/// an object: the strings `uuid` and `user_uuid` read as UUIDs, the string
/// `sub`, and the non-negative integer `exp`; other fields are ignored.
/// `None` where one of them is missing or of another kind.
pub open spec fn claims_fields_of(v: JsonValue) -> Option<(u128, u128, Seq<char>, u64)> {
    match (v.spec_get("uuid"@), v.spec_get("user_uuid"@), v.spec_get("sub"@), v.spec_get("exp"@)) {
        (Some(a), Some(b), Some(s), Some(JsonValue::Number(JsonNumber::PosInt(e)))) => match (
            a.spec_as_str(),
            b.spec_as_str(),
            s.spec_as_str(),
        ) {
            (Some(at), Some(bt), Some(st)) => match (uuid_from_text(at), uuid_from_text(bt)) {
                (Some(x), Some(y)) => Some((x, y, st, e)),
                _ => None,
            },
            _ => None,
        },
        _ => None,
    }
}

impl Claims {
    /// Reads claims back from their JSON object, as deserializing claims from
    /// an object does. The JSON object of any claims reads back as the same
    /// claims.
    pub fn from_json_object(v: &JsonValue) -> (res: Option<Claims>)
        ensures
            match claims_fields_of(*v) {
                Some(t) => res matches Some(c) && c.uuid.value == t.0 && c.user_uuid.value == t.1
                    && c.sub@ == t.2 && c.exp == t.3,
                None => res is None,
            },
            forall|c: Claims|
                #[trigger] c.is_json_of(*v) ==> (res matches Some(d) && d.same_claims(c)),
    {
        let a = v.get("uuid");
        let b = v.get("user_uuid");
        let s = v.get("sub");
        let e = v.get("exp");
        let at = match a {
            Some(x) => x.as_str(),
            None => None,
        };
        let bt = match b {
            Some(x) => x.as_str(),
            None => None,
        };
        let st = match s {
            Some(x) => x.as_str(),
            None => None,
        };
        let pa = match at {
            Some(t) => Uuid::parse(t),
            None => None,
        };
        let pb = match bt {
            Some(t) => Uuid::parse(t),
            None => None,
        };
        let exp: Option<u64> = match e {
            Some(JsonValue::Number(JsonNumber::PosInt(x))) => Some(*x),
            _ => None,
        };
        let res = match (pa, pb, st, exp) {
            (Some(x), Some(y), Some(sub), Some(ex)) => Some(
                Claims { uuid: x, user_uuid: y, sub: String::from_str(sub), exp: ex },
            ),
            _ => None,
        };
        proof {
            assert forall|c: Claims| #[trigger] c.is_json_of(*v) implies (res matches Some(d)
                && d.same_claims(c)) by {
                lemma_claims_json_fields(c, *v);
            }
        }
        res
    }
}

impl Claims {
    /// The claims of a session of `user` that expires at the UTC timestamp
    /// `expires_at` (in seconds, its sign dropped) and is identified by `uuid`;
    /// `None` for the one timestamp whose magnitude no `i64` holds.
    pub fn for_user_at(user: &User, expires_at: i64, uuid: Uuid) -> (res: Option<Claims>)
        ensures
            match res {
                Some(c) => {
                    &&& expires_at != i64::MIN
                    &&& c.exp == (if expires_at < 0 { -expires_at } else { expires_at as int })
                    &&& c.uuid == uuid
                    &&& c.user_uuid == user.uuid
                    &&& c.sub@ == user.email@
                },
                None => expires_at == i64::MIN,
            },
    {
        if expires_at == i64::MIN {
            return None;
        }
        let exp: u64 = if expires_at < 0 {
            (0 - expires_at) as u64
        } else {
            expires_at as u64
        };
        Some(Claims { uuid, user_uuid: user.uuid, sub: user.email.clone(), exp })
    }

    /// The claims of a session of `user`, identified by `uuid`, that starts
    /// at the date and time `now` and expires one day later (the UTC timestamp
    /// in seconds, its sign dropped); `None` where that date is past the last
    /// one chrono represents.
    pub fn for_user_from(user: &User, now: Timestamp, uuid: Uuid) -> (res: Option<Claims>)
        ensures
            match one_day_after(now) {
                Some(e) => res matches Some(c) && c.exp == magnitude(e) && c.uuid == uuid
                    && c.user_uuid == user.uuid && c.sub@ == user.email@,
                None => res is None,
            },
    {
        if now.secs > i64::MAX - SECS_PER_DAY {
            return None;
        }
        match Timestamp::new(now.secs + SECS_PER_DAY, now.nsecs) {
            Some(expires) => Claims::for_user_at(user, expires.secs, uuid),
            None => None,
        }
    }

    /// The claims of a new session of `user`: a fresh random identifier, the
    /// user's identifier and e-mail, expiring one day from now. `None` where the
    /// clock gives no such date (a day past the last date chrono represents).
    pub fn new_claims_for_user(user: &User) -> (res: Option<Claims>)
        ensures
            res matches Some(c) ==> {
                &&& is_version4(c.uuid.value)
                &&& c.user_uuid == user.uuid
                &&& c.sub@ == user.email@
                &&& exists|now: Timestamp| #[trigger] one_day_after(now) matches Some(e) && c.exp == magnitude(e)
            },
    {
        let now = match Timestamp::now() {
            Some(now) => now,
            None => return None,
        };
        let res = Claims::for_user_from(user, now, Uuid::new_v4());
        assert(res matches Some(c) ==> one_day_after(now) matches Some(e) && c.exp == magnitude(e));
        res
    }
}

/// The magnitude of `x` (its value with the sign dropped).
pub open spec fn magnitude(x: i64) -> int {
    if x < 0 {
        -x
    } else {
        x as int
    }
}

/// The UTC timestamp (in seconds) one day after the date and time `now`, where
/// chrono represents that date.
pub open spec fn one_day_after(now: Timestamp) -> Option<i64> {
    if now.secs > i64::MAX - SECS_PER_DAY {
        None
    } else if chrono_accepts((now.secs + SECS_PER_DAY) as i64, now.nsecs) {
        Some((now.secs + SECS_PER_DAY) as i64)
    } else {
        None
    }
}

/// The seconds of one day.
pub const SECS_PER_DAY: i64 = 86_400;

#[verifier::external_type_specification]
#[verifier::external_body]
pub struct ExDecodingKey(DecodingKey);

#[verifier::external_type_specification]
#[verifier::external_body]
pub struct ExEncodingKey(EncodingKey);

/// One draw of `rand::distributions::Alphanumeric` from the thread's random
/// generator, as a character: an ASCII letter or digit. Which one is chance.
#[verifier::external_body]
fn random_alphanumeric() -> (c: char)
    ensures
        is_ascii_alphanumeric(c),
{
    char::from(rand::thread_rng().sample(rand::distributions::Alphanumeric))
}

/// `String::push`: appends `c`.
#[verifier::external_body]
fn push_char(s: &mut String, c: char)
    ensures
        final(s)@ == old(s)@.push(c),
{
    s.push(c)
}

/// The length of a session signing secret.
pub const JWT_SECRET_LEN: usize = 30;

/// A fresh signing secret: 30 random ASCII letters and digits.
pub fn get_jwt_secret() -> (res: String)
    ensures
        res@.len() == JWT_SECRET_LEN,
        forall|i: int| 0 <= i < res@.len() ==> is_ascii_alphanumeric(#[trigger] res@[i]),
{
    let mut secret = String::new();
    let mut i: usize = 0;
    while i < JWT_SECRET_LEN
        invariant
            i <= JWT_SECRET_LEN,
            secret@.len() == i,
            forall|j: int| 0 <= j < secret@.len() ==> is_ascii_alphanumeric(#[trigger] secret@[j]),
        decreases JWT_SECRET_LEN - i,
    {
        let c = random_alphanumeric();
        push_char(&mut secret, c);
        i = i + 1;
    }
    secret
}

/// The key that `DecodingKey::from_secret` makes of `secret`: it checks HMAC
/// signatures made with `secret`.
pub uninterp spec fn hmac_decoding_key(secret: Seq<u8>) -> DecodingKey;

/// The key that `EncodingKey::from_secret` makes of `secret`: it makes HMAC
/// signatures with `secret`.
pub uninterp spec fn hmac_encoding_key(secret: Seq<u8>) -> EncodingKey;

/// `jsonwebtoken::DecodingKey::from_secret`: the HMAC key for checking tokens
/// signed with `secret`, named `hmac_decoding_key`. The key is opaque; only
/// that it is made of `secret` is stated.
#[verifier::external_body]
fn decoding_key_from_secret(secret: &[u8]) -> (res: DecodingKey)
    ensures
        res == hmac_decoding_key(secret@),
{
    DecodingKey::from_secret(secret)
}

/// `jsonwebtoken::EncodingKey::from_secret`: the HMAC key for signing tokens
/// with `secret`, named `hmac_encoding_key`. The key is opaque; only that it is
/// made of `secret` is stated.
#[verifier::external_body]
fn encoding_key_from_secret(secret: &[u8]) -> (res: EncodingKey)
    ensures
        res == hmac_encoding_key(secret@),
{
    EncodingKey::from_secret(secret)
}

/// Whether `secret` is what `get_jwt_secret` makes: 30 ASCII letters and
/// digits.
pub open spec fn is_jwt_secret(secret: Seq<char>) -> bool {
    &&& secret.len() == JWT_SECRET_LEN
    &&& forall|i: int| 0 <= i < secret.len() ==> is_ascii_alphanumeric(#[trigger] secret[i])
}

/// Whether the checking key `decoding` and the signing key `encoding` are both
/// made of the UTF-8 bytes of `secret`.
pub open spec fn keys_from_secret(decoding: DecodingKey, encoding: EncodingKey, secret: Seq<char>) -> bool {
    &&& decoding == hmac_decoding_key(encode_utf8(secret))
    &&& encoding == hmac_encoding_key(encode_utf8(secret))
}

/// Whether the two keys are both made of one secret such as `get_jwt_secret`
/// makes, so that tokens the signing key signs pass the checking key.
pub open spec fn keys_from_fresh_secret(decoding: DecodingKey, encoding: EncodingKey) -> bool {
    exists|secret: Seq<char>| is_jwt_secret(secret) && #[trigger] keys_from_secret(decoding, encoding, secret)
}

/// The keys that sign session tokens and check them.
pub struct JwtKeys {
    decoding_key: DecodingKey,
    encoding_key: EncodingKey,
}

impl JwtKeys {
    /// The key that checks tokens.
    pub closed spec fn spec_decoding_key(&self) -> DecodingKey {
        self.decoding_key
    }

    /// The key that signs tokens.
    pub closed spec fn spec_encoding_key(&self) -> EncodingKey {
        self.encoding_key
    }

    /// Keys for a fresh random secret (see `get_jwt_secret`): both made of it.
    pub fn init() -> (res: JwtKeys)
        ensures
            keys_from_fresh_secret(res.spec_decoding_key(), res.spec_encoding_key()),
    {
        let secret = get_jwt_secret();
        let decoding_key = decoding_key_from_secret(secret.as_str().as_bytes());
        let encoding_key = encoding_key_from_secret(secret.as_str().as_bytes());
        let res = JwtKeys { decoding_key, encoding_key };
        assert(is_jwt_secret(secret@) && keys_from_secret(res.decoding_key, res.encoding_key, secret@));
        res
    }
}

/// Errors of session handling.
pub enum SessionError {
    /// The request carries no token.
    NoJwt,
    /// The token does not decode to claims, with the reason.
    Decode(String),
}

impl SessionError {
    /// The text of this error.
    pub open spec fn spec_message(&self) -> Seq<char> {
        match self {
            SessionError::NoJwt => "No jwt found in request"@,
            SessionError::Decode(m) => "decode jwt: "@ + m@,
        }
    }

    /// The text of this error.
    pub fn message(&self) -> (res: String)
        ensures
            res@ == self.spec_message(),
    {
        match self {
            SessionError::NoJwt => String::from_str("No jwt found in request"),
            SessionError::Decode(m) => String::from_str("decode jwt: ").concat(m.as_str()),
        }
    }
}

/// The marker before a token in an `Authorization` header.
pub open spec fn bearer_marker() -> Seq<char> {
    seq!['B', 'e', 'a', 'r', 'e', 'r', ' ']
}

/// What follows the first `Bearer ` in an `Authorization` header, if the header
/// has one (the second half of `split_once("Bearer ")`).
pub open spec fn bearer_token(header: Seq<char>) -> Option<Seq<char>> {
    match first_occurrence(header, bearer_marker()) {
        Some(k) => Some(header.subrange((k + bearer_marker().len()) as int, header.len() as int)),
        None => None,
    }
}

/// The token a request carries: the bearer token of its `Authorization` header
/// if there is one, else the value of its `jwt` cookie, if any.
pub open spec fn request_token(authorization: Option<Seq<char>>, jwt_cookie: Option<Seq<char>>) -> Option<Seq<char>> {
    match authorization {
        Some(h) => match bearer_token(h) {
            Some(t) => Some(t),
            None => jwt_cookie,
        },
        None => jwt_cookie,
    }
}

#[verifier::external_type_specification]
#[verifier::external_body]
pub struct ExSerdeJsonValue(serde_json::Value);

/// Whether `text` begins with `prefix`.
pub open spec fn starts_with(text: Seq<char>, prefix: Seq<char>) -> bool {
    text.len() >= prefix.len() && text.subrange(0, prefix.len() as int) == prefix
}

/// Whether `m` is a text that an error of `jsonwebtoken` displays: the name of
/// a reason that carries nothing more, or a reason that carries a message,
/// after the prefix that names it.
pub open spec fn is_decoder_error_text(m: Seq<char>) -> bool {
    ||| m == "InvalidToken"@
    ||| m == "InvalidSignature"@
    ||| m == "InvalidEcdsaKey"@
    ||| m == "ExpiredSignature"@
    ||| m == "RsaFailedSigning"@
    ||| m == "MissingAlgorithm"@
    ||| m == "InvalidIssuer"@
    ||| m == "InvalidAudience"@
    ||| m == "InvalidSubject"@
    ||| m == "ImmatureSignature"@
    ||| m == "InvalidAlgorithm"@
    ||| m == "InvalidKeyFormat"@
    ||| m == "InvalidAlgorithmName"@
    ||| starts_with(m, "Missing required claim: "@)
    ||| starts_with(m, "RSA key invalid: "@)
    ||| starts_with(m, "JSON error: "@)
    ||| starts_with(m, "UTF-8 error: "@)
    ||| starts_with(m, "Crypto error: "@)
    ||| starts_with(m, "Base64 error: "@)
}

/// `jsonwebtoken::decode` of `token` into a JSON value, with `key` and
/// `Validation::new(Algorithm::HS256)`: the token's claims where its HS256
/// signature checks with `key` and it has not expired; else the decoder's
/// error message, which is the `Display` of a `jsonwebtoken` error. Whether it
/// has expired depends on the clock, so which outcome it is, is not stated;
/// only that an error's message is such a text.
#[verifier::external_body]
fn decode_hs256(token: &str, key: &DecodingKey) -> (res: Result<serde_json::Value, String>)
    ensures
        res matches Err(m) ==> is_decoder_error_text(m@),
{
    let validation = jsonwebtoken::Validation::new(jsonwebtoken::Algorithm::HS256);
    match jsonwebtoken::decode::<serde_json::Value>(token, key, &validation) {
        Ok(data) => Ok(data.claims),
        Err(e) => Err(e.to_string()),
    }
}

/// A `serde_json::Value` as the library holds it, variant by variant: a
/// number by its kind (non-negative integer, negative integer, or its text),
/// an object's fields in the map's order, which is the keys' sorted order.
#[verifier::external_body]
fn json_of_serde(v: &Value) -> (res: JsonValue)
    ensures
        res.wf(),
{
    match v {
        Value::Null => JsonValue::Null,
        Value::Bool(b) => JsonValue::Bool(*b),
        Value::Number(n) => JsonValue::Number(match (n.as_u64(), n.as_i64()) {
            (Some(u), _) => JsonNumber::PosInt(u),
            (None, Some(i)) => JsonNumber::NegInt(i),
            _ => JsonNumber::Decimal(n.to_string()),
        }),
        Value::String(s) => JsonValue::String(s.clone()),
        Value::Array(a) => JsonValue::Array(a.iter().map(json_of_serde).collect()),
        Value::Object(m) => JsonValue::Object(m.iter().map(|(k, x)| (k.clone(), json_of_serde(x))).collect()),
    }
}

/// The text of the reason why decoded JSON holds no claims.
pub open spec fn malformed_claims_reason() -> Seq<char> {
    "claims missing or malformed"@
}

/// The claims that a token's decoding gave: its claims where the token decoded
/// to a JSON object that holds claims (see `claims_fields_of`); the decoder's
/// reason, or that the claims are malformed, otherwise.
pub fn claims_of_decoded(decoded: Result<JsonValue, String>) -> (res: Result<Claims, SessionError>)
    ensures
        match decoded {
            Err(m) => res matches Err(SessionError::Decode(e)) && e@ == m@,
            Ok(v) => match claims_fields_of(v) {
                Some(t) => res matches Ok(c) && c.fields() == t,
                None => res matches Err(SessionError::Decode(e)) && e@ == malformed_claims_reason(),
            },
        },
{
    match decoded {
        Err(m) => Err(SessionError::Decode(m)),
        Ok(v) => match Claims::from_json_object(&v) {
            Some(c) => Ok(c),
            None => Err(SessionError::Decode(String::from_str("claims missing or malformed"))),
        },
    }
}

/// Manages sessions: holds the keys that sign and check their tokens.
pub struct SessionManager {
    jwt_keys: JwtKeys,
}

impl SessionManager {
    /// A session manager with fresh keys, both made of one fresh secret.
    pub fn init() -> (res: SessionManager)
        ensures
            keys_from_fresh_secret(res.spec_decoding_key(), res.spec_encoding_key()),
    {
        SessionManager { jwt_keys: JwtKeys::init() }
    }

    /// The key that checks this manager's session tokens.
    pub closed spec fn spec_decoding_key(&self) -> DecodingKey {
        self.jwt_keys.spec_decoding_key()
    }

    /// The key that signs this manager's session tokens.
    pub closed spec fn spec_encoding_key(&self) -> EncodingKey {
        self.jwt_keys.spec_encoding_key()
    }

    /// The key that checks session tokens.
    pub fn decoding_key(&self) -> (res: &DecodingKey)
        ensures
            *res == self.spec_decoding_key(),
    {
        &self.jwt_keys.decoding_key
    }

    /// The key that signs session tokens.
    pub fn encoding_key(&self) -> (res: &EncodingKey)
        ensures
            *res == self.spec_encoding_key(),
    {
        &self.jwt_keys.encoding_key
    }

    /// Finds the token of a request from its first `Authorization` header and
    /// its `jwt` cookie: what follows `Bearer ` in the header, else the
    /// cookie's value.
    pub fn extract_jwt(&self, authorization: Option<&str>, jwt_cookie: Option<&str>) -> (res: Result<String, SessionError>)
        ensures
            match request_token(opt_chars(authorization), opt_chars(jwt_cookie)) {
                Some(t) => res matches Ok(s) && s@ == t,
                None => res matches Err(SessionError::NoJwt),
            },
    {
        let from_header: Option<String> = match authorization {
            Some(h) => {
                proof {
                    reveal_strlit("Bearer ");
                }
                assert("Bearer "@ =~= bearer_marker());
                match find(h, "Bearer ") {
                    Some(k) => {
                        proof {
                            lemma_find_from(h@, bearer_marker(), 0);
                        }
                        let n = h.unicode_len();
                        Some(String::from_str(h.substring_char(k + 7, n)))
                    },
                    None => None,
                }
            },
            None => None,
        };
        match from_header {
            Some(t) => Ok(t),
            None => match jwt_cookie {
                Some(c) => Ok(String::from_str(c)),
                None => Err(SessionError::NoJwt),
            },
        }
    }

    /// The claims of a request: its token (see `extract_jwt`), decoded and
    /// checked with this manager's key (HS256, not expired). No token gives
    /// `NoJwt`; a token that does not decode to claims gives `Decode`, with
    /// the decoder's reason or that the claims are malformed. Which tokens
    /// decode depends on the clock, so the claims are stated only to be those
    /// of some well-formed JSON object.
    pub fn decode_request_claims(&self, authorization: Option<&str>, jwt_cookie: Option<&str>) -> (res: Result<Claims, SessionError>)
        ensures
            request_token(opt_chars(authorization), opt_chars(jwt_cookie)) is None ==> res matches Err(SessionError::NoJwt),
            res is Ok ==> request_token(opt_chars(authorization), opt_chars(jwt_cookie)) is Some,
            res matches Ok(c) ==> exists|v: JsonValue| v.wf() && #[trigger] claims_fields_of(v) == Some(c.fields()),
            res matches Err(e) ==> (e is NoJwt <==> request_token(opt_chars(authorization), opt_chars(jwt_cookie)) is None),
            res matches Err(SessionError::Decode(m)) ==> (is_decoder_error_text(m@) || m@ == malformed_claims_reason()),
    {
        let token = match self.extract_jwt(authorization, jwt_cookie) {
            Ok(t) => t,
            Err(e) => return Err(e),
        };
        let decoded = match decode_hs256(token.as_str(), self.decoding_key()) {
            Ok(v) => Ok(json_of_serde(&v)),
            Err(e) => Err(e),
        };
        let ghost dv = decoded;
        let res = claims_of_decoded(decoded);
        proof {
            if res is Ok {
                let v = dv->Ok_0;
                assert(v.wf() && claims_fields_of(v) == Some(res->Ok_0.fields()));
            }
        }
        res
    }
}

/// The status with which a request lacking valid claims is refused.
pub const UNAUTHORIZED: u16 = 401;

/// Decides the claims guard of a request: it passes with its claims when a
/// token was found and decoded (`extracted`) and the store confirmed those
/// claims (`confirmed` is `Some(true)`); otherwise it is refused as
/// unauthorized.
pub fn claims_guard(extracted: Option<Claims>, confirmed: Option<bool>) -> (res: Result<Claims, u16>)
    ensures
        match extracted {
            Some(c) => if confirmed == Some(true) {
                res matches Ok(r) && r == c
            } else {
                res == Err::<Claims, u16>(UNAUTHORIZED)
            },
            None => res == Err::<Claims, u16>(UNAUTHORIZED),
        },
{
    match extracted {
        Some(c) => match confirmed {
            Some(true) => Ok(c),
            _ => Err(UNAUTHORIZED),
        },
        None => Err(UNAUTHORIZED),
    }
}

/// An `Authorization` header `Bearer <token>` carries exactly `<token>`.
pub proof fn lemma_bearer_header(token: Seq<char>)
    ensures
        bearer_token(bearer_marker() + token) == Some(token),
{
    let h = bearer_marker() + token;
    assert(h.subrange(0, 7) =~= bearer_marker());
    assert(h.subrange(7, h.len() as int) =~= token);
}

/// A request's token is the bearer token of its `Authorization` header when
/// that header has one, whatever its `jwt` cookie holds; otherwise it is the
/// cookie's value.
pub proof fn lemma_header_before_cookie(authorization: Seq<char>, jwt_cookie: Option<Seq<char>>)
    ensures
        bearer_token(authorization) is Some ==> request_token(Some(authorization), jwt_cookie)
            == bearer_token(authorization),
        bearer_token(authorization) is None ==> request_token(Some(authorization), jwt_cookie)
            == jwt_cookie,
        request_token(None, jwt_cookie) == jwt_cookie,
{
}

/// The JSON object of claims gives each claim back under its name: `exp` the
/// expiry, `sub` the subject, `user_uuid` and `uuid` the hyphenated
/// identifiers.
pub proof fn lemma_claims_json_fields(claims: Claims, v: JsonValue)
    requires
        claims.is_json_of(v),
    ensures
        v.spec_get("exp"@) == Some(JsonValue::Number(JsonNumber::PosInt(claims.exp))),
        v.spec_get("sub"@) matches Some(s) && s.spec_as_str() == Some(claims.sub@),
        v.spec_get("user_uuid"@) matches Some(s) && s.spec_as_str() == Some(
            hyphenated_text(claims.user_uuid.value),
        ),
        v.spec_get("uuid"@) matches Some(s) && s.spec_as_str() == Some(
            hyphenated_text(claims.uuid.value),
        ),
{
    reveal_strlit("exp");
    reveal_strlit("sub");
    reveal_strlit("user_uuid");
    reveal_strlit("uuid");
    let fields = match v {
        JsonValue::Object(fields) => fields@,
        _ => Seq::empty(),
    };
    let f1 = fields.drop_first();
    let f2 = f1.drop_first();
    let f3 = f2.drop_first();
    assert(f1[0] == fields[1]);
    assert(f2[0] == fields[2]);
    assert(f3[0] == fields[3]);
    assert("exp"@[0] != "sub"@[0]);
    assert("exp"@.len() == 3 && "sub"@.len() == 3 && "user_uuid"@.len() == 9 && "uuid"@.len() == 4);
    assert("exp"@ != "sub"@ && "exp"@ != "user_uuid"@ && "exp"@ != "uuid"@);
    assert("sub"@ != "user_uuid"@ && "sub"@ != "uuid"@);
    assert("user_uuid"@ != "uuid"@);
    assert(lookup(f3, "uuid"@) == Some(fields[3].1));
    assert(lookup(f2, "user_uuid"@) == Some(fields[2].1));
    assert(lookup(f2, "uuid"@) == lookup(f3, "uuid"@));
    assert(lookup(f1, "sub"@) == Some(fields[1].1));
    assert(lookup(f1, "user_uuid"@) == lookup(f2, "user_uuid"@));
    assert(lookup(f1, "uuid"@) == lookup(f2, "uuid"@));
}

} // verus!
