//! Users, their identifiers, and the tokens that record issued sessions.
use crate::json::JsonValue;
use crate::sessions::Claims;
use vstd::arithmetic::power2::pow2;
use vstd::prelude::*;

verus! {

/// A UUID, held as its 128-bit value (the bytes in big-endian order).
#[derive(Clone, Copy, PartialEq, Eq, Structural, Debug)]
pub struct Uuid {
    pub value: u128,
}

/// Whether `value` is a version 4 UUID of the RFC 4122 variant: the version
/// nibble is 4 and the two variant bits are `10`.
pub open spec fn is_version4(value: u128) -> bool {
    value & 0xF000_C000_0000_0000_0000u128 == 0x4000_8000_0000_0000_0000u128
}

/// The lower-case hexadecimal digit of `n` (for `0 <= n < 16`).
pub open spec fn hex_digit(n: int) -> char {
    if n < 10 {
        (48 + n) as char
    } else {
        (87 + n) as char
    }
}

/// The `i`-th of the 32 hexadecimal digits of `value`, from the most
/// significant one.
pub open spec fn nibble(value: u128, i: int) -> int {
    (value as int / pow2((4 * (31 - i)) as nat) as int) % 16
}

/// The hexadecimal digits `from..to` of `value`.
pub open spec fn hex_digits(value: u128, from: int, to: int) -> Seq<char> {
    Seq::new((to - from) as nat, |k: int| hex_digit(nibble(value, from + k)))
}

/// The hyphenated text of a UUID: 32 lower-case hexadecimal digits in groups of
/// 8, 4, 4, 4 and 12, joined by `-`.
pub open spec fn hyphenated_text(value: u128) -> Seq<char> {
    hex_digits(value, 0, 8) + seq!['-'] + hex_digits(value, 8, 12) + seq!['-']
        + hex_digits(value, 12, 16) + seq!['-'] + hex_digits(value, 16, 20) + seq!['-']
        + hex_digits(value, 20, 32)
}

/// `uuid::Uuid::new_v4`: a random UUID. The crate draws 128 random bits and sets
/// the version and variant bits; the other bits are chance and not stated.
#[verifier::external_body]
fn random_v4_value() -> (res: u128)
    ensures
        is_version4(res),
{
    uuid::Uuid::new_v4().as_u128()
}

/// `Display` of `uuid::Uuid`: the hyphenated lower-case text.
#[verifier::external_body]
fn uuid_text(value: u128) -> (res: String)
    ensures
        res@ == hyphenated_text(value),
{
    uuid::Uuid::from_u128(value).to_string()
}

/// The UUID value that the text `text` names, as `uuid::Uuid::parse_str` reads
/// it (hyphenated, simple, braced or URN form), or `None` where it names none.
pub uninterp spec fn uuid_from_text(text: Seq<char>) -> Option<u128>;

/// `uuid::Uuid::parse_str`, which is how a UUID is read from a JSON string,
/// as its value. Named `uuid_from_text`; the hyphenated text of a UUID reads
/// back as that UUID. Which other texts it accepts is not stated beyond the
/// name.
#[verifier::external_body]
fn parse_uuid(text: &str) -> (res: Option<u128>)
    ensures
        res == uuid_from_text(text@),
        forall|v: u128| text@ == #[trigger] hyphenated_text(v) ==> res == Some(v),
{
    match uuid::Uuid::parse_str(text) {
        Ok(u) => Some(u.as_u128()),
        Err(_) => None,
    }
}

impl Uuid {
    /// The UUID that `text` names, as a JSON string is read into one.
    pub fn parse(text: &str) -> (res: Option<Uuid>)
        ensures
            match uuid_from_text(text@) {
                Some(v) => res == Some(Uuid { value: v }),
                None => res is None,
            },
            forall|v: u128| text@ == #[trigger] hyphenated_text(v) ==> res == Some(Uuid { value: v }),
    {
        match parse_uuid(text) {
            Some(v) => Some(Uuid { value: v }),
            None => None,
        }
    }

    /// A fresh random (version 4) UUID.
    pub fn new_v4() -> (res: Uuid)
        ensures
            is_version4(res.value),
    {
        Uuid { value: random_v4_value() }
    }

    /// The hyphenated text of this UUID, as it appears in JSON.
    pub fn hyphenated(&self) -> (res: String)
        ensures
            res@ == hyphenated_text(self.value),
    {
        uuid_text(self.value)
    }
}

/// A date and time in UTC: whole seconds since the UNIX epoch and nanoseconds
/// into the second (at or above 1,000,000,000 during a leap second).
#[derive(Clone, Copy, PartialEq, Eq, Structural, Debug)]
pub struct Timestamp {
    pub secs: i64,
    pub nsecs: u32,
}

/// The UNIX timestamp of chrono's first date and time, -262143-01-01 00:00:00.
pub const MIN_TIMESTAMP: i64 = -8_334_601_228_800;

/// The UNIX timestamp of the last second of chrono's last date,
/// 262142-12-31 23:59:59.
pub const MAX_TIMESTAMP: i64 = 8_210_266_876_799;

/// Whether chrono can represent the date and time `secs` seconds and `nsecs`
/// nanoseconds after the UNIX epoch: the date lies between chrono's first and
/// last, and the nanoseconds stay below one second's worth, or below two in
/// the last second of a minute (a leap second).
pub open spec fn chrono_accepts(secs: i64, nsecs: u32) -> bool {
    &&& MIN_TIMESTAMP <= secs <= MAX_TIMESTAMP
    &&& nsecs < 2_000_000_000
    &&& (nsecs < 1_000_000_000 || secs % 60 == 59)
}

/// `chrono::NaiveDateTime::from_timestamp_opt`: the date and time `secs`
/// seconds and `nsecs` nanoseconds after the UNIX epoch, where chrono can
/// represent it. A date made so gives back the same seconds and nanoseconds.
#[verifier::external_body]
fn naive_from_timestamp(secs: i64, nsecs: u32) -> (res: Option<Timestamp>)
    ensures
        match res {
            Some(t) => chrono_accepts(secs, nsecs) && t.secs == secs && t.nsecs == nsecs,
            None => !chrono_accepts(secs, nsecs),
        },
{
    #[allow(deprecated)]
    match chrono::NaiveDateTime::from_timestamp_opt(secs, nsecs) {
        Some(dt) => Some(
            Timestamp { secs: dt.and_utc().timestamp(), nsecs: dt.and_utc().timestamp_subsec_nanos() },
        ),
        None => None,
    }
}

/// `SystemTime::now().duration_since(UNIX_EPOCH)`, the reading that
/// `chrono::Utc::now` takes: the system clock as whole seconds and nanoseconds
/// since the UNIX epoch, or `None` for a clock set before the epoch. Which
/// reading it is, is the clock's; only that the nanoseconds stay below one
/// second's worth is stated.
#[verifier::external_body]
fn system_clock_since_epoch() -> (res: Option<(u64, u32)>)
    ensures
        res matches Some(r) ==> r.1 < 1_000_000_000,
{
    match std::time::SystemTime::now().duration_since(std::time::UNIX_EPOCH) {
        Ok(d) => Some((d.as_secs(), d.subsec_nanos())),
        Err(_) => None,
    }
}

impl Timestamp {
    /// The current date and time in UTC, as `chrono::Utc::now` makes it from
    /// the system clock; `None` where the clock reads before the UNIX epoch or
    /// past chrono's last date.
    pub fn now() -> (res: Option<Timestamp>)
        ensures
            res matches Some(t) ==> t.secs >= 0 && t.nsecs < 1_000_000_000 && chrono_accepts(t.secs, t.nsecs),
    {
        match system_clock_since_epoch() {
            Some((secs, nsecs)) => {
                if secs > MAX_TIMESTAMP as u64 {
                    None
                } else {
                    Timestamp::new(secs as i64, nsecs)
                }
            },
            None => None,
        }
    }

    /// The date and time `secs` seconds and `nsecs` nanoseconds after the UNIX
    /// epoch, where chrono can represent it.
    pub fn new(secs: i64, nsecs: u32) -> (res: Option<Timestamp>)
        ensures
            match res {
                Some(t) => chrono_accepts(secs, nsecs) && t.secs == secs && t.nsecs == nsecs,
                None => !chrono_accepts(secs, nsecs),
            },
    {
        naive_from_timestamp(secs, nsecs)
    }

    /// The date and time `secs` seconds after the UNIX epoch, where chrono can
    /// represent it.
    pub fn from_secs(secs: i64) -> (res: Option<Timestamp>)
        ensures
            match res {
                Some(t) => chrono_accepts(secs, 0) && t.secs == secs && t.nsecs == 0,
                None => !chrono_accepts(secs, 0),
            },
    {
        naive_from_timestamp(secs, 0)
    }
}

/// A user as the API shows it.
#[derive(Clone, Debug)]
pub struct User {
    pub _id: String,
    pub _key: String,
    pub _rev: String,
    pub email: String,
    pub name: String,
    pub uuid: Uuid,
}

/// A user as the store holds it, with the hash of the password.
#[derive(Clone, Debug)]
pub struct DbUser {
    pub _id: String,
    pub _key: String,
    pub _rev: String,
    pub email: String,
    pub name: String,
    pub uuid: Uuid,
    pub password_hash: String,
}

/// A stored token: the claims of an issued session and when it expires.
pub struct UserToken {
    pub _key: String,
    pub claims: JsonValue,
    pub expires: Timestamp,
    pub created: Timestamp,
    pub user_uuid: Uuid,
    pub uuid: Uuid,
}

/// A token to register for a newly issued session.
pub struct NewUserToken {
    pub claims: JsonValue,
    pub expires: Timestamp,
    pub created: Timestamp,
    pub user_uuid: Uuid,
    pub uuid: Uuid,
}

/// Whether `token` records `claims`, created at `created`: the same
/// identifiers, the claims as JSON (keys sorted), expiring at the claims'
/// expiry.
pub open spec fn records_claims(token: NewUserToken, claims: Claims, created: Timestamp) -> bool {
    &&& token.uuid == claims.uuid
    &&& token.user_uuid == claims.user_uuid
    &&& claims.is_json_of(token.claims)
    &&& token.claims.wf()
    &&& token.expires == (Timestamp { secs: claims.exp as i64, nsecs: 0 })
    &&& token.created == created
}

/// Whether `created` is a date and time that the clock can give.
pub open spec fn is_clock_reading(created: Timestamp) -> bool {
    created.secs >= 0 && created.nsecs < 1_000_000_000 && chrono_accepts(created.secs, created.nsecs)
}

impl NewUserToken {
    /// The token recording `claims`, created at `created`.
    pub fn from_at(claims: Claims, created: Timestamp) -> (res: NewUserToken)
        requires
            chrono_accepts(claims.exp as i64, 0),
        ensures
            records_claims(res, claims, created),
    {
        let expires = match Timestamp::from_secs(claims.exp as i64) {
            Some(t) => t,
            None => {
                proof {
                    assert(false);
                }
                Timestamp { secs: 0, nsecs: 0 }
            },
        };
        let json = claims.to_json();
        NewUserToken { uuid: claims.uuid, claims: json, expires, created, user_uuid: claims.user_uuid }
    }

    /// The token recording `claims`, created now; `None` where the clock gives
    /// no date (see `Timestamp::now`).
    pub fn from(claims: Claims) -> (res: Option<NewUserToken>)
        requires
            chrono_accepts(claims.exp as i64, 0),
        ensures
            res matches Some(t) ==> is_clock_reading(t.created) && records_claims(t, claims, t.created),
    {
        match Timestamp::now() {
            Some(created) => Some(NewUserToken::from_at(claims, created)),
            None => None,
        }
    }

    /// The token recording `claims`, as `from` makes it, where chrono can
    /// represent the claims' expiry; `None` where it cannot, or where the clock
    /// gives no date.
    pub fn try_from_claims(claims: Claims) -> (res: Option<NewUserToken>)
        ensures
            !chrono_accepts(claims.exp as i64, 0) ==> res is None,
            res matches Some(t) ==> chrono_accepts(claims.exp as i64, 0) && is_clock_reading(t.created)
                && records_claims(t, claims, t.created),
    {
        match Timestamp::from_secs(claims.exp as i64) {
            Some(_) => NewUserToken::from(claims),
            None => None,
        }
    }
}

/// GraphQL queries on users.
pub struct UserQuery;

/// GraphQL mutations on users.
pub struct UserMutation;

} // verus!
