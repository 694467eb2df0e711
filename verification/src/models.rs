//! The service's records, the extraction of identifiers from store results,
//! and password hashing.
pub mod files;
pub mod users;

use crate::json::JsonValue;
use argon2::password_hash::{PasswordHasher, Salt, SaltString};
use argon2::Argon2;
use rand::rngs::OsRng;
use vstd::prelude::*;
use vstd::utf8::encode_utf8;

verus! {

/// Errors of the model layer.
pub enum ModelError {
    /// A store query gave no result.
    EmptyResult,
    /// The result has no field of this name.
    MissingField(String),
    /// The field of this name holds no string.
    FieldNotString(String),
    /// Password hashing failed, with the hasher's message.
    HashFailed(String),
}

impl ModelError {
    /// The text of this error.
    pub open spec fn spec_message(&self) -> Seq<char> {
        match self {
            ModelError::EmptyResult => "Empty result"@,
            ModelError::MissingField(f) => "No "@ + f@,
            ModelError::FieldNotString(f) => f@ + " not string"@,
            ModelError::HashFailed(m) => m@,
        }
    }

    /// The text of this error.
    pub fn message(&self) -> (res: String)
        ensures
            res@ == self.spec_message(),
    {
        match self {
            ModelError::EmptyResult => String::from_str("Empty result"),
            ModelError::MissingField(f) => String::from_str("No ").concat(f.as_str()),
            ModelError::FieldNotString(f) => f.clone().concat(" not string"),
            ModelError::HashFailed(m) => m.clone(),
        }
    }
}

/// What extracting the string field `field` from the last of `results` gives:
/// the field's text, or the error that the extraction reports.
pub open spec fn extracted_field(results: Seq<JsonValue>, field: Seq<char>, res: Result<String, ModelError>) -> bool {
    if results.len() == 0 {
        res matches Err(ModelError::EmptyResult)
    } else {
        match results.last().spec_get(field) {
            None => res matches Err(ModelError::MissingField(f)) && f@ == field,
            Some(v) => match v.spec_as_str() {
                None => res matches Err(ModelError::FieldNotString(f)) && f@ == field,
                Some(s) => res matches Ok(r) && r@ == s,
            },
        }
    }
}

/// Whether `res` hands back the string field `field` of the last of `results`
/// whole: where that field holds a JSON string, `res` is that string, every
/// character of it; and `res` is text only where that field holds a JSON
/// string, whose characters it is.
pub open spec fn gives_field_text(results: Seq<JsonValue>, field: Seq<char>, res: Result<String, ModelError>) -> bool {
    &&& results.len() > 0 ==> (results.last().spec_get(field) matches Some(JsonValue::String(s))
        ==> (res matches Ok(r) && r@ == s@))
    &&& res matches Ok(r) ==> (results.len() > 0 && (results.last().spec_get(field) matches Some(
        JsonValue::String(s),
    ) && s@ == r@))
}

/// Takes the last of `results` and gives the text of its string field `field`.
fn extract_field(results: Vec<JsonValue>, field: &str) -> (res: Result<String, ModelError>)
    ensures
        extracted_field(results@, field@, res),
        gives_field_text(results@, field@, res),
{
    let ghost all = results@;
    let mut results = results;
    let last = match results.pop() {
        Some(last) => last,
        None => return Err(ModelError::EmptyResult),
    };
    assert(last == all.last());
    let value = match last.get(field) {
        Some(value) => value,
        None => return Err(ModelError::MissingField(String::from_str(field))),
    };
    match value.as_str() {
        Some(s) => Ok(String::from_str(s)),
        None => Err(ModelError::FieldNotString(String::from_str(field))),
    }
}

/// Extracts the `_key` value, as a string, from the last of the store's
/// results.
///
/// Fails when there is no result, when the last one has no `_key`, or when its
/// `_key` is no string.
pub fn extract_key(results: Vec<JsonValue>) -> (res: Result<String, ModelError>)
    ensures
        extracted_field(results@, "_key"@, res),
        gives_field_text(results@, "_key"@, res),
{
    extract_field(results, "_key")
}

/// Extracts the `_id` value, as a string, from the last of the store's
/// results.
///
/// Fails when there is no result, when the last one has no `_id`, or when its
/// `_id` is no string.
pub fn extract_id(results: Vec<JsonValue>) -> (res: Result<String, ModelError>)
    ensures
        extracted_field(results@, "_id"@, res),
        gives_field_text(results@, "_id"@, res),
{
    extract_field(results, "_id")
}

/// Whether `c` is a character of the B64 alphabet of password-hash strings
/// (`A`-`Z`, `a`-`z`, `0`-`9`, `+`, `/`).
pub open spec fn is_b64_char(c: char) -> bool {
    ||| ('A' <= c && c <= 'Z')
    ||| ('a' <= c && c <= 'z')
    ||| ('0' <= c && c <= '9')
    ||| c == '+'
    ||| c == '/'
}

/// Whether `salt` is what a fresh salt looks like: 16 random bytes in B64,
/// that is 22 characters of the B64 alphabet, the last of which carries only
/// the two remaining bits (`A`, `Q`, `g` or `w`).
pub open spec fn is_generated_salt(salt: Seq<char>) -> bool {
    &&& salt.len() == 22
    &&& forall|i: int| 0 <= i < salt.len() ==> is_b64_char(#[trigger] salt[i])
    &&& (salt[21] == 'A' || salt[21] == 'Q' || salt[21] == 'g' || salt[21] == 'w')
}

/// The most bytes a password that Argon2 hashes may have.
pub const MAX_PASSWORD_BYTES: u64 = 0xFFFF_FFFF;

/// Whether Argon2 takes `password`: its UTF-8 form has at most
/// `MAX_PASSWORD_BYTES` bytes.
pub open spec fn password_fits(password: Seq<char>) -> bool {
    encode_utf8(password).len() <= MAX_PASSWORD_BYTES
}

/// The PHC string that Argon2id (version 19, default parameters) makes of
/// `password` with the B64 salt `salt`, or `None` where the hasher refuses them.
pub uninterp spec fn argon2id_phc(password: Seq<char>, salt: Seq<char>) -> Option<Seq<char>>;

/// Whether the PHC string `phc` names Argon2id version 19 with the default
/// parameters and embeds `salt`: `$argon2id$v=19$m=19456,t=2,p=1$<salt>$<hash>`.
pub open spec fn phc_embeds_salt(phc: Seq<char>, salt: Seq<char>) -> bool {
    ("$argon2id$v=19$m=19456,t=2,p=1$"@ + salt + "$"@).is_prefix_of(phc)
}

/// Whether `phc` is a hash of `password` that the service can have made: the
/// Argon2id PHC string of `password` with some generated salt.
pub open spec fn hashes_to(password: Seq<char>, phc: Seq<char>) -> bool {
    exists|salt: Seq<char>|
        is_generated_salt(salt) && #[trigger] argon2id_phc(password, salt) == Some(phc)
            && phc_embeds_salt(phc, salt)
}

/// A fresh salt: `SaltString::generate` over the operating system's random
/// source. Its 16 random bytes come out as 22 B64 characters; which ones is
/// chance and not stated.
#[verifier::external_body]
fn generate_salt() -> (salt: String)
    ensures
        is_generated_salt(salt@),
{
    SaltString::generate(&mut OsRng).as_str().to_string()
}

/// `Argon2::default().hash_password`: hashes `password` with the B64 salt
/// `salt` and renders the PHC string. The result is named `argon2id_phc`; on
/// success the string starts with the algorithm, version and parameters,
/// then the salt. With a generated salt the hasher's only refusal is a
/// password of more than `MAX_PASSWORD_BYTES` bytes. The hasher's error
/// message is not stated.
#[verifier::external_body]
fn argon2_hash_password(password: &str, salt: &str) -> (res: Result<String, String>)
    ensures
        match res {
            Ok(h) => argon2id_phc(password@, salt@) == Some(h@),
            Err(_) => argon2id_phc(password@, salt@) is None,
        },
        res matches Ok(h) ==> phc_embeds_salt(h@, salt@),
        is_generated_salt(salt@) && password_fits(password@) ==> res is Ok,
{
    let salt = match Salt::from_b64(salt) {
        Ok(salt) => salt,
        Err(e) => return Err(e.to_string()),
    };
    match Argon2::default().hash_password(password.as_bytes(), salt) {
        Ok(h) => Ok(h.to_string()),
        Err(e) => Err(e.to_string()),
    }
}

/// Hashes a password for storage: Argon2id with default parameters and a
/// fresh random salt, rendered as a PHC string (`$argon2id$v=19$...`).
pub fn hash_password_str(password: &str) -> (res: Result<String, ModelError>)
    ensures
        match res {
            Ok(h) => hashes_to(password@, h@),
            Err(e) => e is HashFailed && exists|salt: Seq<char>|
                is_generated_salt(salt) && #[trigger] argon2id_phc(password@, salt) is None,
        },
        password_fits(password@) ==> res is Ok,
{
    let salt = generate_salt();
    match argon2_hash_password(password, salt.as_str()) {
        Ok(h) => {
            assert(is_generated_salt(salt@) && argon2id_phc(password@, salt@) == Some(h@)
                && phc_embeds_salt(h@, salt@));
            Ok(h)
        },
        Err(m) => {
            assert(is_generated_salt(salt@) && argon2id_phc(password@, salt@) is None);
            Err(ModelError::HashFailed(m))
        },
    }
}

/// Hashes an optional password: nothing stays nothing, a password is hashed as
/// `hash_password_str` does.
pub fn hash_option_password(password: &Option<String>) -> (res: Result<Option<String>, ModelError>)
    ensures
        match password {
            None => res matches Ok(None),
            Some(p) => match res {
                Ok(Some(h)) => hashes_to(p@, h@),
                Ok(None) => false,
                Err(e) => e is HashFailed && exists|salt: Seq<char>|
                    is_generated_salt(salt) && #[trigger] argon2id_phc(p@, salt) is None,
            },
        },
        password matches Some(p) && password_fits(p@) ==> res matches Ok(Some(_)),
{
    match password {
        None => Ok(None),
        Some(p) => match hash_password_str(p.as_str()) {
            Ok(h) => Ok(Some(h)),
            Err(e) => Err(e),
        },
    }
}

/// A string field comes back whole, whatever its length: where the last of
/// `results` is an object whose field `field` is the JSON string `s`, the
/// extraction is `Ok` with exactly the characters of `s`; and where the
/// extraction is `Ok`, its text is the string that field holds.
pub proof fn lemma_extracted_text_is_whole(results: Seq<JsonValue>, field: Seq<char>, res: Result<String, ModelError>)
    requires
        extracted_field(results, field, res),
    ensures
        results.len() > 0 ==> (results.last().spec_get(field) matches Some(JsonValue::String(s))
            ==> (res matches Ok(r) && r@ == s@ && r@.len() == s@.len())),
        res matches Ok(r) ==> (results.len() > 0 && (results.last().spec_get(field) matches Some(
            JsonValue::String(s),
        ) && s@ == r@)),
{
}

/// Extracting a field reads the last result only: the results before it make
/// no difference.
pub proof fn lemma_extract_reads_last(earlier: Seq<JsonValue>, last: JsonValue, field: Seq<char>, res: Result<String, ModelError>)
    ensures
        extracted_field(earlier.push(last), field, res) == extracted_field(seq![last], field, res),
{
    assert(earlier.push(last).last() == last);
    assert(seq![last].last() == last);
}

} // verus!
