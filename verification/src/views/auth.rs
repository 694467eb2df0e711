//! Logging in.
use crate::sessions::{keys_from_fresh_secret, Claims, SessionManager};
use crate::views::errors::ServerError;
use crate::views::{route, routes_are, Method, RouteInfo};
use vstd::prelude::*;

verus! {

/// Data to log in.
#[derive(Clone, Debug)]
pub struct Credentials {
    pub email: String,
    pub password: String,
}

/// The answer to a successful login.
pub struct LoginResponse {
    /// Signed JSON web token.
    jwt: String,
    /// When the token expires: a UTC time in milliseconds (the claims' `exp`,
    /// which counts seconds, times 1000).
    expires: u64,
}

impl LoginResponse {
    /// The signed token.
    pub closed spec fn spec_jwt(&self) -> Seq<char> {
        self.jwt@
    }

    /// When the token expires.
    pub closed spec fn spec_expires(&self) -> u64 {
        self.expires
    }

    /// The answer for a token `jwt` issued with `claims`: the token, and its
    /// expiry in milliseconds.
    pub fn json_from_jwt_claims(jwt_claims: (String, Claims)) -> (res: LoginResponse)
        requires
            jwt_claims.1.exp * 1000 <= u64::MAX,
        ensures
            res.spec_jwt() == jwt_claims.0@,
            res.spec_expires() == jwt_claims.1.exp * 1000,
    {
        let (jwt, claims) = jwt_claims;
        LoginResponse { jwt, expires: claims.exp * 1000 }
    }

    /// The signed token.
    pub fn jwt(&self) -> (res: &str)
        ensures
            res@ == self.spec_jwt(),
    {
        self.jwt.as_str()
    }

    /// When the token expires, in milliseconds.
    pub fn expires(&self) -> (res: u64)
        ensures
            res == self.spec_expires(),
    {
        self.expires
    }
}

/// What a login answers, given what logging the user in gave: the token and its
/// expiry in milliseconds, or the body "login failed" whatever went wrong.
pub fn login_response(outcome: Result<(String, Claims), String>) -> (res: Result<LoginResponse, ServerError>)
    requires
        outcome matches Ok(jc) ==> jc.1.exp * 1000 <= u64::MAX,
    ensures
        match outcome {
            Ok(jc) => res matches Ok(r) && r.spec_jwt() == jc.0@ && r.spec_expires() == jc.1.exp * 1000,
            Err(_) => res matches Err(e) && e.message() == "login failed"@,
        },
{
    match outcome {
        Ok(jc) => Ok(LoginResponse::json_from_jwt_claims(jc)),
        Err(_) => Err(ServerError::new("login failed")),
    }
}

/// The `SameSite` policy of a cookie.
#[derive(Clone, Copy, PartialEq, Eq, Structural, Debug)]
pub enum SameSite {
    Strict,
    Lax,
    /// Sent with cross-site requests too (`SameSite=None`).
    Unrestricted,
}

/// A cookie to set: its name, its value and its `SameSite` policy.
pub struct CookieSpec {
    pub name: String,
    pub value: String,
    pub same_site: SameSite,
}

/// The cookie set on a successful login: named `jwt`, holding the token, and
/// sent with cross-site requests too (`SameSite=None`).
pub fn jwt_cookie(response: &LoginResponse) -> (res: CookieSpec)
    ensures
        res.name@ == "jwt"@,
        res.value@ == response.spec_jwt(),
        res.same_site == SameSite::Unrestricted,
{
    CookieSpec {
        name: String::from_str("jwt"),
        value: String::from_str(response.jwt()),
        same_site: SameSite::Unrestricted,
    }
}

/// The routes of logging in.
pub open spec fn auth_routes() -> Seq<(Method, Seq<char>, bool, Seq<char>)> {
    seq![(Method::Post, "/login"@, true, "login"@), (Method::Options, "/login"@, false, "login_options"@)]
}

/// The routes of logging in: `POST /login` (JSON credentials) and
/// `OPTIONS /login`.
pub fn routes() -> (res: Vec<RouteInfo>)
    ensures
        routes_are(res@, auth_routes()),
{
    let mut res: Vec<RouteInfo> = Vec::new();
    res.push(route(Method::Post, "/login", true, "login"));
    res.push(route(Method::Options, "/login", false, "login_options"));
    res
}

/// The state that logging in needs: a session manager with fresh keys, both
/// made of one fresh secret.
pub fn state() -> (res: SessionManager)
    ensures
        keys_from_fresh_secret(res.spec_decoding_key(), res.spec_encoding_key()),
{
    SessionManager::init()
}

} // verus!
