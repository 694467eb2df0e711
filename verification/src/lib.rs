//! Verified core of a small file-sharing web service: sessions and JSON web
//! tokens, password hashing, content identifiers, error bodies and routing
//! tables. The web server itself is wired up around this library.
pub mod cli;
pub mod json;
pub mod logging;
pub mod models;
pub mod sessions;
pub mod text;
pub mod views;

use vstd::prelude::*;

verus! {

/// Adds CORS headers to every response.
pub struct CORS;

/// The headers that `CORS` sets on every response, in order.
pub open spec fn cors_headers() -> Seq<(Seq<char>, Seq<char>)> {
    seq![
        ("Access-Control-Allow-Origin"@, "*"@),
        ("Access-Control-Allow-Methods"@, "POST, GET, PATCH, OPTIONS"@),
        ("Access-Control-Allow-Headers"@, "*"@),
        ("Access-Control-Allow-Credentials"@, "true"@),
    ]
}

fn header(name: &str, value: &str) -> (res: (String, String))
    ensures
        res.0@ == name@,
        res.1@ == value@,
{
    (String::from_str(name), String::from_str(value))
}

impl CORS {
    /// The name under which the fairing is registered.
    pub fn name() -> (res: &'static str)
        ensures
            res@ == "Add CORS headers to responses"@,
    {
        "Add CORS headers to responses"
    }

    /// The headers set on every response: any origin, the methods `POST`,
    /// `GET`, `PATCH` and `OPTIONS`, any headers, and credentials.
    pub fn headers() -> (res: Vec<(String, String)>)
        ensures
            res@.len() == cors_headers().len(),
            forall|i: int|
                0 <= i < res@.len() ==> (#[trigger] res@[i]).0@ == cors_headers()[i].0
                    && res@[i].1@ == cors_headers()[i].1,
    {
        let mut res: Vec<(String, String)> = Vec::new();
        res.push(header("Access-Control-Allow-Origin", "*"));
        res.push(header("Access-Control-Allow-Methods", "POST, GET, PATCH, OPTIONS"));
        res.push(header("Access-Control-Allow-Headers", "*"));
        res.push(header("Access-Control-Allow-Credentials", "true"));
        res
    }
}

} // verus!
