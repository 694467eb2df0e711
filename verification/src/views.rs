//! The service's HTTP views: what each endpoint answers and where it is mounted.
pub mod auth;
pub mod errors;
pub mod files;
pub mod graphql;

use vstd::prelude::*;

verus! {

/// An HTTP method that the service routes.
#[derive(Clone, Copy, PartialEq, Eq, Structural, Debug)]
pub enum Method {
    Get,
    Post,
    Options,
}

/// A route: its method, its URI pattern, whether it takes JSON, and the name of
/// the handler that serves it.
pub struct RouteInfo {
    pub method: Method,
    pub uri: String,
    pub json: bool,
    pub handler: String,
}

/// Whether `routes` lists exactly `expected` (method, URI pattern, JSON,
/// handler), in order.
pub open spec fn routes_are(routes: Seq<RouteInfo>, expected: Seq<(Method, Seq<char>, bool, Seq<char>)>) -> bool {
    &&& routes.len() == expected.len()
    &&& forall|i: int|
        0 <= i < routes.len() ==> (#[trigger] routes[i]).method == expected[i].0 && routes[i].uri@
            == expected[i].1 && routes[i].json == expected[i].2 && routes[i].handler@
            == expected[i].3
}

/// A route entry.
pub fn route(method: Method, uri: &str, json: bool, handler: &str) -> (res: RouteInfo)
    ensures
        res.method == method,
        res.uri@ == uri@,
        res.json == json,
        res.handler@ == handler@,
{
    RouteInfo { method, uri: String::from_str(uri), json, handler: String::from_str(handler) }
}

/// The path under which the authentication and GraphQL routes are mounted.
pub fn api_base() -> (res: &'static str)
    ensures
        res@ == "/v0/api/"@,
{
    "/v0/api/"
}

} // verus!
