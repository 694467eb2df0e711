//! The GraphQL schema's roots and routes.
use crate::views::{route, routes_are, Method, RouteInfo};
use vstd::prelude::*;

verus! {

/// Root query.
pub struct Query;

/// Root mutation.
pub struct Mutation;

/// Root subscription.
pub struct Subscription;

impl Query {
    /// The root query.
    pub fn init() -> Query {
        Query
    }

    /// The version of the API.
    pub fn api_version() -> (res: &'static str)
        ensures
            res@ == "1.0"@,
    {
        "1.0"
    }
}

impl Mutation {
    /// The root mutation.
    pub fn init() -> Mutation {
        Mutation
    }

    /// The `user` mutation, which has no effect yet.
    pub fn user() -> (res: &'static str)
        ensures
            res@ == "todo"@,
    {
        "todo"
    }
}

impl Subscription {
    /// The root subscription.
    pub fn init() -> Subscription {
        Subscription
    }

    /// The messages that the `updates` subscription streams, in order.
    pub fn updates(&self) -> (res: Vec<String>)
        ensures
            res@.len() == 2,
            res@[0]@ == "Hello"@,
            res@[1]@ == "World!"@,
    {
        let mut res: Vec<String> = Vec::new();
        res.push(String::from_str("Hello"));
        res.push(String::from_str("World!"));
        res
    }
}

/// The routes of GraphQL.
pub open spec fn graphql_routes() -> Seq<(Method, Seq<char>, bool, Seq<char>)> {
    seq![
        (Method::Get, "/graphql?<request>"@, true, "get_graphql_handler"@),
        (Method::Post, "/graphql"@, true, "post_graphql_handler"@),
        (Method::Options, "/graphql"@, false, "graphql_options"@),
    ]
}

/// All routes associated with GraphQL: `GET /graphql?<request>` and
/// `POST /graphql` (JSON), and `OPTIONS /graphql`.
pub fn routes() -> (res: Vec<RouteInfo>)
    ensures
        routes_are(res@, graphql_routes()),
{
    let mut res: Vec<RouteInfo> = Vec::new();
    res.push(route(Method::Get, "/graphql?<request>", true, "get_graphql_handler"));
    res.push(route(Method::Post, "/graphql", true, "post_graphql_handler"));
    res.push(route(Method::Options, "/graphql", false, "graphql_options"));
    res
}

} // verus!
