//! Error bodies that the service answers with.
use vstd::prelude::*;

verus! {

/// A generic error body: `{"error": "..."}`.
pub struct ServerError {
    error: String,
}

impl ServerError {
    /// The message carried by this error body.
    pub closed spec fn message(&self) -> Seq<char> {
        self.error@
    }

    /// Builds an error body whose message is `error`.
    pub fn new(error: &str) -> (res: ServerError)
        ensures
            res.message() == error@,
    {
        ServerError { error: String::from_str(error) }
    }

    /// The message of this error body.
    pub fn error(&self) -> (res: &str)
        ensures
            res@ == self.message(),
    {
        self.error.as_str()
    }
}

/// Answer to an internal server error (status 500).
pub fn internal_error() -> (res: ServerError)
    ensures
        res.message() == "internal server error"@,
{
    ServerError::new("internal server error")
}

/// Answer to a missing resource (status 404).
pub fn not_found() -> (res: ServerError)
    ensures
        res.message() == "not found"@,
{
    ServerError::new("not found")
}

/// Answer to a forbidden request (status 403).
pub fn unauthorized() -> (res: ServerError)
    ensures
        res.message() == "unauthorized"@,
{
    ServerError::new("unauthorized")
}

/// Answer to any other error status, naming the requested URI.
pub fn default(uri: &str) -> (res: ServerError)
    ensures
        res.message() == "error in "@ + uri@,
{
    ServerError { error: String::from_str("error in ").concat(uri) }
}

/// The error catchers of the service.
#[derive(Clone, Copy, PartialEq, Eq, Structural, Debug)]
pub enum Catcher {
    InternalError,
    NotFound,
    Unauthorized,
    Default,
}

/// A registered catcher: the base path it serves, the status it catches
/// (`None`: every status without a catcher of its own), and which it is.
pub struct CatcherInfo {
    pub base: String,
    pub code: Option<u16>,
    pub catcher: Catcher,
}

/// The catchers that `register_catchers` registers, in order: base path,
/// status and catcher.
pub open spec fn registered_catchers() -> Seq<(Seq<char>, Option<u16>, Catcher)> {
    seq![
        ("/"@, Some(500u16), Catcher::InternalError),
        ("/"@, Some(404u16), Catcher::NotFound),
        ("/"@, Some(403u16), Catcher::Unauthorized),
        ("/"@, None, Catcher::Default),
    ]
}

/// Whether `infos` lists exactly `expected`, in order.
pub open spec fn catchers_are(infos: Seq<CatcherInfo>, expected: Seq<(Seq<char>, Option<u16>, Catcher)>) -> bool {
    &&& infos.len() == expected.len()
    &&& forall|i: int|
        0 <= i < infos.len() ==> (#[trigger] infos[i]).base@ == expected[i].0 && infos[i].code
            == expected[i].1 && infos[i].catcher == expected[i].2
}

fn catcher_info(code: Option<u16>, catcher: Catcher) -> (res: CatcherInfo)
    ensures
        res.base@ == "/"@,
        res.code == code,
        res.catcher == catcher,
{
    CatcherInfo { base: String::from_str("/"), code, catcher }
}

/// Registers the error catchers at `/`: internal error (500), not found (404),
/// unauthorized (403), and a default for every other status.
pub fn register_catchers() -> (res: Vec<CatcherInfo>)
    ensures
        catchers_are(res@, registered_catchers()),
{
    let mut res: Vec<CatcherInfo> = Vec::new();
    res.push(catcher_info(Some(500), Catcher::InternalError));
    res.push(catcher_info(Some(404), Catcher::NotFound));
    res.push(catcher_info(Some(403), Catcher::Unauthorized));
    res.push(catcher_info(None, Catcher::Default));
    res
}

/// The catcher that answers an error `status`: the registered one for that
/// status, else the default.
pub open spec fn catcher_for(status: u16) -> Catcher {
    if status == 500 {
        Catcher::InternalError
    } else if status == 404 {
        Catcher::NotFound
    } else if status == 403 {
        Catcher::Unauthorized
    } else {
        Catcher::Default
    }
}

/// The body that a catcher answers for a request to `uri`.
pub open spec fn catcher_message(catcher: Catcher, uri: Seq<char>) -> Seq<char> {
    match catcher {
        Catcher::InternalError => "internal server error"@,
        Catcher::NotFound => "not found"@,
        Catcher::Unauthorized => "unauthorized"@,
        Catcher::Default => "error in "@ + uri,
    }
}

/// The catcher that answers an error `status`.
pub fn catcher_for_status(status: u16) -> (res: Catcher)
    ensures
        res == catcher_for(status),
{
    if status == 500 {
        Catcher::InternalError
    } else if status == 404 {
        Catcher::NotFound
    } else if status == 403 {
        Catcher::Unauthorized
    } else {
        Catcher::Default
    }
}

impl Catcher {
    /// The body this catcher answers for a request to `uri`.
    pub fn respond(&self, uri: &str) -> (res: ServerError)
        ensures
            res.message() == catcher_message(*self, uri@),
    {
        match self {
            Catcher::InternalError => internal_error(),
            Catcher::NotFound => not_found(),
            Catcher::Unauthorized => unauthorized(),
            Catcher::Default => default(uri),
        }
    }
}

/// The body with which the service answers an error `status` on a request to
/// `uri`.
pub fn catch(status: u16, uri: &str) -> (res: ServerError)
    ensures
        res.message() == catcher_message(catcher_for(status), uri@),
{
    catcher_for_status(status).respond(uri)
}

/// Every error status that a registered catcher names is answered by that
/// catcher; every other status by the default catcher.
pub proof fn lemma_catchers_answer(status: u16)
    ensures
        forall|i: int|
            0 <= i < registered_catchers().len() && (#[trigger] registered_catchers()[i]).1 == Some(
                status,
            ) ==> catcher_for(status) == registered_catchers()[i].2,
        (forall|i: int|
            0 <= i < registered_catchers().len() ==> (#[trigger] registered_catchers()[i]).1
                != Some(status)) ==> catcher_for(status) == Catcher::Default,
{
    let r = registered_catchers();
    assert(r[0].1 == Some(500u16) && r[0].2 == Catcher::InternalError);
    assert(r[1].1 == Some(404u16) && r[1].2 == Catcher::NotFound);
    assert(r[2].1 == Some(403u16) && r[2].2 == Catcher::Unauthorized);
    assert(r[3].1 is None && r[3].2 == Catcher::Default);
}

} // verus!
