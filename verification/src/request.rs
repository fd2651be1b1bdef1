//! Requests: what is sent where, with which token, parameters and body.

use crate::params::{attach, attached, owned, pairs, text, Param, ParamSet};
use crate::response::ApiError;
use vstd::prelude::*;

verus! {

/// The HTTP verb of a request.
#[derive(Clone, Copy, Debug, PartialEq, Eq)]
pub enum Method {
    Get,
    Post,
    Delete,
}

/// One request, ready for the transport to send.
#[derive(Clone, Debug, PartialEq, Eq)]
pub struct Request {
    pub method: Method,
    /// The fully qualified target, without the query string.
    pub url: String,
    /// The token to send as bearer authentication, if any.
    pub bearer: Option<String>,
    pub headers: Vec<Param>,
    /// The query parameters to attach to the target.
    pub query: Vec<Param>,
    /// The fields of the JSON object to send as body, if any. Every value
    /// is sent as a JSON string.
    pub body: Option<Vec<Param>>,
}

/// What a [`Request`] says, as plain sequences.
pub struct RequestView {
    pub method: Method,
    pub url: Seq<char>,
    pub bearer: Option<Seq<char>>,
    pub headers: Seq<(Seq<char>, Seq<char>)>,
    pub query: Seq<(Seq<char>, Seq<char>)>,
    pub body: Option<Seq<(Seq<char>, Seq<char>)>>,
}

impl View for Request {
    type V = RequestView;

    open spec fn view(&self) -> RequestView {
        RequestView {
            method: self.method,
            url: self.url@,
            bearer: match self.bearer {
                Some(token) => Some(token@),
                None => None,
            },
            headers: pairs(self.headers@),
            query: pairs(self.query@),
            body: match self.body {
                Some(fields) => Some(pairs(fields@)),
                None => None,
            },
        }
    }
}

/// The content type that every call but login declares.
pub const JSON_UTF8: &'static str = "application/json; charset=utf-8";

/// The cause reported for a request whose target cannot be formed.
pub const INVALID_TARGET: &'static str = "the request target is not a valid URL";

/// The headers of every call but login.
pub open spec fn call_headers() -> Seq<(Seq<char>, Seq<char>)> {
    seq![("content-type"@, JSON_UTF8@)]
}

/// A call of `method` to `url` with the given credentials, query and body.
pub open spec fn call(
    method: Method,
    url: Seq<char>,
    bearer: Option<Seq<char>>,
    query: Seq<(Seq<char>, Seq<char>)>,
    body: Option<Seq<(Seq<char>, Seq<char>)>>,
) -> RequestView {
    RequestView { method, url, bearer, headers: call_headers(), query, body }
}

/// The serialization of the URL that `segment` resolves to against the
/// absolute URL `base`, by the rules for joining URLs; `None` where `base`
/// is no absolute URL or `segment` does not resolve against it.
pub uninterp spec fn joined(base: Seq<char>, segment: Seq<char>) -> Option<Seq<char>>;

/// Parses `base` with `reqwest::Url::parse`, resolves `segment` against it
/// with `Url::join` and hands back the serialization of the outcome. The
/// contract claims only that the outcome is a function of the two texts.
#[verifier::external_body]
fn join(base: &str, segment: &str) -> (r: Option<String>)
    ensures
        match r {
            Some(url) => joined(base@, segment@) == Some(url@),
            None => joined(base@, segment@) is None,
        },
{
    match reqwest::Url::parse(base) {
        Ok(parsed) => match parsed.join(segment) {
            Ok(url) => Some(String::from(url)),
            Err(_) => None,
        },
        Err(_) => None,
    }
}

/// Whether `r` is the authenticated call of `method` to `target`, or the
/// failure to form a target where there is none.
pub open spec fn is_call_to(
    r: Result<Request, ApiError>,
    method: Method,
    target: Option<Seq<char>>,
    token: Seq<char>,
) -> bool {
    match target {
        Some(url) => r matches Ok(request) && request@ == call(
            method,
            url,
            Some(token),
            seq![],
            None,
        ),
        None => r matches Err(ApiError::Transport(cause)) && cause@ == INVALID_TARGET@,
    }
}

impl Request {
    /// A call of `method` to `url`, authenticated by `bearer` if there is
    /// one, without query or body.
    pub fn new(method: Method, url: String, bearer: Option<&str>) -> (r: Request)
        ensures
            r@ == call(method, url@, text(bearer), seq![], None),
    {
        let mut headers: Vec<Param> = Vec::new();
        attach(&mut headers, "content-type", JSON_UTF8.to_owned());
        let bearer = match bearer {
            Some(token) => Some(token.to_owned()),
            None => None,
        };
        let r = Request { method, url, bearer, headers, query: Vec::new(), body: None };
        assert(r@.query =~= seq![]);
        r
    }

    /// An authenticated call of `method` to `target`, where a target could
    /// be formed.
    pub fn addressed(method: Method, target: Option<String>, token: &str) -> (r: Result<
        Request,
        ApiError,
    >)
        ensures
            is_call_to(r, method, owned(target), token@),
    {
        match target {
            Some(url) => Ok(Request::new(method, url, Some(token))),
            None => Err(ApiError::Transport(INVALID_TARGET.to_owned())),
        }
    }

    /// An authenticated call of `method` to the resource `segment` under
    /// `base`. The segment is joined to the base as it is given, and the
    /// token is sent as it is given.
    pub fn for_resource(method: Method, base: &str, segment: &str, token: &str) -> (r: Result<
        Request,
        ApiError,
    >)
        ensures
            is_call_to(r, method, joined(base@, segment@), token@),
    {
        Request::addressed(method, join(base, segment), token)
    }

    /// The same request with `query` as its query parameters.
    pub fn with_query(self, query: ParamSet) -> (r: Request)
        ensures
            r@ == (RequestView { query: attached(query@), ..self@ }),
    {
        let mut r = self;
        r.query = query.into_params();
        r
    }

    /// The same request with `fields` as the fields of its body.
    pub fn with_body(self, fields: ParamSet) -> (r: Request)
        ensures
            r@ == (RequestView { body: Some(attached(fields@)), ..self@ }),
    {
        let mut r = self;
        r.body = Some(fields.into_params());
        r
    }
}

} // verus!
