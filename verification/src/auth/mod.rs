//! Logging in and out: how a session token is obtained and given up.
//!
//! The library holds no session. A token is a text that the caller keeps
//! and hands to every authenticated call; whether it is still valid is for
//! the exchange to say.

use crate::decode::{field, field_holds, has_field, FromJson};
use crate::json::{parsed, Json};
use crate::params::{attached, ParamSet};
use crate::request::{call, is_call_to, Method, Request, RequestView};
use crate::response::{
    acknowledge, acknowledged, failure, normalize, ApiError, DecodeError, Reply,
};
use vstd::prelude::*;

verus! {

/// The environment variable that holds the account's e-mail address.
pub const EMAIL_ENV_VAR: &'static str = "EMAIL";

/// The environment variable that holds the account's password.
pub const PASS_ENV_VAR: &'static str = "PASS";

/// Where a session is opened.
pub const LOGIN_URL: &'static str = "https://trading-api.kalshi.com/trade-api/v2/login";

/// Where a session is ended.
pub const LOGOUT_URL: &'static str = "https://trading-api.kalshi.com/trade-api/v2/logout";

/// The two values that identify the account.
#[derive(Clone, Debug, PartialEq, Eq)]
pub struct Credentials {
    pub email: String,
    pub password: String,
}

/// How logging in or out can fail.
#[derive(Clone, Debug, PartialEq, Eq)]
pub enum AuthError {
    /// A credential is not configured; the variable named is not set.
    Configuration(&'static str),
    /// The request never completed.
    Transport(String),
    /// The exchange declined; `body` is its text, untouched.
    Rejected { status: u16, body: String },
    /// The exchange reported success, but the body does not hold a token.
    Decode(DecodeError),
}

/// The body of a successful login.
#[derive(Clone, Debug, PartialEq, Eq)]
pub struct LoginResponse {
    pub member_id: String,
    pub token: String,
}

impl FromJson for LoginResponse {
    open spec fn fits(json: Json) -> bool {
        &&& has_field::<String>(json, "member_id"@)
        &&& has_field::<String>(json, "token"@)
    }

    open spec fn read_from(&self, json: Json) -> bool {
        &&& field_holds(self.member_id, json, "member_id"@)
        &&& field_holds(self.token, json, "token"@)
    }

    fn from_json(json: &Json) -> (r: Option<Self>) {
        Some(LoginResponse { member_id: field(json, "member_id")?, token: field(json, "token")? })
    }
}

impl AuthError {
    /// The same failure, as a failure of logging in or out.
    pub open spec fn of(e: ApiError) -> AuthError {
        match e {
            ApiError::Transport(cause) => AuthError::Transport(cause),
            ApiError::Rejected { status, body } => AuthError::Rejected { status, body },
            ApiError::Decode(cause) => AuthError::Decode(cause),
        }
    }

    /// Takes a failure of a call as a failure of logging in or out.
    pub fn from_api(e: ApiError) -> (r: AuthError)
        ensures
            r == AuthError::of(e),
    {
        match e {
            ApiError::Transport(cause) => AuthError::Transport(cause),
            ApiError::Rejected { status, body } => AuthError::Rejected { status, body },
            ApiError::Decode(cause) => AuthError::Decode(cause),
        }
    }
}

impl Credentials {
    /// The credentials found in the environment, given what the two
    /// variables hold. Both are required: a missing e-mail address is
    /// reported first, then a missing password.
    pub fn from_environment(email: Option<String>, password: Option<String>) -> (r: Result<
        Credentials,
        AuthError,
    >)
        ensures
            r == (match (email, password) {
                (Some(email), Some(password)) => Ok(Credentials { email, password }),
                (None, _) => Err(AuthError::Configuration(EMAIL_ENV_VAR)),
                (Some(_), None) => Err(AuthError::Configuration(PASS_ENV_VAR)),
            }),
    {
        match email {
            None => Err(AuthError::Configuration(EMAIL_ENV_VAR)),
            Some(email) => match password {
                None => Err(AuthError::Configuration(PASS_ENV_VAR)),
                Some(password) => Ok(Credentials { email, password }),
            },
        }
    }
}

/// The request that logs in: the credentials as a JSON body, and no token.
pub open spec fn login_call(email: Seq<char>, password: Seq<char>) -> RequestView {
    RequestView {
        method: Method::Post,
        url: LOGIN_URL@,
        bearer: None,
        headers: seq![("accept"@, "application/json"@), ("content-type"@, "application/json"@)],
        query: seq![],
        body: Some(seq![("email"@, email), ("password"@, password)]),
    }
}

/// The request that logs in with `credentials`.
pub fn login_request(credentials: &Credentials) -> (r: Request)
    ensures
        r@ == login_call(credentials.email@, credentials.password@),
{
    let headers = ParamSet::new().required("accept", "application/json").required(
        "content-type",
        "application/json",
    );
    let fields = ParamSet::new().required("email", credentials.email.as_str()).required(
        "password",
        credentials.password.as_str(),
    );
    proof {
        reveal_with_fuel(attached, 3);
        let expected = login_call(credentials.email@, credentials.password@);
        assert(attached(headers@) =~= expected.headers);
        assert(attached(fields@) =~= seq![
            ("email"@, credentials.email@),
            ("password"@, credentials.password@),
        ]);
    }
    let r = Request {
        method: Method::Post,
        url: LOGIN_URL.to_owned(),
        bearer: None,
        headers: headers.into_params(),
        query: Vec::new(),
        body: Some(fields.into_params()),
    };
    assert(r@.query =~= seq![]);
    r
}

/// Whether `r` is the result of logging in that `reply` stands for: the
/// token that the body holds, or the error that the reply stands for.
pub open spec fn logged_in(reply: Reply, r: Result<String, AuthError>) -> bool {
    match r {
        Ok(token) => {
            &&& failure::<LoginResponse>(reply) is None
            &&& reply matches Reply::Answered { body, .. }
            &&& field_holds(token, parsed(body@).unwrap(), "token"@)
        },
        Err(e) => failure::<LoginResponse>(reply) matches Some(cause) && e == AuthError::of(cause),
    }
}

/// The token of the session that a login opened.
pub fn login_response(reply: Reply) -> (r: Result<String, AuthError>)
    ensures
        logged_in(reply, r),
{
    match normalize::<LoginResponse>(reply) {
        Ok(body) => Ok(body.token),
        Err(e) => Err(AuthError::from_api(e)),
    }
}

/// The request that ends the session of `token`.
pub fn logout_request(token: &str) -> (r: Request)
    ensures
        r@ == call(Method::Post, LOGOUT_URL@, Some(token@), seq![], None),
{
    Request::new(Method::Post, LOGOUT_URL.to_owned(), Some(token))
}

/// The result of logging out that `reply` stands for.
pub open spec fn logged_out(reply: Reply) -> Result<(), AuthError> {
    match acknowledged(reply) {
        Ok(done) => Ok(done),
        Err(e) => Err(AuthError::of(e)),
    }
}

/// Whether the session was ended. A failure here need not stop a caller
/// from shutting down: the token expires on the side of the exchange.
pub fn logout_response(reply: Reply) -> (r: Result<(), AuthError>)
    ensures
        r == logged_out(reply),
{
    match acknowledge(reply) {
        Ok(done) => Ok(done),
        Err(e) => Err(AuthError::from_api(e)),
    }
}

/// A token is forwarded, never judged. Whether an authenticated request
/// can be formed depends on its target alone, and a request that is formed
/// carries the token it was given, character by character: for a token
/// that a login handed out as for any other, before a logout and after it.
pub proof fn lemma_token_forwarded(
    r: Result<Request, ApiError>,
    method: Method,
    target: Option<Seq<char>>,
    token: Seq<char>,
)
    requires
        is_call_to(r, method, target, token),
    ensures
        r is Ok <==> target is Some,
        r matches Ok(request) ==> request@.bearer == Some(token),
        forall|
            url: Seq<char>,
            query: Seq<(Seq<char>, Seq<char>)>,
            body: Option<Seq<(Seq<char>, Seq<char>)>>,
        | (#[trigger] call(method, url, Some(token), query, body)).bearer == Some(token),
{
}

} // verus!
