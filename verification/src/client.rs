//! The client: base URL, client-identifier string and session token, the
//! requests it sends and how it reads the answers. The embedding program
//! does the transport and hands back the status and the body.

use vstd::prelude::*;
use vstd::string::StringExecFns;
use crate::url::Url;
use crate::url::resolve;
use crate::url::spec_render_parts;
use crate::model::Token;
use crate::model::Credentials;
use crate::model::ForDashboard;
use crate::model::InfoRes;
use crate::codec::encode_credentials;
use crate::codec::spec_encode_credentials;
use crate::codec::decode_token;
use crate::codec::spec_decode_token;
use crate::decode::decode_for_dashboard;
use crate::decode::dashboard_shape;
use crate::decode::dashboard_matches;
use crate::decode::decode_info;
use crate::decode::info_shape;
use crate::decode::info_matches;

verus! {

/// Why an authentication call failed.
#[derive(Debug, PartialEq, Eq, Structural, Clone, Copy)]
pub enum AuthError {
    /// The transport failed; the embedding program maps its errors here.
    Network,
    /// The service answered outside the success range.
    Rejected,
    /// The body was not a token.
    Decode,
}

/// Why a data fetch failed.
#[derive(Debug, PartialEq, Eq, Structural, Clone, Copy)]
pub enum ApiError {
    /// The transport failed; the embedding program maps its errors here.
    Network,
    /// The service answered outside the success range.
    Rejected,
    /// The body did not have the expected shape.
    Decode,
}

/// A success status on the wire.
pub open spec fn status_ok(status: u16) -> bool {
    200 <= status < 300
}

/// The client: one base URL, a fixed client-identifier string, and the
/// session token once one is held.
pub struct Hermes {
    pub user_agent: String,
    pub token: Option<Token>,
    pub base_url: Url,
}

/// The token field as contracts speak of it.
pub open spec fn token_view(t: Option<Token>) -> Option<Seq<char>> {
    match t {
        Some(x) => Some(x@),
        None => None,
    }
}

impl Hermes {
    /// A client bound to `base_url`, with no token yet and the fixed
    /// client-identifier string.
    pub fn new(base_url: Url) -> (r: Hermes)
        ensures
            r.base_url == base_url,
            r.token is None,
            r.user_agent@ == "hermes/0.1.0"@,
    {
        Hermes { user_agent: String::from_str("hermes/0.1.0"), token: None, base_url }
    }

    /// The client with the given token held, everything else kept.
    pub fn token(self, token: Token) -> (r: Self)
        ensures
            token_view(r.token) == Some(token@),
            r.base_url == self.base_url,
            r.user_agent == self.user_agent,
    {
        Hermes { token: Some(token), ..self }
    }

    /// Overwrites the stored token. Afterwards the client holds exactly the
    /// given value, whatever it held before; base URL and client-identifier
    /// are untouched.
    pub fn set_token(&mut self, token: &Token)
        ensures
            token_view(final(self).token) == Some(token@),
            final(self).base_url == old(self).base_url,
            final(self).user_agent == old(self).user_agent,
    {
        self.token = Some(token.clone());
    }

    /// The client with another client-identifier string.
    pub fn with_agent(self, user_agent: String) -> (r: Self)
        ensures
            r.user_agent == user_agent,
            r.base_url == self.base_url,
            r.token == self.token,
    {
        Hermes { user_agent, ..self }
    }

    /// The endpoint for `path`: the base URL with only its path replaced.
    pub fn api(&self, path: &str) -> (r: Url)
        ensures
            r.scheme@ == self.base_url.scheme@,
            r.host@ == self.base_url.host@,
            r.port@ == self.base_url.port@,
            r.query@ == self.base_url.query@,
            r.path@ == path@,
    {
        resolve(&self.base_url, path)
    }

    /// The URL rendered for `path`, as the transport takes it.
    pub open spec fn spec_api_url(&self, path: Seq<char>) -> Seq<char> {
        spec_render_parts(
            self.base_url.scheme@,
            self.base_url.host@,
            self.base_url.port@,
            path,
            self.base_url.query@,
        )
    }

    /// The bearer string attached to data fetches: the token held, or empty
    /// when none is.
    pub open spec fn spec_bearer(&self) -> Seq<char> {
        match self.token {
            Some(t) => t@,
            None => Seq::empty(),
        }
    }

    fn bearer(&self) -> (r: String)
        ensures
            r@ == self.spec_bearer(),
    {
        match &self.token {
            Some(t) => String::from_str(t.raw()),
            None => String::new(),
        }
    }

    /// The authentication request: the URL to POST to and the JSON body.
    pub fn login_request(&self, login: &Credentials) -> (r: (String, String))
        ensures
            r.0@ == self.spec_api_url("api/authenticate"@),
            r.1@ == spec_encode_credentials(login.username@, login.password@, login.remember_me),
    {
        (self.api("api/authenticate").render(), encode_credentials(login))
    }

    /// Reads the answer to an authentication request. On a success status
    /// with a body carrying a non-empty token, the token is stored and
    /// returned — a token is never empty after a successful authentication.
    /// Any other status is `Rejected`; a bad body or an empty token is
    /// `Decode`; on every error the client is left exactly as it was.
    pub fn login_accept(&mut self, status: u16, body: &str) -> (r: Result<Token, AuthError>)
        ensures
            r is Ok <==> status_ok(status) && (spec_decode_token(body@) matches Some(t) && t.len()
                > 0),
            r matches Ok(t) ==> {
                &&& Some(t@) == spec_decode_token(body@)
                &&& t@.len() > 0
                &&& token_view(final(self).token) == Some(t@)
                &&& final(self).base_url == old(self).base_url
                &&& final(self).user_agent == old(self).user_agent
            },
            r is Err ==> *final(self) == *old(self),
            !status_ok(status) ==> r == Err::<Token, AuthError>(AuthError::Rejected),
            status_ok(status) && !(spec_decode_token(body@) matches Some(t) && t.len() > 0) ==> r
                == Err::<Token, AuthError>(AuthError::Decode),
    {
        if !(200 <= status && status < 300) {
            return Err(AuthError::Rejected);
        }
        match decode_token(body) {
            Some(t) => {
                if t.raw().is_empty() {
                    return Err(AuthError::Decode);
                }
                let out = t.clone();
                self.token = Some(t);
                Ok(out)
            },
            None => Err(AuthError::Decode),
        }
    }

    /// The dashboard request: the URL to GET and the bearer string.
    pub fn dashboard_request(&self) -> (r: (String, String))
        ensures
            r.0@ == self.spec_api_url("api/courses/for-dashboard"@),
            r.1@ == self.spec_bearer(),
    {
        (self.api("api/courses/for-dashboard").render(), self.bearer())
    }

    /// The server-info request: the URL to GET and the bearer string.
    pub fn info_request(&self) -> (r: (String, String))
        ensures
            r.0@ == self.spec_api_url("management/info"@),
            r.1@ == self.spec_bearer(),
    {
        (self.api("management/info").render(), self.bearer())
    }

    /// Reads the answer to a dashboard request. Fetches never change the
    /// client, so this takes none. A success status with a well-shaped
    /// body gives the projects, field for field; any other status is
    /// `Rejected`, a bad body `Decode`.
    pub fn accept_for_dashboard(status: u16, body: &str) -> (r: Result<ForDashboard, ApiError>)
        ensures
            r is Ok <==> status_ok(status) && dashboard_shape(body@),
            r matches Ok(fd) ==> dashboard_matches(fd, body@),
            !status_ok(status) ==> r == Err::<ForDashboard, ApiError>(ApiError::Rejected),
            status_ok(status) && !dashboard_shape(body@) ==> r == Err::<
                ForDashboard,
                ApiError,
            >(ApiError::Decode),
    {
        if !(200 <= status && status < 300) {
            return Err(ApiError::Rejected);
        }
        match decode_for_dashboard(body) {
            Some(fd) => Ok(fd),
            None => Err(ApiError::Decode),
        }
    }

    /// Reads the answer to a server-info request, as `accept_for_dashboard`
    /// does for the dashboard.
    pub fn accept_info(status: u16, body: &str) -> (r: Result<InfoRes, ApiError>)
        ensures
            r is Ok <==> status_ok(status) && info_shape(body@),
            r matches Ok(x) ==> info_matches(x, body@),
            !status_ok(status) ==> r == Err::<InfoRes, ApiError>(ApiError::Rejected),
            status_ok(status) && !info_shape(body@) ==> r == Err::<InfoRes, ApiError>(
                ApiError::Decode,
            ),
    {
        if !(200 <= status && status < 300) {
            return Err(ApiError::Rejected);
        }
        match decode_info(body) {
            Some(x) => Ok(x),
            None => Err(ApiError::Decode),
        }
    }
}

} // verus!
