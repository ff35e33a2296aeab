//! The durable session state: the endpoint and, once one is held, the
//! cached token. The embedding program reads and writes the file; the
//! library gives the value its JSON form and reads it back.

use vstd::prelude::*;
use vstd::string::StringExecFns;
use crate::model::Token;
use crate::client::token_view;
use crate::codec::quote;
use crate::codec::quoted;
use crate::codec::encode_token;
use crate::codec::spec_encode_token;
use crate::json::Jv;
use crate::json::spec_parse_json;
use crate::json::parse_json;
use crate::decode::jv_obj_str;
use crate::decode::jv_obj_get;
use crate::decode::get_str;
use crate::decode::get_val;

verus! {

/// Durable session state: the endpoint URL and an optional cached token.
pub struct Config {
    pub token: Option<Token>,
    pub endpoint: String,
}

impl Config {
    /// A fresh config for `endpoint`, with no token cached.
    pub fn new(endpoint: String) -> (r: Config)
        ensures
            r.endpoint@ == endpoint@,
            r.token is None,
    {
        Config { token: None, endpoint }
    }

    /// Whether a token is cached.
    pub fn has_token(&self) -> (r: bool)
        ensures
            r == (self.token is Some),
    {
        self.token.is_some()
    }

    /// Caches exactly the given token, whatever was cached before; the
    /// endpoint is untouched.
    pub fn set_token(&mut self, t: &Token)
        ensures
            token_view(final(self).token) == Some(t@),
            final(self).endpoint == old(self).endpoint,
    {
        self.token = Some(t.clone());
    }
}

/// Where the config file lives: the override when one is given, else the
/// fixed name in the working directory.
pub fn config_path(over: Option<String>) -> (r: String)
    ensures
        match over {
            Some(p) => r@ == p@,
            None => r@ == ".apollo"@,
        },
{
    match over {
        Some(p) => p,
        None => String::from_str(".apollo"),
    }
}

/// The config file's shape: `{"token":…,"endpoint":…}`, the token written
/// as the service writes it or `null` when none is cached.
pub open spec fn spec_encode_config(token: Option<Seq<char>>, endpoint: Seq<char>) -> Seq<char> {
    "{\"token\":"@ + (match token {
        Some(t) => spec_encode_token(t),
        None => "null"@,
    }) + ",\"endpoint\":"@ + quoted(endpoint) + "}"@
}

/// Writes the config file body.
pub fn encode_config(c: &Config) -> (r: String)
    ensures
        r@ == spec_encode_config(token_view(c.token), c.endpoint@),
{
    let mut out = String::from_str("{\"token\":");
    match &c.token {
        Some(t) => {
            let b = encode_token(t);
            out.append(b.as_str());
        },
        None => {
            out.append("null");
        },
    }
    out.append(",\"endpoint\":");
    let q = quote(c.endpoint.as_str());
    out.append(q.as_str());
    out.append("}");
    proof {
        assert(out@ =~= spec_encode_config(token_view(c.token), c.endpoint@));
    }
    out
}

/// What a config file decodes to: the endpoint string, and the cached
/// token where the `token` member is an object with an `idToken` string
/// (`null` or absent meaning none).
pub open spec fn spec_decode_config(s: Seq<char>) -> Option<(Seq<char>, Option<Seq<char>>)> {
    match spec_parse_json(s) {
        Some(v) => match jv_obj_str(v, "endpoint"@) {
            Some(ep) => match jv_obj_get(v, "token"@) {
                None => Some((ep, None)),
                Some(Jv::Null) => Some((ep, None)),
                Some(w) => match jv_obj_str(w, "idToken"@) {
                    Some(t) => Some((ep, Some(t))),
                    None => None,
                },
            },
            None => None,
        },
        None => None,
    }
}

/// Reads a config file body; `None` exactly when the text does not have
/// the config shape.
pub fn decode_config(s: &str) -> (r: Option<Config>)
    ensures
        match r {
            Some(c) => spec_decode_config(s@) == Some((c.endpoint@, token_view(c.token))),
            None => spec_decode_config(s@) is None,
        },
{
    let v = match parse_json(s) {
        Some(v) => v,
        None => {
            return None;
        },
    };
    let endpoint = match get_str(&v, "endpoint") {
        Some(ep) => ep,
        None => {
            return None;
        },
    };
    match get_val(&v, "token") {
        None => Some(Config { token: None, endpoint }),
        Some(w) => match w {
            crate::json::JsonValue::Null => Some(Config { token: None, endpoint }),
            _ => match get_str(w, "idToken") {
                Some(raw) => Some(Config { token: Some(Token::new(raw)), endpoint }),
                None => None,
            },
        },
    }
}

} // verus!
