//! Asking the server for API tokens and checking the ones stored.
use vstd::prelude::*;
use crate::config::{
    Config, ConfigView, enterprise_missing, field, host_and_port_spec, server_missing, user_missing,
};
use crate::errors::{DeliveryError, DeliveryResult, Kind, fails_with, missing, opt_view};
use crate::http::{APIClient, pretty_of, token_expired};
use crate::json::{json_pair, pair_object};
use crate::text::{contains, owned};

verus! {

/// The credentials sent to get a token.
#[derive(Debug, Clone)]
pub struct TokenRequest {
    username: String,
    password: String,
}

/// The server's answer to a token request.
#[derive(Debug, Clone)]
pub struct TokenResponse {
    token: String,
}

impl TokenRequest {
    /// The JSON payload that asks for a token.
    pub fn payload(user: &str, pass: &str) -> (r: DeliveryResult<String>)
        ensures
            r matches Ok(x) && x@ == json_pair("username"@, user@, "password"@, pass@),
    {
        pair_object("username", user, "password", pass)
    }
}

impl TokenResponse {
    /// A response holding a token.
    pub fn new(token: &str) -> (r: TokenResponse)
        ensures
            r.token_view() == token@,
    {
        TokenResponse { token: owned(token) }
    }

    /// The token given.
    pub closed spec fn token_view(&self) -> Seq<char> {
        self.token@
    }

    /// The token given.
    pub fn token(&self) -> (r: String)
        ensures
            r@ == self.token_view(),
    {
        self.token.clone()
    }

    /// Whether a server reply says the token has expired.
    pub fn parse_token_expired(content: &str) -> (r: bool)
        ensures
            r == token_expired(content@),
    {
        contains(content, "token_expired")
    }
}

/// What checking a stored token needs from the configuration: the API
/// host and port, the enterprise and the user.
pub open spec fn verify_target_spec(c: ConfigView) -> Result<(Seq<char>, Seq<char>, Seq<char>), Seq<char>> {
    match host_and_port_spec(c) {
        Err(m) => Err(m),
        Ok(h) => match field(c.enterprise, enterprise_missing()) {
            Err(m) => Err(m),
            Ok(e) => match field(c.user, user_missing()) {
                Err(m) => Err(m),
                Ok(u) => Ok((h, e, u)),
            },
        },
    }
}

/// The API host and port, enterprise and user whose token is checked.
pub fn verify_target(config: &Config) -> (r: DeliveryResult<(String, String, String)>)
    ensures
        match verify_target_spec(config@) {
            Err(m) => missing(r, m),
            Ok((h, e, u)) => r matches Ok(x) && x.0@ == h && x.1@ == e && x.2@ == u,
        },
{
    let h = config.api_host_and_port()?;
    let e = config.enterprise()?;
    let u = config.user()?;
    Ok((h, e, u))
}

/// What the reply to a request made with a stored token says of it:
/// valid on `200`; on `401` valid unless the reply says it expired; any
/// other reply is an authentication failure with the reply, as indented
/// JSON, as detail. `body` is the reply's body (`Err` of the read error's
/// text when unread).
pub fn verify_outcome(status: u16, body: &Result<String, String>) -> (r: DeliveryResult<bool>)
    ensures
        status == 200 ==> r == Ok::<bool, DeliveryError>(true),
        status != 200 ==> match pretty_of(*body) {
            Err((k, m)) => fails_with(r, k, m),
            Ok(p) => if status == 401 {
                r == Ok::<bool, DeliveryError>(!token_expired(p))
            } else {
                fails_with(r, Kind::AuthenticationFailed, p)
            },
        },
{
    if status == 200 {
        Ok(true)
    } else if status == 401 {
        let content = APIClient::extract_pretty_json(body)?;
        Ok(!TokenResponse::parse_token_expired(content.as_str()))
    } else {
        let p = APIClient::extract_pretty_json(body)?;
        Err(DeliveryError { kind: Kind::AuthenticationFailed, detail: Some(p) })
    }
}

/// The API path that gives a user a token.
pub fn request_path(user: &str) -> (r: String)
    ensures
        r@ == "users/"@ + user@ + "/get-token"@,
{
    let mut p = owned("users/");
    p.append(user);
    p.append("/get-token");
    p
}

/// The detail of a refused token request.
pub open spec fn refused_msg(server: Seq<char>, ent: Seq<char>, user: Seq<char>) -> Seq<char> {
    "Details: server="@ + server + ", enterprise="@ + ent + ", user="@ + user
}

/// What the reply to a token request means. `token` is the token read
/// from the body of a `200`.
pub fn request_outcome(config: &Config, user: &str, status: u16, status_text: &str, token: DeliveryResult<String>) -> (r: DeliveryResult<String>)
    ensures
        status == 200 ==> r == token,
        status == 401 ==> match field(config@.enterprise, enterprise_missing()) {
            Err(m) => missing(r, m),
            Ok(e) => match field(config@.server, server_missing()) {
                Err(m) => missing(r, m),
                Ok(s) => fails_with(r, Kind::AuthenticationFailed, refused_msg(s, e, user@)),
            },
        },
        status != 200 && status != 401 ==> fails_with(r, Kind::AuthenticationFailed, "token request returned "@ + status_text@),
{
    if status == 200 {
        token
    } else if status == 401 {
        let ent = config.enterprise()?;
        let server = config.server()?;
        let mut msg = owned("Details: server=");
        msg.append(server.as_str());
        msg.append(", enterprise=");
        msg.append(ent.as_str());
        msg.append(", user=");
        msg.append(user);
        Err(DeliveryError { kind: Kind::AuthenticationFailed, detail: Some(msg) })
    } else {
        let mut msg = owned("token request returned ");
        msg.append(status_text);
        Err(DeliveryError { kind: Kind::AuthenticationFailed, detail: Some(msg) })
    }
}

} // verus!
