//! The client of the Delivery API: where requests go, with which
//! credentials, and what each answer means.
use vstd::prelude::*;
use crate::config::{
    Config, ConfigView, api_protocol_missing, base_resource_spec, enterprise_missing, field,
    user_missing,
};
use crate::errors::{DeliveryError, DeliveryResult, Kind, fails_with, missing, opt_view};
use crate::text::{contains, contains_seq, owned, str_eq};
use crate::token::{TokenStore, key_spec};

pub mod change;
pub mod saml;
pub mod token;

verus! {

/// The protocol a client speaks.
#[derive(Debug, Clone, Copy, PartialEq, Eq, Structural)]
pub enum HProto {
    HTTP,
    HTTPS,
}

/// What `str::to_lowercase` gives for a text.
pub uninterp spec fn lowercase_of(s: Seq<char>) -> Seq<char>;

/// Whether every character of `s` is ASCII.
pub open spec fn is_ascii_text(s: Seq<char>) -> bool {
    forall|i: int| 0 <= i < s.len() ==> (#[trigger] s[i]) as u32 <= 127
}

/// The ASCII lowercase of a character: `A` to `Z` become `a` to `z`.
pub open spec fn ascii_lower(c: char) -> char {
    if 'A' <= c <= 'Z' {
        ((c as u32) + 32) as char
    } else {
        c
    }
}

/// The ASCII lowercase of a text, character by character.
pub open spec fn ascii_lowercase(s: Seq<char>) -> Seq<char> {
    s.map_values(|c: char| ascii_lower(c))
}

/// `str::to_lowercase`: the Unicode lowercase of `s`, named by
/// `lowercase_of`. For an ASCII text, std's documentation gives the result:
/// each of `A` to `Z` becomes its lowercase letter, other characters stay.
/// Beyond ASCII nothing is stated.
#[verifier::external_body]
fn to_lowercase(s: &str) -> (r: String)
    ensures
        r@ == lowercase_of(s@),
        is_ascii_text(s@) ==> r@ == ascii_lowercase(s@),
{
    s.to_lowercase()
}

/// The lowercase of a protocol text: its ASCII lowercase for an ASCII
/// text, `lowercase_of` otherwise.
pub open spec fn lower_protocol(p: Seq<char>) -> Seq<char> {
    if is_ascii_text(p) {
        ascii_lowercase(p)
    } else {
        lowercase_of(p)
    }
}

/// The protocol named by an already lowercased text.
pub open spec fn proto_of(lp: Seq<char>) -> Option<HProto> {
    if lp == "http"@ {
        Some(HProto::HTTP)
    } else if lp == "https"@ {
        Some(HProto::HTTPS)
    } else {
        None
    }
}

/// The message for a protocol that is neither HTTP nor HTTPS.
pub open spec fn unknown_protocol_msg(p: Seq<char>) -> Seq<char> {
    "unknown protocal: "@ + p
}

/// The outcome of reading the protocol `p` whose lowercase is `lp`.
pub open spec fn proto_outcome(r: DeliveryResult<HProto>, p: Seq<char>, lp: Seq<char>) -> bool {
    match proto_of(lp) {
        Some(h) => r == Ok::<HProto, DeliveryError>(h),
        None => fails_with(r, Kind::UnsupportedProtocol, unknown_protocol_msg(p)),
    }
}

/// The text of a protocol, as it stands in a URL.
pub open spec fn proto_text(h: HProto) -> Seq<char> {
    match h {
        HProto::HTTP => "http"@,
        HProto::HTTPS => "https"@,
    }
}

impl HProto {
    /// The protocol named by `p`, given its lowercase `lp`.
    pub fn from_lowercase(p: &str, lp: &str) -> (r: DeliveryResult<HProto>)
        ensures
            proto_outcome(r, p@, lp@),
    {
        if str_eq(lp, "http") {
            Ok(HProto::HTTP)
        } else if str_eq(lp, "https") {
            Ok(HProto::HTTPS)
        } else {
            let mut msg = owned("unknown protocal: ");
            msg.append(p);
            Err(DeliveryError { kind: Kind::UnsupportedProtocol, detail: Some(msg) })
        }
    }

    /// The protocol named by `p`, in any case.
    pub fn from_str(p: &str) -> (r: DeliveryResult<HProto>)
        ensures
            proto_outcome(r, p@, lowercase_of(p@)),
            proto_outcome(r, p@, lower_protocol(p@)),
    {
        let lp = to_lowercase(p);
        HProto::from_lowercase(p, lp.as_str())
    }

    /// The protocol's name, as it stands in a URL.
    pub fn as_str(&self) -> (r: &'static str)
        ensures
            r@ == proto_text(*self),
    {
        match self {
            HProto::HTTP => "http",
            HProto::HTTPS => "https",
        }
    }
}

/// The `Chef-Delivery-User` header: the user a request is made for.
#[derive(Debug, Clone)]
pub struct ChefDeliveryUser(pub String);

/// The `Chef-Delivery-Token` header: the token that authenticates it.
#[derive(Debug, Clone)]
pub struct ChefDeliveryToken(pub String);

/// A user and the API token that authenticates them.
#[derive(Debug)]
pub struct APIAuth {
    user: String,
    token: String,
}

impl View for APIAuth {
    type V = (Seq<char>, Seq<char>);

    closed spec fn view(&self) -> (Seq<char>, Seq<char>) {
        (self.user@, self.token@)
    }
}

/// A client of the Delivery API: protocol, host, and the enterprise, API
/// version and credentials that requests carry when they are set.
#[derive(Debug)]
pub struct APIClient {
    enterprise: Option<String>,
    api_version: Option<String>,
    proto: HProto,
    host: String,
    auth: Option<APIAuth>,
}

/// The view of a client.
pub struct ApiClientView {
    pub enterprise: Option<Seq<char>>,
    pub api_version: Option<Seq<char>>,
    pub proto: HProto,
    pub host: Seq<char>,
    pub auth: Option<(Seq<char>, Seq<char>)>,
}

/// The view of optional credentials.
pub open spec fn auth_view(a: Option<APIAuth>) -> Option<(Seq<char>, Seq<char>)> {
    match a {
        Some(x) => Some(x@),
        None => None,
    }
}

impl View for APIClient {
    type V = ApiClientView;

    closed spec fn view(&self) -> ApiClientView {
        ApiClientView {
            enterprise: opt_view(self.enterprise),
            api_version: opt_view(self.api_version),
            proto: self.proto,
            host: self.host@,
            auth: auth_view(self.auth),
        }
    }
}

/// A client that prefixes no route: no enterprise, no API version, no
/// credentials.
pub open spec fn bare_client(proto: HProto, host: Seq<char>) -> ApiClientView {
    ApiClientView { enterprise: None, api_version: None, proto, host, auth: None }
}

/// A client for an enterprise on API version `v0`.
pub open spec fn enterprise_client(proto: HProto, host: Seq<char>, ent: Seq<char>) -> ApiClientView {
    ApiClientView { enterprise: Some(ent), api_version: Some("v0"@), proto, host, auth: None }
}

/// The client a configuration gives for fully specified routes, or the
/// kind and message of the error.
pub open spec fn basic_routing_spec(c: ConfigView) -> Result<ApiClientView, (Kind, Seq<char>)> {
    match base_resource_spec(c) {
        Err(m) => Err((Kind::MissingConfig, m)),
        Ok(host) => match field(c.api_protocol, api_protocol_missing()) {
            Err(m) => Err((Kind::MissingConfig, m)),
            Ok(p) => match proto_of(lower_protocol(p)) {
                Some(h) => Ok(bare_client(h, host)),
                None => Err((Kind::UnsupportedProtocol, unknown_protocol_msg(p))),
            },
        },
    }
}

/// The client a configuration gives for its enterprise on API `v0`, or
/// the kind and message of the error.
pub open spec fn no_auth_spec(c: ConfigView) -> Result<ApiClientView, (Kind, Seq<char>)> {
    match basic_routing_spec(c) {
        Err(e) => Err(e),
        Ok(b) => match field(c.enterprise, enterprise_missing()) {
            Err(m) => Err((Kind::MissingConfig, m)),
            Ok(e) => Ok(enterprise_client(b.proto, b.host, e)),
        },
    }
}

/// `r` is the client `o` describes, or fails as it says.
pub open spec fn client_outcome(r: DeliveryResult<APIClient>, o: Result<ApiClientView, (Kind, Seq<char>)>) -> bool {
    match o {
        Ok(v) => r matches Ok(x) && x@ == v,
        Err((k, m)) => fails_with(r, k, m),
    }
}

/// A client view with credentials attached.
pub open spec fn with_auth(c: ApiClientView, a: (Seq<char>, Seq<char>)) -> ApiClientView {
    ApiClientView { auth: Some(a), ..c }
}

/// A client view scoped to an enterprise.
pub open spec fn with_enterprise(c: ApiClientView, e: Seq<char>) -> ApiClientView {
    ApiClientView { enterprise: Some(e), ..c }
}

/// A client view with an API version.
pub open spec fn with_api_version(c: ApiClientView, v: Seq<char>) -> ApiClientView {
    ApiClientView { api_version: Some(v), ..c }
}

/// The URL of `path` for a client.
pub open spec fn api_url_spec(c: ApiClientView, path: Seq<char>) -> Seq<char> {
    let base = proto_text(c.proto) + "://"@ + c.host;
    let versioned = match c.api_version {
        Some(v) => base + "/api/"@ + v,
        None => base,
    };
    let scoped = match c.enterprise {
        Some(e) => versioned + "/e/"@ + e,
        None => versioned,
    };
    scoped + "/"@ + path
}

impl APIClient {
    fn new(proto: HProto, host: &str) -> (r: APIClient)
        ensures
            r@ == bare_client(proto, host@),
    {
        APIClient { api_version: None, proto: proto, host: owned(host), enterprise: None, auth: None }
    }

    /// A client for fully specified routes, from the configured API host
    /// (with its A2 resource) and protocol.
    pub fn from_config_with_basic_routing(config: &Config) -> (r: DeliveryResult<APIClient>)
        ensures
            client_outcome(r, basic_routing_spec(config@)),
    {
        let host = config.api_base_resource()?;
        let proto_str = config.api_protocol()?;
        let proto = HProto::from_str(proto_str.as_str())?;
        Ok(APIClient::new(proto, host.as_str()))
    }

    /// A client without credentials for the configured enterprise, on
    /// API version `v0`.
    pub fn from_config_no_auth(config: &Config) -> (r: DeliveryResult<APIClient>)
        ensures
            client_outcome(r, no_auth_spec(config@)),
    {
        let mut c = APIClient::from_config_with_basic_routing(config)?;
        let ent = config.enterprise()?;
        c.set_enterprise(ent.as_str());
        c.set_api_version("v0");
        Ok(c)
    }

    /// A client for the configured enterprise that carries the
    /// credentials `auth` was resolved to.
    pub fn from_config(config: &Config, auth: DeliveryResult<APIAuth>) -> (r: DeliveryResult<APIClient>)
        ensures
            match no_auth_spec(config@) {
                Err((k, m)) => fails_with(r, k, m),
                Ok(v) => match auth {
                    Err(e) => r matches Err(x) && x == e,
                    Ok(a) => r matches Ok(x) && x@ == with_auth(v, a@),
                },
            },
    {
        let mut c = APIClient::from_config_no_auth(config)?;
        let a = auth?;
        c.set_auth(a);
        Ok(c)
    }

    /// An HTTP client for the enterprise `ent` on API version `v0`.
    pub fn new_http(host: &str, ent: &str) -> (r: APIClient)
        ensures
            r@ == enterprise_client(HProto::HTTP, host@, ent@),
    {
        let mut c = APIClient::new(HProto::HTTP, host);
        c.set_enterprise(ent);
        c.set_api_version("v0");
        c
    }

    /// An HTTPS client for the enterprise `ent` on API version `v0`.
    pub fn new_https(host: &str, ent: &str) -> (r: APIClient)
        ensures
            r@ == enterprise_client(HProto::HTTPS, host@, ent@),
    {
        let mut c = APIClient::new(HProto::HTTPS, host);
        c.set_enterprise(ent);
        c.set_api_version("v0");
        c
    }

    /// Attaches credentials.
    pub fn set_auth(&mut self, auth: APIAuth)
        ensures
            final(self)@ == with_auth(old(self)@, auth@),
    {
        self.auth = Some(auth);
    }

    /// Sets the enterprise that routes are scoped to.
    pub fn set_enterprise(&mut self, ent: &str)
        ensures
            final(self)@ == with_enterprise(old(self)@, ent@),
    {
        self.enterprise = Some(owned(ent));
    }

    /// Sets the API version that routes are prefixed with.
    pub fn set_api_version(&mut self, api_version: &str)
        ensures
            final(self)@ == with_api_version(old(self)@, api_version@),
    {
        self.api_version = Some(owned(api_version));
    }

    /// The credentials stored for a server, enterprise and user in the
    /// token store read from the home directory (`tstore`).
    pub fn get_auth_from_home(&mut self, tstore: DeliveryResult<TokenStore>, server: &str, ent: &str, user: &str) -> (r: DeliveryResult<APIAuth>)
        ensures
            final(self)@ == old(self)@,
            match tstore {
                Err(e) => r matches Err(x) && x == e,
                Ok(t) => from_store_outcome(r, t, server@, ent@, user@),
            },
    {
        match tstore {
            Ok(t) => APIAuth::from_token_store(t, server, ent, user),
            Err(e) => Err(e),
        }
    }

    /// The URL of `path`: protocol and host, then the API version and the
    /// enterprise where they are set.
    pub fn api_url(&self, path: &str) -> (r: String)
        ensures
            r@ == api_url_spec(self@, path@),
    {
        let mut r = owned(self.proto.as_str());
        r.append("://");
        r.append(self.host.as_str());
        match &self.api_version {
            Some(v) => {
                r.append("/api/");
                r.append(v.as_str());
            },
            None => {},
        }
        match &self.enterprise {
            Some(e) => {
                r.append("/e/");
                r.append(e.as_str());
            },
            None => {},
        }
        r.append("/");
        r.append(path);
        r
    }

    /// The credentials the client carries, if any.
    pub fn auth(&self) -> (r: Option<&APIAuth>)
        ensures
            match r {
                Some(a) => self@.auth == Some(a@),
                None => self@.auth is None,
            },
    {
        match &self.auth {
            Some(a) => Some(a),
            None => None,
        }
    }
}

/// The message when no token is stored for a server, enterprise and user.
pub open spec fn no_token_msg(server: Seq<char>, ent: Seq<char>, user: Seq<char>) -> Seq<char> {
    "server: "@ + server + ", ent: "@ + ent + ", user: "@ + user
}

/// The outcome of looking a user's token up in a store.
pub open spec fn from_store_outcome(r: DeliveryResult<APIAuth>, t: TokenStore, server: Seq<char>, ent: Seq<char>, user: Seq<char>) -> bool {
    if t.token_map().contains_key(key_spec(server, ent, user)) {
        r matches Ok(a) && a@ == (user, t.token_map()[key_spec(server, ent, user)])
    } else {
        fails_with(r, Kind::NoToken, no_token_msg(server, ent, user))
    }
}

/// The message when a token would have to be asked for but the session
/// is not interactive.
pub open spec fn non_interactive_msg() -> Seq<char> {
    "Unable to request token due to --no-interactive flag.\nTry `delivery token` to create one"@
}

/// Whether the configuration allows asking the user for input.
pub open spec fn interactive(c: ConfigView) -> bool {
    !(c.non_interactive == Some(true))
}

/// The next step in resolving credentials: done, or a token must be
/// requested from the server (which asks the user for a password).
#[derive(Debug)]
pub enum AuthPlan {
    Ready(DeliveryResult<APIAuth>),
    RequestToken,
}

/// What requesting a token decides before any request is made.
pub open spec fn token_request_plan(r: AuthPlan, c: ConfigView) -> bool {
    match field(c.user, user_missing()) {
        Err(m) => r matches AuthPlan::Ready(x) && missing(x, m),
        Ok(_) => if interactive(c) {
            r is RequestToken
        } else {
            r matches AuthPlan::Ready(x) && fails_with(x, Kind::NoToken, non_interactive_msg())
        },
    }
}

impl APIAuth {
    /// Credentials from a user and a token.
    pub fn new(user: &str, token: &str) -> (r: APIAuth)
        ensures
            r@ == (user@, token@),
    {
        APIAuth { user: owned(user), token: owned(token) }
    }

    /// The credentials of `user` stored in `tstore` for a server and
    /// enterprise.
    pub fn from_token_store(tstore: TokenStore, server: &str, ent: &str, user: &str) -> (r: DeliveryResult<APIAuth>)
        ensures
            from_store_outcome(r, tstore, server@, ent@, user@),
    {
        match tstore.lookup(server, ent, user) {
            Some(token) => Ok(APIAuth { user: owned(user), token: token.clone() }),
            None => {
                let mut msg = owned("server: ");
                msg.append(server);
                msg.append(", ent: ");
                msg.append(ent);
                msg.append(", user: ");
                msg.append(user);
                Err(DeliveryError { kind: Kind::NoToken, detail: Some(msg) })
            },
        }
    }

    /// Whether a token may be requested: the user must be set and the
    /// session interactive.
    pub fn from_token_request(config: &Config) -> (r: AuthPlan)
        ensures
            token_request_plan(r, config@),
    {
        match config.user() {
            Err(e) => AuthPlan::Ready(Err(e)),
            Ok(_) => {
                let non_interactive = match config.non_interactive {
                    Some(b) => b,
                    None => false,
                };
                if non_interactive {
                    let msg = owned("Unable to request token due to --no-interactive flag.\nTry `delivery token` to create one");
                    AuthPlan::Ready(Err(DeliveryError { kind: Kind::NoToken, detail: Some(msg) }))
                } else {
                    AuthPlan::RequestToken
                }
            },
        }
    }

    /// The credentials made of the configured user and the token that the
    /// server gave (`token`).
    pub fn from_requested_token(config: &Config, token: DeliveryResult<String>) -> (r: DeliveryResult<APIAuth>)
        ensures
            match field(config@.user, user_missing()) {
                Err(m) => missing(r, m),
                Ok(u) => match token {
                    Err(e) => r matches Err(x) && x == e,
                    Ok(t) => r matches Ok(a) && a@ == (u, t@),
                },
            },
    {
        let user = config.user()?;
        let t = token?;
        Ok(APIAuth { user: user, token: t })
    }

    /// Resolves the credentials of the configured user. `verified` is
    /// whether the stored token was accepted by the server, `tstore` the
    /// token store read from disk. A rejected token, or one that the store
    /// lacks, must be requested anew.
    pub fn from_config(config: &Config, verified: DeliveryResult<bool>, tstore: DeliveryResult<TokenStore>) -> (r: AuthPlan)
        ensures
            match verified {
                Err(e) => r matches AuthPlan::Ready(x) && x matches Err(y) && y == e,
                Ok(false) => token_request_plan(r, config@),
                Ok(true) => match tstore {
                    Err(e) => r matches AuthPlan::Ready(x) && x matches Err(y) && y == e,
                    Ok(t) => match base_resource_spec(config@) {
                        Err(m) => r matches AuthPlan::Ready(x) && missing(x, m),
                        Ok(s) => match field(config@.enterprise, enterprise_missing()) {
                            Err(m) => r matches AuthPlan::Ready(x) && missing(x, m),
                            Ok(e) => match field(config@.user, user_missing()) {
                                Err(m) => r matches AuthPlan::Ready(x) && missing(x, m),
                                Ok(u) => if t.token_map().contains_key(key_spec(s, e, u)) {
                                    r matches AuthPlan::Ready(x) && x matches Ok(a) && a@ == (u, t.token_map()[key_spec(s, e, u)])
                                } else {
                                    token_request_plan(r, config@)
                                },
                            },
                        },
                    },
                },
            },
    {
        match verified {
            Err(e) => AuthPlan::Ready(Err(e)),
            Ok(false) => APIAuth::from_token_request(config),
            Ok(true) => {
                let t = match tstore {
                    Err(e) => return AuthPlan::Ready(Err(e)),
                    Ok(t) => t,
                };
                let server = match config.api_base_resource() {
                    Err(e) => return AuthPlan::Ready(Err(e)),
                    Ok(s) => s,
                };
                let ent = match config.enterprise() {
                    Err(e) => return AuthPlan::Ready(Err(e)),
                    Ok(s) => s,
                };
                let user = match config.user() {
                    Err(e) => return AuthPlan::Ready(Err(e)),
                    Ok(s) => s,
                };
                match APIAuth::from_token_store(t, server.as_str(), ent.as_str(), user.as_str()) {
                    Ok(a) => AuthPlan::Ready(Ok(a)),
                    Err(_) => APIAuth::from_token_request(config),
                }
            },
        }
    }

    /// The user.
    pub fn user(&self) -> (r: String)
        ensures
            r@ == self@.0,
    {
        self.user.clone()
    }

    /// The token.
    pub fn token(&self) -> (r: String)
        ensures
            r@ == self@.1,
    {
        self.token.clone()
    }

    /// The two headers that authenticate a request.
    pub fn auth_headers(&self) -> (r: (ChefDeliveryUser, ChefDeliveryToken))
        ensures
            r.0.0@ == self@.0,
            r.1.0@ == self@.1,
    {
        (ChefDeliveryUser(self.user.clone()), ChefDeliveryToken(self.token.clone()))
    }
}

/// Whether a server reply says that the token has expired.
pub open spec fn token_expired(content: Seq<char>) -> bool {
    contains_seq(content, "token_expired"@)
}

/// The message when a request is forbidden.
pub open spec fn forbidden_msg() -> Seq<char> {
    "The user is not authorized to perform this action.\nContact an administrator to grant you with appropriate permissions to proceed."@
}

/// What serde_json gives for a reply body: the body parsed as JSON and
/// written back indented (`to_string_pretty`), or, for an error, its
/// `description()` and its message, joined by `": "`.
pub uninterp spec fn pretty_json_of(body: Seq<char>) -> Result<Seq<char>, Seq<char>>;

/// `serde_json::from_str` into a `serde_json::Value`, then
/// `serde_json::to_string_pretty`. Trusted: the result, and the text of
/// an error (`"{description}: {message}"`), are what `pretty_json_of`
/// names for the body.
#[verifier::external_body]
#[allow(deprecated)]
pub(crate) fn pretty_json(body: &str) -> (r: Result<String, String>)
    ensures
        match r {
            Ok(x) => pretty_json_of(body@) == Ok::<Seq<char>, Seq<char>>(x@),
            Err(m) => pretty_json_of(body@) == Err::<Seq<char>, Seq<char>>(m@),
        },
{
    match serde_json::from_str::<serde_json::Value>(body) {
        Ok(v) => match serde_json::to_string_pretty(&v) {
            Ok(p) => Ok(p),
            Err(e) => Err(format!("{}: {}", std::error::Error::description(&e), e)),
        },
        Err(e) => Err(format!("{}: {}", std::error::Error::description(&e), e)),
    }
}

/// The indented JSON of a reply body (`Err` of the read error's text when
/// the body could not be read), or the error: `IoError` with that text for
/// an unread body, `JsonParseError` with serde_json's text for a body that
/// is not JSON.
pub open spec fn pretty_of(body: Result<String, String>) -> Result<Seq<char>, (Kind, Seq<char>)> {
    match body {
        Err(m) => Err((Kind::IoError, m@)),
        Ok(b) => match pretty_json_of(b@) {
            Ok(p) => Ok(p),
            Err(m) => Err((Kind::JsonParseError, m)),
        },
    }
}

/// What a reply of the API means, from its status, status text, URL and
/// body (`Err` of the read error's text when it could not be read). A conflict (`409`) is no
/// failure: it answers the creation of something that exists already.
pub open spec fn response_outcome(
    r: DeliveryResult<(u16, Option<String>)>,
    status: u16,
    status_text: Seq<char>,
    url: Seq<char>,
    body: Result<String, String>,
) -> bool {
    if status == 204 || status == 201 || status == 409 {
        r matches Ok(x) && x.0 == status && x.1 is None
    } else if status == 200 {
        match pretty_of(body) {
            Err((k, m)) => fails_with(r, k, m),
            Ok(p) => r matches Ok(x) && x.0 == status && opt_view(x.1) == Some(p),
        }
    } else if status == 404 {
        fails_with(r, Kind::EndpointNotFound, "Unable to access endpoint: "@ + url)
    } else if status == 403 {
        fails_with(r, Kind::ForbiddenRequest, forbidden_msg())
    } else if status == 401 {
        match pretty_of(body) {
            Err((k, m)) => fails_with(r, k, m),
            Ok(p) => if token_expired(p) {
                r matches Err(x) && x.kind is TokenExpired && x.detail is None
            } else {
                fails_with(r, Kind::AuthenticationFailed, "Request lacks valid authentication credentials.\nDetail:\n"@ + p)
            },
        }
    } else {
        r matches Err(x) && x.kind == Kind::ApiError(status, body) && opt_view(x.detail) == Some(
            "Request returned: '"@ + status_text + "'"@,
        )
    }
}

impl APIClient {
    /// The indented JSON of a reply body; see `pretty_of`.
    pub fn extract_pretty_json(body: &Result<String, String>) -> (r: DeliveryResult<String>)
        ensures
            match pretty_of(*body) {
                Ok(p) => r matches Ok(x) && x@ == p,
                Err((k, m)) => fails_with(r, k, m),
            },
    {
        match body {
            Err(m) => Err(DeliveryError::throw(Kind::IoError, Some(m.clone()))),
            Ok(b) => match pretty_json(b.as_str()) {
                Ok(p) => Ok(p),
                Err(m) => Err(DeliveryError::throw(Kind::JsonParseError, Some(m))),
            },
        }
    }

    /// Interprets a reply of the API; see `response_outcome`.
    pub fn parse_response(status: u16, status_text: &str, url: &str, body: Result<String, String>) -> (r: DeliveryResult<(u16, Option<String>)>)
        ensures
            response_outcome(r, status, status_text@, url@, body),
    {
        if status == 204 || status == 201 || status == 409 {
            Ok((status, None))
        } else if status == 200 {
            let p = APIClient::extract_pretty_json(&body)?;
            Ok((status, Some(p)))
        } else if status == 404 {
            let mut msg = owned("Unable to access endpoint: ");
            msg.append(url);
            Err(DeliveryError::throw(Kind::EndpointNotFound, Some(msg)))
        } else if status == 403 {
            let msg = owned("The user is not authorized to perform this action.\nContact an administrator to grant you with appropriate permissions to proceed.");
            Err(DeliveryError::throw(Kind::ForbiddenRequest, Some(msg)))
        } else if status == 401 {
            let p = APIClient::extract_pretty_json(&body)?;
            if contains(p.as_str(), "token_expired") {
                return Err(DeliveryError::throw(Kind::TokenExpired, None));
            }
            let mut msg = owned("Request lacks valid authentication credentials.\nDetail:\n");
            msg.append(p.as_str());
            Err(DeliveryError::throw(Kind::AuthenticationFailed, Some(msg)))
        } else {
            let mut msg = owned("Request returned: '");
            msg.append(status_text);
            msg.append("'");
            Err(DeliveryError::throw(Kind::ApiError(status, body), Some(msg)))
        }
    }
}

/// One entry of the server's `scm-providers` list, as plain values: for
/// an object, its `name` when that is a string and the length of its
/// `scmSetupConfigs` when that is an array; `None` for an entry that is no
/// object.
pub open spec fn provider_views(v: Seq<Option<(Option<String>, Option<usize>)>>) -> Seq<Option<(Option<Seq<char>>, Option<usize>)>> {
    v.map_values(|e: Option<(Option<String>, Option<usize>)>| match e {
        Some((n, c)) => Some((opt_view(n), c)),
        None => None,
    })
}

/// What serde_json reads from a `scm-providers` reply body: the parse
/// error's text (`"{description}: {message}"`), or the `{:?}` text of the
/// parsed JSON value together with `None` when the value is no array, or
/// each entry as `provider_views` describes it.
pub uninterp spec fn scm_providers_of(body: Seq<char>) -> Result<(Seq<char>, Option<Seq<Option<(Option<Seq<char>>, Option<usize>)>>>), Seq<char>>;

/// `serde_json::from_str` into a `serde_json::Value`, its `{:?}` text, and
/// each entry of the array converted to plain values. Trusted: the result
/// is what `scm_providers_of` names for the body.
#[verifier::external_body]
#[allow(deprecated)]
fn scm_providers(body: &str) -> (r: Result<(String, Option<Vec<Option<(Option<String>, Option<usize>)>>>), String>)
    ensures
        match r {
            Ok((d, Some(v))) => scm_providers_of(body@) == Ok::<(Seq<char>, Option<Seq<Option<(Option<Seq<char>>, Option<usize>)>>>), Seq<char>>((d@, Some(provider_views(v@)))),
            Ok((d, None)) => scm_providers_of(body@) == Ok::<(Seq<char>, Option<Seq<Option<(Option<Seq<char>>, Option<usize>)>>>), Seq<char>>((d@, None)),
            Err(m) => scm_providers_of(body@) == Err::<(Seq<char>, Option<Seq<Option<(Option<Seq<char>>, Option<usize>)>>>), Seq<char>>(m@),
        },
{
    let v: serde_json::Value = match serde_json::from_str(body) {
        Ok(v) => v,
        Err(e) => return Err(format!("{}: {}", std::error::Error::description(&e), e)),
    };
    Ok((format!("{:?}", v), v.as_array().map(|a| a.iter().map(|o| o.as_object().map(|m| (
        m.get("name").and_then(|n| n.as_str()).map(String::from),
        m.get("scmSetupConfigs").and_then(|c| c.as_array()).map(|c| c.len()),
    ))).collect())))
}

/// The `{:?}` text of a string slice, as std's `Debug` writes it.
pub uninterp spec fn str_debug_of(s: Seq<char>) -> Seq<char>;

/// `format!("{:?}", s)` for a string slice: claimed to depend on the text
/// alone.
#[verifier::external_body]
fn debug_str(s: &str) -> (r: String)
    ensures
        r@ == str_debug_of(s@),
{
    format!("{:?}", s)
}

/// How a provider is looked up in the `scm-providers` list.
pub enum ScmLookup {
    /// The provider, with this many setup configurations.
    Found(usize),
    /// No entry names the provider.
    Absent,
    /// An object before the provider's has no name, or the provider's
    /// entry has no setup configurations.
    Malformed,
}

/// The lookup of `scm` among the entries, in order; entries that are no
/// objects are passed over.
pub open spec fn scm_lookup(v: Seq<Option<(Option<Seq<char>>, Option<usize>)>>, scm: Seq<char>) -> ScmLookup
    decreases v.len(),
{
    if v.len() == 0 {
        ScmLookup::Absent
    } else {
        match v[0] {
            None => scm_lookup(v.drop_first(), scm),
            Some((None, _)) => ScmLookup::Malformed,
            Some((Some(n), c)) => if n == scm {
                match c {
                    Some(k) => ScmLookup::Found(k),
                    None => ScmLookup::Malformed,
                }
            } else {
                scm_lookup(v.drop_first(), scm)
            },
        }
    }
}

/// The message when the server lists no such provider, with the server's
/// JSON as `{:?}` writes it.
pub open spec fn scm_absent_msg(scm: Seq<char>, json: Seq<char>) -> Seq<char> {
    "Unable to find "@ + str_debug_of(scm) + " SCM Config in Delivery Server.\nJSON Output: "@ + json
}

/// The message when the server lists no such provider.
fn scm_absent_error(scm: &str, json: &str) -> (e: DeliveryError)
    ensures
        e.kind is ExpectedJsonString,
        opt_view(e.detail) == Some(scm_absent_msg(scm@, json@)),
{
    let mut msg = owned("Unable to find ");
    let d = debug_str(scm);
    msg.append(d.as_str());
    msg.append(" SCM Config in Delivery Server.\nJSON Output: ");
    msg.append(json);
    DeliveryError::throw(Kind::ExpectedJsonString, Some(msg))
}

impl APIClient {
    /// The number of setup configurations the server lists for the source
    /// code provider `scm`, from its `scm-providers` entries; an
    /// `ExpectedJsonString` error, quoting the server's JSON (`json`, its
    /// `{:?}` text), when no entry names it.
    pub fn scm_server_config(providers: &Vec<Option<(Option<String>, Option<usize>)>>, json: &str, scm: &str) -> (r: DeliveryResult<usize>)
        requires
            !(scm_lookup(provider_views(providers@), scm@) is Malformed),
        ensures
            match scm_lookup(provider_views(providers@), scm@) {
                ScmLookup::Found(n) => r == Ok::<usize, DeliveryError>(n),
                _ => fails_with(r, Kind::ExpectedJsonString, scm_absent_msg(scm@, json@)),
            },
    {
        let ghost all = provider_views(providers@);
        let mut i: usize = 0;
        assert(all.subrange(0, all.len() as int) == all);
        while i < providers.len()
            invariant
                i <= providers@.len(),
                all == provider_views(providers@),
                !(scm_lookup(all, scm@) is Malformed),
                scm_lookup(all, scm@) == scm_lookup(all.subrange(i as int, all.len() as int), scm@),
            decreases providers.len() - i,
        {
            let ghost rest = all.subrange(i as int, all.len() as int);
            assert(rest.drop_first() == all.subrange(i + 1, all.len() as int));
            assert(rest[0] == all[i as int]);
            match &providers[i] {
                Some((Some(n), c)) => {
                    if str_eq(n.as_str(), scm) {
                        match c {
                            Some(k) => {
                                return Ok(*k);
                            },
                            None => {},
                        }
                    }
                },
                _ => {},
            }
            i = i + 1;
        }
        assert(all.subrange(all.len() as int, all.len() as int).len() == 0);
        Err(scm_absent_error(scm, json))
    }

    /// The setup configurations of `scm` from a `scm-providers` reply
    /// body: `Ok(None)` when the entries are malformed (see `ScmLookup`),
    /// an `ExpectedJsonString` error when the body is no list or names no
    /// such provider, a `JsonParseError` when it is not JSON.
    pub fn get_scm_server_config(body: &str, scm: &str) -> (r: DeliveryResult<Option<usize>>)
        ensures
            match scm_providers_of(body@) {
                Err(m) => fails_with(r, Kind::JsonParseError, m),
                Ok((d, None)) => fails_with(r, Kind::ExpectedJsonString, scm_absent_msg(scm@, d)),
                Ok((d, Some(v))) => match scm_lookup(v, scm@) {
                    ScmLookup::Found(n) => r == Ok::<Option<usize>, DeliveryError>(Some(n)),
                    ScmLookup::Absent => fails_with(r, Kind::ExpectedJsonString, scm_absent_msg(scm@, d)),
                    ScmLookup::Malformed => r == Ok::<Option<usize>, DeliveryError>(None),
                },
            },
    {
        match scm_providers(body) {
            Err(m) => Err(DeliveryError::throw(Kind::JsonParseError, Some(m))),
            Ok((d, None)) => Err(scm_absent_error(scm, d.as_str())),
            Ok((d, Some(v))) => {
                if scm_malformed(&v, scm) {
                    Ok(None)
                } else {
                    let n = APIClient::scm_server_config(&v, d.as_str(), scm)?;
                    Ok(Some(n))
                }
            },
        }
    }
}

/// Whether the lookup of `scm` meets a malformed entry.
fn scm_malformed(providers: &Vec<Option<(Option<String>, Option<usize>)>>, scm: &str) -> (r: bool)
    ensures
        r == (scm_lookup(provider_views(providers@), scm@) is Malformed),
{
    let ghost all = provider_views(providers@);
    let mut i: usize = 0;
    assert(all.subrange(0, all.len() as int) == all);
    while i < providers.len()
        invariant
            i <= providers@.len(),
            all == provider_views(providers@),
            scm_lookup(all, scm@) == scm_lookup(all.subrange(i as int, all.len() as int), scm@),
        decreases providers.len() - i,
    {
        let ghost rest = all.subrange(i as int, all.len() as int);
        assert(rest.drop_first() == all.subrange(i + 1, all.len() as int));
        assert(rest[0] == all[i as int]);
        match &providers[i] {
            Some((None, _)) => {
                return true;
            },
            Some((Some(n), c)) => {
                if str_eq(n.as_str(), scm) {
                    return match c {
                        Some(_) => false,
                        None => true,
                    };
                }
            },
            None => {},
        }
        i = i + 1;
    }
    assert(all.subrange(all.len() as int, all.len() as int).len() == 0);
    false
}

/// A client for the configured enterprise routes under the same address
/// as the client for full routes: its URLs are those of the latter with
/// `/api/v0/e/{enterprise}` put before the path.
pub proof fn law_enterprise_routes_extend_basic(c: ConfigView, path: Seq<char>)
    requires
        no_auth_spec(c) is Ok,
    ensures
        basic_routing_spec(c) is Ok,
        c.enterprise is Some,
        api_url_spec(no_auth_spec(c)->Ok_0, path) == proto_text(basic_routing_spec(c)->Ok_0.proto) + "://"@
            + basic_routing_spec(c)->Ok_0.host + "/api/v0/e/"@ + c.enterprise->Some_0 + "/"@ + path,
        api_url_spec(basic_routing_spec(c)->Ok_0, path) == proto_text(basic_routing_spec(c)->Ok_0.proto) + "://"@
            + basic_routing_spec(c)->Ok_0.host + "/"@ + path,
{
    reveal_strlit("/api/");
    reveal_strlit("/e/");
    reveal_strlit("v0");
    reveal_strlit("/api/v0/e/");
    let b = basic_routing_spec(c)->Ok_0;
    let e = c.enterprise->Some_0;
    let base = proto_text(b.proto) + "://"@ + b.host;
    assert(base + "/api/"@ + "v0"@ + "/e/"@ + e + "/"@ + path =~= base + "/api/v0/e/"@ + e + "/"@ + path);
}

/// The text of a JSON boolean.
pub open spec fn bool_text(b: bool) -> Seq<char> {
    if b { "true"@ } else { "false"@ }
}

impl APIClient {
    /// The path and payload that create a project in an organization.
    pub fn create_delivery_project_request(org: &str, proj: &str) -> (r: (String, String))
        ensures
            r.0@ == "orgs/"@ + org@ + "/projects"@,
            r.1@ == "{\"name\":\""@ + proj@ + "\"}"@,
    {
        let mut path = owned("orgs/");
        path.append(org);
        path.append("/projects");
        let mut payload = owned("{\"name\":\"");
        payload.append(proj);
        payload.append("\"}");
        (path, payload)
    }

    /// The path and payload that create a project backed by a GitHub
    /// repository.
    pub fn create_github_project_request(org: &str, proj: &str, repo_name: &str, git_org: &str, pipe: &str, ssl: bool) -> (r: (String, String))
        ensures
            r.0@ == "orgs/"@ + org@ + "/github-projects"@,
            r.1@ == "{\"name\":\""@ + proj@ + "\",\"scm\":{\"type\":\"github\",\"project\":\""@ + repo_name@
                + "\",\"organization\":\""@ + git_org@ + "\",\"branch\":\""@ + pipe@ + "\",\"verify_ssl\": "@
                + bool_text(ssl) + "}}"@,
    {
        let mut path = owned("orgs/");
        path.append(org);
        path.append("/github-projects");
        let mut payload = owned("{\"name\":\"");
        payload.append(proj);
        payload.append("\",\"scm\":{\"type\":\"github\",\"project\":\"");
        payload.append(repo_name);
        payload.append("\",\"organization\":\"");
        payload.append(git_org);
        payload.append("\",\"branch\":\"");
        payload.append(pipe);
        payload.append("\",\"verify_ssl\": ");
        payload.append(if ssl { "true" } else { "false" });
        payload.append("}}");
        (path, payload)
    }

    /// The path and payload that create a project backed by a Bitbucket
    /// repository.
    pub fn create_bitbucket_project_request(org: &str, proj: &str, repo_name: &str, project_key: &str, pipe: &str) -> (r: (String, String))
        ensures
            r.0@ == "orgs/"@ + org@ + "/bitbucket-projects"@,
            r.1@ == "{\"name\":\""@ + proj@ + "\",\"scm\":{\"type\":\"bitbucket\",\"repo_name\":\""@ + repo_name@
                + "\",\"project_key\":\""@ + project_key@ + "\",\"pipeline_branch\":\""@ + pipe@ + "\"}}"@,
    {
        let mut path = owned("orgs/");
        path.append(org);
        path.append("/bitbucket-projects");
        let mut payload = owned("{\"name\":\"");
        payload.append(proj);
        payload.append("\",\"scm\":{\"type\":\"bitbucket\",\"repo_name\":\"");
        payload.append(repo_name);
        payload.append("\",\"project_key\":\"");
        payload.append(project_key);
        payload.append("\",\"pipeline_branch\":\"");
        payload.append(pipe);
        payload.append("\"}}");
        (path, payload)
    }

    /// The path and payload that create a pipeline; its base branch is
    /// `master` unless given.
    pub fn create_pipeline_request(org: &str, proj: &str, pipe: &str, base: Option<&str>) -> (r: (String, String))
        ensures
            r.0@ == "orgs/"@ + org@ + "/projects/"@ + proj@ + "/pipelines"@,
            r.1@ == "{\"name\":\""@ + pipe@ + "\",\"base\":\""@ + (match base {
                Some(b) => b@,
                None => "master"@,
            }) + "\"}"@,
    {
        let mut path = owned("orgs/");
        path.append(org);
        path.append("/projects/");
        path.append(proj);
        path.append("/pipelines");
        let base_branch = match base {
            Some(b) => b,
            None => "master",
        };
        let mut payload = owned("{\"name\":\"");
        payload.append(pipe);
        payload.append("\",\"base\":\"");
        payload.append(base_branch);
        payload.append("\"}");
        (path, payload)
    }

    /// The API path of a pipeline.
    pub fn pipeline_path(org: &str, proj: &str, pipe: &str) -> (r: String)
        ensures
            r@ == "orgs/"@ + org@ + "/projects/"@ + proj@ + "/pipelines/"@ + pipe@,
    {
        let mut path = owned("orgs/");
        path.append(org);
        path.append("/projects/");
        path.append(proj);
        path.append("/pipelines/");
        path.append(pipe);
        path
    }

    /// The API path of a project.
    pub fn project_path(org: &str, proj: &str) -> (r: String)
        ensures
            r@ == "orgs/"@ + org@ + "/projects/"@ + proj@,
    {
        let mut path = owned("orgs/");
        path.append(org);
        path.append("/projects/");
        path.append(proj);
        path
    }

    /// Whether a lookup reply says the thing exists: only a `200` does;
    /// any other reply, or none, does not.
    pub fn exists_outcome(status: Option<u16>) -> (r: bool)
        ensures
            r == (status == Some(200u16)),
    {
        match status {
            Some(s) => s == 200,
            None => false,
        }
    }
}

} // verus!
