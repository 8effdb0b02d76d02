//! What the server's `_status` endpoint reports.
use vstd::prelude::*;
use crate::text::{replace_all, replace_seq};

verus! {

/// The server's status.
#[derive(Debug)]
pub struct ServerStatus {
    pub configuration_mode: String,
    pub status: String,
    pub upstreams: Vec<Upstreams>,
    pub fips_mode: Option<bool>,
}

/// The status of the services the server depends on.
#[derive(Debug)]
pub struct Upstreams {
    pub lsyncd: Lsyncd,
    pub postgres: Postgres,
    pub rabbitmq: Rabbitmq,
}

/// The file synchronisation service.
#[derive(Debug)]
pub struct Lsyncd {
    pub status: String,
}

/// The database.
#[derive(Debug)]
pub struct Postgres {
    pub status: String,
}

/// The message queue, with its optional health checks.
#[derive(Debug)]
pub struct Rabbitmq {
    pub status: String,
    pub node_health: Option<NodeHealth>,
    pub vhost_aliveness: Option<VhostAliveness>,
}

/// The message queue's node health.
#[derive(Debug)]
pub struct NodeHealth {
    pub status: String,
}

/// Whether the message queue's virtual host answers.
#[derive(Debug)]
pub struct VhostAliveness {
    pub status: String,
}

/// The status reply with the older key spelling fixed.
pub open spec fn compat_status_json(s: Seq<char>) -> Seq<char> {
    replace_seq(s, "configuration mode"@, "configuration_mode"@)
}

/// The status reply as shown to a person: `pong` reads `up`.
pub open spec fn friendly_status_json(s: Seq<char>) -> Seq<char> {
    replace_seq(compat_status_json(s), "pong"@, "up"@)
}

/// The status reply with the key that some server versions spelt with a
/// space renamed.
pub fn compat_status(json: &str) -> (r: String)
    ensures
        r@ == compat_status_json(json@),
{
    proof {
        reveal_strlit("configuration mode");
    }
    replace_all(json, "configuration mode", "configuration_mode")
}

/// The status reply as shown to a person, with `pong` replaced by `up`.
pub fn friendly_status(json: &str) -> (r: String)
    ensures
        r@ == friendly_status_json(json@),
{
    let c = compat_status(json);
    proof {
        reveal_strlit("pong");
    }
    replace_all(c.as_str(), "pong", "up")
}

/// The colour a status word is shown in: green when up, red otherwise.
pub fn status_color(s: &str) -> (r: &'static str)
    ensures
        r@ == (if s@ == "up"@ { "green"@ } else { "red"@ }),
{
    if crate::text::str_eq(s, "up") {
        "green"
    } else {
        "red"
    }
}

} // verus!
