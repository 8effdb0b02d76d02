//! What the commands decide between the steps they take: which URL to
//! clone, what a failure means, what to report and what to do next.
pub mod clone;
pub mod init;
pub mod status;

use vstd::prelude::*;
use crate::cli::{ApiClapOptions, CheckoutClapOptions, DiffClapOptions, LocalClapOptions, PullClapOptions, SetupClapOptions};
use crate::config::Config;
use crate::delivery_config::project::ProjectToml;
use crate::errors::{DeliveryError, DeliveryResult, Kind};

verus! {

/// `api`: a raw request to the API.
pub struct ApiCommand<'n> {
    pub options: &'n ApiClapOptions,
    pub config: &'n Config,
}

/// `checkout`: a change's branch, locally.
pub struct CheckoutCommand<'n> {
    pub options: &'n CheckoutClapOptions,
    pub config: &'n Config,
}

/// `diff`: a change against its pipeline.
pub struct DiffCommand<'n> {
    pub options: &'n DiffClapOptions,
    pub config: &'n Config,
}

/// `local`: the project's phases, run locally.
pub struct LocalCommand<'n> {
    pub options: &'n LocalClapOptions,
    pub config: &'n ProjectToml,
}

/// `pull`: the pipeline's latest changes.
pub struct PullCommand<'n> {
    pub options: &'n PullClapOptions,
    pub config: &'n Config,
}

/// `setup`: writing the configuration file.
pub struct SetupCommand<'n> {
    pub options: &'n SetupClapOptions,
    pub config: &'n Config,
    pub config_path: &'n String,
}

impl<'n> LocalCommand<'n> {
    /// What a phase's exit code means for a stage: it goes on after a
    /// success only.
    pub fn phase_result(exit_code: i32) -> (r: DeliveryResult<()>)
        ensures
            exit_code == 0 ==> r is Ok,
            exit_code != 0 ==> (r matches Err(e) && e.kind == Kind::PhaseFailed(exit_code) && e.detail is None),
    {
        if exit_code == 0 {
            Ok(())
        } else {
            Err(DeliveryError { kind: Kind::PhaseFailed(exit_code), detail: None })
        }
    }
}

/// The HTTP methods `api` sends.
#[derive(Debug, Clone, Copy, PartialEq, Eq, Structural)]
pub enum HttpMethod {
    Get,
    Post,
    Put,
    Delete,
}

impl<'n> ApiCommand<'n> {
    /// The method a name asks for: `get`, `post`, `put` or `delete`.
    pub fn method(name: &str) -> (r: DeliveryResult<HttpMethod>)
        ensures
            name@ == "get"@ ==> r == Ok::<HttpMethod, DeliveryError>(HttpMethod::Get),
            name@ == "post"@ ==> r == Ok::<HttpMethod, DeliveryError>(HttpMethod::Post),
            name@ == "put"@ ==> r == Ok::<HttpMethod, DeliveryError>(HttpMethod::Put),
            name@ == "delete"@ ==> r == Ok::<HttpMethod, DeliveryError>(HttpMethod::Delete),
            !(name@ == "get"@ || name@ == "post"@ || name@ == "put"@ || name@ == "delete"@) ==> (r matches Err(e)
                && e.kind is UnsupportedHttpMethod && e.detail is None),
    {
        proof {
            reveal_strlit("get");
            reveal_strlit("post");
            reveal_strlit("put");
            reveal_strlit("delete");
            assert("post"@.len() != "get"@.len());
            assert("put"@[0] != "get"@[0]);
            assert("put"@.len() != "post"@.len());
            assert("delete"@.len() != "get"@.len());
            assert("delete"@.len() != "post"@.len());
            assert("delete"@.len() != "put"@.len());
        }
        if crate::text::str_eq(name, "get") {
            Ok(HttpMethod::Get)
        } else if crate::text::str_eq(name, "post") {
            Ok(HttpMethod::Post)
        } else if crate::text::str_eq(name, "put") {
            Ok(HttpMethod::Put)
        } else if crate::text::str_eq(name, "delete") {
            Ok(HttpMethod::Delete)
        } else {
            Err(DeliveryError::throw(Kind::UnsupportedHttpMethod, None))
        }
    }

    /// What `api` shows of a reply and its exit code: the content when
    /// there is one; a conflict without content is shown as an error and
    /// exits with 1; nothing else is shown.
    pub fn reply_outcome(code: u16, content: Option<String>) -> (r: (Option<(String, String)>, i32))
        ensures
            match content {
                Some(c) => (r.0 matches Some(m) && m.0@ == "white"@ && m.1@ == c@) && r.1 == 0,
                None => if code == 409 {
                    (r.0 matches Some(m) && m.0@ == "error"@ && m.1@ == "409 Conflict"@) && r.1 == 1
                } else {
                    r.0 is None && r.1 == 0
                },
            },
    {
        match content {
            Some(c) => (Some((crate::text::owned("white"), c)), 0),
            None => if code == 409 {
                (Some((crate::text::owned("error"), crate::text::owned("409 Conflict"))), 1)
            } else {
                (None, 0)
            },
        }
    }
}

impl<'n> CheckoutCommand<'n> {
    /// The patchset checked out: the latest unless one is named.
    pub fn patchset(p: &str) -> (r: String)
        ensures
            r@ == (if p@.len() == 0 || p@ == "latest"@ { "latest"@ } else { p@ }),
    {
        if crate::config::is_empty(p) || crate::text::str_eq(p, "latest") {
            crate::text::owned("latest")
        } else {
            crate::text::owned(p)
        }
    }
}

impl<'n> PullCommand<'n> {
    /// How the local head is brought up to date.
    pub fn verb(rebase: bool) -> (r: &'static str)
        ensures
            r@ == (if rebase { "Rebasing"@ } else { "Merging"@ }),
    {
        if rebase {
            "Rebasing"
        } else {
            "Merging"
        }
    }

    /// The exit code of a pull: a pipeline missing on the remote is
    /// reported with this message and exits with 1; other failures are
    /// errors.
    pub fn pull_outcome(pipeline: &str, pulled: DeliveryResult<()>) -> (r: DeliveryResult<(i32, Option<String>)>)
        ensures
            match pulled {
                Ok(_) => r matches Ok(x) && x.0 == 0 && x.1 is None,
                Err(e) => if e.kind is BranchNotFoundOnDeliveryRemote {
                    r matches Ok(x) && x.0 == 1 && (x.1 matches Some(m) && m@ == "A pipeline or branch named "@ + pipeline@
                        + " was not found on the delivery remote"@)
                } else {
                    r matches Err(x) && x == e
                },
            },
    {
        match pulled {
            Ok(_) => Ok((0, None)),
            Err(e) => match e.kind {
                Kind::BranchNotFoundOnDeliveryRemote => {
                    let mut m = crate::text::owned("A pipeline or branch named ");
                    m.append(pipeline);
                    m.append(" was not found on the delivery remote");
                    Ok((1, Some(m)))
                },
                _ => Err(e),
            },
        }
    }
}

} // verus!
