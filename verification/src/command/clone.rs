//! Cloning a project, and explaining why a clone failed.
use vstd::prelude::*;
use crate::config::{Config, ConfigView, projects_url_spec, ssh_url_spec, ui_url_spec, field, user_missing};
use crate::errors::{DeliveryError, DeliveryResult, Kind, fails_with, missing, opt_view, outcome};
use crate::path::{path_join, path_join_spec};
use crate::text::{contains, contains_seq, owned};

verus! {

/// What a clone is about: the Delivery git URL of the project, the URL
/// cloned from, and where the clone goes.
#[derive(Debug)]
pub struct ClonePlan {
    pub delivery_url: String,
    pub clone_url: String,
    pub project_root: String,
}

/// The message for a missing public SSH key.
pub open spec fn missing_key_msg(user: Seq<char>, link: Seq<char>) -> Seq<char> {
    "The configured user '"@ + user + "' does not have an ssh_pub_key.\nPlease login to the Automate server and configure your key at:\n\t"@ + link
}

/// The message for a project the server does not have.
pub open spec fn no_project_msg(link: Seq<char>) -> Seq<char> {
    "You can find the list of available projects at:\n\t"@ + link
}

/// The message for an action the user may not take.
pub open spec fn unauthorized_msg(link: Seq<char>) -> Seq<char> {
    "Contact an administrator to grant you with appropriate permissions at the following url:\n\t"@ + link
}

/// Cloning a project into the working directory.
pub struct CloneCommand<'n> {
    pub options: &'n crate::cli::CloneClapOptions,
    pub config: &'n crate::config::Config,
}

impl<'n> CloneCommand<'n> {
    /// What to clone, from where, to where: the given git URL, else the
    /// project's Delivery URL; into `project` under `cwd`.
    pub fn plan(config: &Config, project: &str, git_url: &str, cwd: &str) -> (r: DeliveryResult<ClonePlan>)
        ensures
            match ssh_url_spec(config@) {
                Err(m) => missing(r, m),
                Ok(u) => r matches Ok(p) && p.delivery_url@ == u && p.clone_url@ == (if git_url@.len() == 0 {
                    u
                } else {
                    git_url@
                }) && p.project_root@ == path_join_spec(cwd@, project@),
            },
    {
        let delivery_url = config.delivery_git_ssh_url()?;
        let project_root = path_join(cwd, project);
        let clone_url = if crate::config::is_empty(git_url) {
            delivery_url.clone()
        } else {
            owned(git_url)
        };
        Ok(ClonePlan { delivery_url, clone_url, project_root })
    }

    /// A clone may not go into an existing directory (`exists`).
    pub fn destination_check(project_root: &str, exists: bool) -> (r: DeliveryResult<()>)
        ensures
            !exists ==> r is Ok,
            exists ==> fails_with(r, Kind::CloneFailed, "The destination path '"@ + project_root@ + "' already exists."@),
    {
        if exists {
            let mut msg = owned("The destination path '");
            msg.append(project_root);
            msg.append("' already exists.");
            Err(DeliveryError::throw(Kind::CloneFailed, Some(msg)))
        } else {
            Ok(())
        }
    }

    /// After a failed clone: a user without a public SSH key (`has_key`)
    /// explains it.
    pub fn check_pub_key(config: &Config, has_key: bool) -> (r: DeliveryResult<()>)
        ensures
            has_key ==> r is Ok,
            !has_key ==> match ui_url_spec(config@, "#/users"@) {
                Err(m) => missing(r, m),
                Ok(link) => match field(config@.user, user_missing()) {
                    Err(m) => missing(r, m),
                    Ok(u) => fails_with(r, Kind::MissingSshPubKey, missing_key_msg(u, link)),
                },
            },
    {
        if has_key {
            return Ok(());
        }
        let link = config.users_url()?;
        let user = config.user()?;
        let mut msg = owned("The configured user '");
        msg.append(user.as_str());
        msg.append("' does not have an ssh_pub_key.\nPlease login to the Automate server and configure your key at:\n\t");
        msg.append(link.as_str());
        Err(DeliveryError::throw(Kind::MissingSshPubKey, Some(msg)))
    }

    /// After a failed clone: a project the server does not have
    /// (`exists`) explains it.
    pub fn check_project(config: &Config, project: &str, exists: bool) -> (r: DeliveryResult<()>)
        ensures
            exists ==> r is Ok,
            !exists ==> match projects_url_spec(config@) {
                Err(m) => missing(r, m),
                Ok(link) => r matches Err(e) && e.kind matches Kind::ProjectNotFound(p) && p@ == project@
                    && opt_view(e.detail) == Some(no_project_msg(link)),
            },
    {
        if exists {
            return Ok(());
        }
        let link = config.projects_url()?;
        let mut msg = owned("You can find the list of available projects at:\n\t");
        msg.append(link.as_str());
        Err(DeliveryError::throw(Kind::ProjectNotFound(owned(project)), Some(msg)))
    }

    /// After a failed clone that neither the key nor the project explains:
    /// git refusing the action means the user lacks permissions; anything
    /// else is the clone's own error.
    pub fn clone_error(config: &Config, e: DeliveryError) -> (r: DeliveryError)
        ensures
            match e.detail {
                Some(d) => if contains_seq(d@, "Unauthorized action"@) {
                    match ui_url_spec(config@, "#/users"@) {
                        Err(m) => r.kind is MissingConfig && opt_view(r.detail) == Some(m),
                        Ok(link) => r.kind is UnauthorizedAction && opt_view(r.detail) == Some(unauthorized_msg(link)),
                    }
                } else {
                    r == e
                },
                None => r == e,
            },
    {
        let unauthorized = match &e.detail {
            Some(d) => contains(d.as_str(), "Unauthorized action"),
            None => false,
        };
        if !unauthorized {
            return e;
        }
        match config.users_url() {
            Err(x) => x,
            Ok(link) => {
                let mut msg = owned("Contact an administrator to grant you with appropriate permissions at the following url:\n\t");
                msg.append(link.as_str());
                DeliveryError::throw(Kind::UnauthorizedAction, Some(msg))
            },
        }
    }
}

} // verus!
