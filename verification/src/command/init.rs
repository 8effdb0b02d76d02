//! Setting a project up for Delivery: the choices `init` makes between
//! its steps, and what it tells the user.
use vstd::prelude::*;
use crate::errors::{DeliveryError, DeliveryResult, Kind, fails_with};
use crate::http::{APIClient, bool_text};
use crate::path::{file_stem, file_stem_spec, path_join, path_join_spec};
use crate::project::{CustomCookbookSource, SourceCodeProvider, Type, fancy_name, scp_kind, scp_missing_msg};
use crate::text::{owned, trim, trim_seq};

verus! {

/// A message for the user: its colour and its text.
pub type Message = (String, String);

/// The view of a message.
pub open spec fn msg_view(m: Message) -> (Seq<char>, Seq<char>) {
    (m.0@, m.1@)
}

/// A message from its colour and text.
fn message(color: &str, text: String) -> (r: Message)
    ensures
        msg_view(r) == (color@, text@),
{
    (owned(color), text)
}

/// What the source code provider options ask for.
#[derive(Debug)]
pub enum ScpChoice {
    /// Both GitHub and Bitbucket were asked for.
    Conflict,
    /// A provider, or none (Delivery itself).
    Provider(Option<SourceCodeProvider>),
}

/// The message when both providers are asked for.
pub open spec fn scp_conflict_msg() -> Seq<char> {
    "\nPlease specify just one Source Code Provider: delivery (default), github or bitbucket."@
}

/// The message when a custom generator made no `config.json`.
pub open spec fn generator_without_config_msgs() -> (Seq<char>, Seq<char>) {
    (
        "\nYou used a custom build cookbook generator, but .delivery/config.json was not created."@,
        "Please update your generator to create a valid .delivery/config.json or pass in a custom config."@,
    )
}

/// The message when a project has no `config.json`.
pub open spec fn missing_config_msg() -> Seq<char> {
    "Missing .delivery/config.json file.\nPlease use a custom build cookbook generator that creates this file or pass in a custom config."@
}

/// The feature branch `init` commits to, and what it commits.
#[derive(Debug)]
pub struct InitBranchPlan {
    /// The branch.
    pub branch_name: String,
    /// Whether custom content is committed (and so must be reviewed).
    pub custom: bool,
    /// Whether the generated build cookbook (with a custom config) is
    /// committed.
    pub commit_build_cookbook: bool,
    /// Whether the custom config alone is committed.
    pub commit_config: bool,
}

/// The message when the project and the repository are named apart.
pub open spec fn name_mismatch_msg() -> Seq<char> {
    "\nTo match the project and the repository name you can:\n  1) Create a directory with the same name as the repository.\n  2) Clone or download the content of the repository inside.\n  3) Run the 'delivery init' command within the new directory."@
}

/// Setting a project up.
pub struct InitCommand<'n> {
    pub options: &'n crate::cli::InitClapOptions,
    pub config: &'n crate::config::Config,
}

impl<'n> InitCommand<'n> {
    /// The source code provider the options ask for, on `branch`: GitHub
    /// (with the organization, verifying SSL unless told not to),
    /// Bitbucket (with the project key, never verifying SSL), neither, or
    /// a conflict when both are given.
    pub fn choose_scp(github_org: &str, bitbucket_key: &str, repo_name: &str, branch: &str, no_v_ssl: bool) -> (r: DeliveryResult<ScpChoice>)
        ensures
            github_org@.len() > 0 && bitbucket_key@.len() > 0 ==> (r matches Ok(ScpChoice::Conflict)),
            github_org@.len() > 0 && bitbucket_key@.len() == 0 ==> (if repo_name@.len() == 0 || branch@.len() == 0 {
                fails_with(r, Kind::OptionConstraint, scp_missing_msg(Type::Github))
            } else {
                r matches Ok(ScpChoice::Provider(Some(p))) && p.kind == Type::Github && p.repo_name@ == repo_name@
                    && p.organization@ == github_org@ && p.branch@ == branch@ && p.verify_ssl == !no_v_ssl
            }),
            github_org@.len() == 0 && bitbucket_key@.len() > 0 ==> (if repo_name@.len() == 0 || branch@.len() == 0 {
                fails_with(r, Kind::OptionConstraint, scp_missing_msg(Type::Bitbucket))
            } else {
                r matches Ok(ScpChoice::Provider(Some(p))) && p.kind == Type::Bitbucket && p.repo_name@ == repo_name@
                    && p.organization@ == bitbucket_key@ && p.branch@ == branch@ && !p.verify_ssl
            }),
            github_org@.len() == 0 && bitbucket_key@.len() == 0 ==> (r matches Ok(ScpChoice::Provider(None))),
    {
        let has_github = !crate::config::is_empty(github_org);
        let has_bitbucket = !crate::config::is_empty(bitbucket_key);
        if has_github && has_bitbucket {
            return Ok(ScpChoice::Conflict);
        }
        proof {
            reveal_strlit("github");
            reveal_strlit("bitbucket");
            assert("bitbucket"@.len() != "github"@.len());
            assert(scp_kind("bitbucket"@) == Some(Type::Bitbucket));
            assert(scp_kind("github"@) == Some(Type::Github));
        }
        if has_github {
            match SourceCodeProvider::new("github", repo_name, github_org, branch, no_v_ssl) {
                Ok(p) => Ok(ScpChoice::Provider(Some(p))),
                Err(e) => Err(e),
            }
        } else if has_bitbucket {
            match SourceCodeProvider::new("bitbucket", repo_name, bitbucket_key, branch, true) {
                Ok(p) => Ok(ScpChoice::Provider(Some(p))),
                Err(e) => Err(e),
            }
        } else {
            Ok(ScpChoice::Provider(None))
        }
    }

    /// The message shown when both providers are asked for.
    pub fn scp_conflict_message() -> (r: Message)
        ensures
            msg_view(r) == ("red"@, scp_conflict_msg()),
    {
        message("red", owned("\nPlease specify just one Source Code Provider: delivery (default), github or bitbucket."))
    }

    /// What a missing `config.json` (`exists` is false) means: a custom
    /// generator that made none, without a custom config, ends `init` with
    /// exit code 1 and these messages; otherwise it is an error. `Ok(None)`
    /// when the file is there.
    pub fn config_file_check(exists: bool, custom_build_cookbook: bool, custom_config: bool) -> (r: DeliveryResult<Option<Vec<Message>>>)
        ensures
            exists ==> (r matches Ok(None)),
            !exists && custom_build_cookbook && !custom_config ==> (r matches Ok(Some(v)) && v@.len() == 2
                && msg_view(v@[0]) == ("red"@, generator_without_config_msgs().0)
                && msg_view(v@[1]) == ("red"@, generator_without_config_msgs().1)),
            !exists && !(custom_build_cookbook && !custom_config) ==> fails_with(r, Kind::MissingConfigFile, missing_config_msg()),
    {
        if exists {
            return Ok(None);
        }
        if custom_build_cookbook && !custom_config {
            let mut v: Vec<Message> = Vec::new();
            v.push(message("red", owned("\nYou used a custom build cookbook generator, but .delivery/config.json was not created.")));
            v.push(message("red", owned("Please update your generator to create a valid .delivery/config.json or pass in a custom config.")));
            Ok(Some(v))
        } else {
            Err(DeliveryError {
                kind: Kind::MissingConfigFile,
                detail: Some(owned("Missing .delivery/config.json file.\nPlease use a custom build cookbook generator that creates this file or pass in a custom config.")),
            })
        }
    }

    /// Where `init` commits: custom content (a generated custom build
    /// cookbook or a custom config) goes to `add-delivery-config` and is
    /// reviewed; otherwise a readme goes to `initialize-delivery-pipeline`.
    /// The build cookbook commit takes the config with it, so the config is
    /// committed alone only without a custom build cookbook.
    pub fn branch_plan(custom_build_cookbook: bool, custom_config: bool) -> (r: InitBranchPlan)
        ensures
            r.custom == (custom_build_cookbook || custom_config),
            r.branch_name@ == (if r.custom { "add-delivery-config"@ } else { "initialize-delivery-pipeline"@ }),
            r.commit_build_cookbook == custom_build_cookbook,
            r.commit_config == (custom_config && !custom_build_cookbook),
    {
        let custom = custom_build_cookbook || custom_config;
        InitBranchPlan {
            branch_name: owned(if custom { "add-delivery-config" } else { "initialize-delivery-pipeline" }),
            custom: custom,
            commit_build_cookbook: custom_build_cookbook,
            commit_config: custom_config && !custom_build_cookbook,
        }
    }

    /// The message that opens the commit step.
    pub fn commit_intro(custom: bool) -> (r: Message)
        ensures
            msg_view(r) == ("cyan"@, if custom {
                "Committing unmerged Delivery content and submitting for review..."@
            } else {
                "Creating and committing DELIVERY.md readme..."@
            }),
    {
        if custom {
            message("cyan", owned("Committing unmerged Delivery content and submitting for review..."))
        } else {
            message("cyan", owned("Creating and committing DELIVERY.md readme..."))
        }
    }

    /// The message after the feature branch step.
    pub fn feature_branch_message(created: bool, branch_name: &str) -> (r: Message)
        ensures
            msg_view(r) == (if created {
                ("green"@, "  Feature branch named '"@ + branch_name@ + "' created."@)
            } else {
                ("white"@, "  Skipping: A branch named '"@ + branch_name@ + "' already exists, switching to it."@)
            }),
    {
        if created {
            let mut t = owned("  Feature branch named '");
            t.append(branch_name);
            t.append("' created.");
            message("green", t)
        } else {
            let mut t = owned("  Skipping: A branch named '");
            t.append(branch_name);
            t.append("' already exists, switching to it.");
            message("white", t)
        }
    }

    /// The message after committing the build cookbook.
    pub fn build_cookbook_commit_message(committed: bool) -> (r: Message)
        ensures
            msg_view(r) == (if committed {
                ("green"@, "  Custom build cookbook committed to feature branch."@)
            } else {
                ("white"@, "  Skipping: Build cookbook was not modified, no need to commit."@)
            }),
    {
        if committed {
            message("green", owned("  Custom build cookbook committed to feature branch."))
        } else {
            message("white", owned("  Skipping: Build cookbook was not modified, no need to commit."))
        }
    }

    /// The message after committing the custom config.
    pub fn config_commit_message(committed: bool) -> (r: Message)
        ensures
            msg_view(r) == (if committed {
                ("green"@, "  Custom delivery config committed to feature branch."@)
            } else {
                ("white"@, "  Skipping: Delivery config was not modified, no need to commit."@)
            }),
    {
        if committed {
            message("green", owned("  Custom delivery config committed to feature branch."))
        } else {
            message("white", owned("  Skipping: Delivery config was not modified, no need to commit."))
        }
    }

    /// The readme step of `init` and what then needs review. Only when no
    /// custom content was made (`custom` false) is the readme considered:
    /// `DELIVERY.md` is created and committed exactly when it does not
    /// exist yet (`r.0`). The feature branch needs review (`r.1`) when
    /// custom content was committed or the readme was created.
    pub fn readme_step(custom: bool, readme_exists: bool) -> (r: (bool, bool))
        ensures
            r.0 == (!custom && !readme_exists),
            r.1 == (custom || r.0),
    {
        let create = !custom && !readme_exists;
        (create, custom || create)
    }

    /// The messages of the readme step; a new readme needs review.
    pub fn readme_messages(created: bool, branch_name: &str) -> (r: Vec<Message>)
        ensures
            created ==> r@.len() == 2 && msg_view(r@[0]) == ("green"@, "  DELIVERY.md created."@)
                && msg_view(r@[1]) == ("green"@, "  DELIVERY.md committed in branch '"@ + branch_name@ + "'."@),
            !created ==> r@.len() == 1 && msg_view(r@[0]) == ("white"@, "  Skipping: DELIVERY.md already exists, no need to create or commit."@),
    {
        let mut v: Vec<Message> = Vec::new();
        if created {
            v.push(message("green", owned("  DELIVERY.md created.")));
            let mut t = owned("  DELIVERY.md committed in branch '");
            t.append(branch_name);
            t.append("'.");
            v.push(message("green", t));
        } else {
            v.push(message("white", owned("  Skipping: DELIVERY.md already exists, no need to create or commit.")));
        }
        v
    }

    /// Whether to submit the feature branch for review, and what to say:
    /// never with `--local`, and only when something needs review.
    pub fn review_step(local: bool, review_needed: bool, branch_name: &str) -> (r: (bool, Message))
        ensures
            r.0 == (!local && review_needed),
            msg_view(r.1) == (if local {
                ("white"@, " Skipping:  You passed --local, skipping review submission."@)
            } else if review_needed {
                ("cyan"@, "Submitting feature branch '"@ + branch_name@ + "' for review..."@)
            } else {
                ("white"@, "  Skipping: All changes have already be submitted for review, skipping."@)
            }),
    {
        if local {
            (false, message("white", owned(" Skipping:  You passed --local, skipping review submission.")))
        } else if review_needed {
            let mut t = owned("Submitting feature branch '");
            t.append(branch_name);
            t.append("' for review...");
            (true, message("cyan", t))
        } else {
            (false, message("white", owned("  Skipping: All changes have already be submitted for review, skipping.")))
        }
    }

    /// The message after a review was submitted.
    pub fn review_submitted_message(scp: &Option<SourceCodeProvider>) -> (r: Message)
        ensures
            msg_view(r) == ("green"@, match scp {
                Some(s) => "  Review submitted to Delivery with "@ + fancy_name(s.kind) + " intergration enabled."@,
                None => "  Review submitted to Delivery."@,
            }),
    {
        match scp {
            Some(s) => {
                let mut t = owned("  Review submitted to Delivery with ");
                t.append(match s.kind {
                    Type::Github => "GitHub",
                    Type::Bitbucket => "Bitbucket",
                });
                t.append(" intergration enabled.");
                message("green", t)
            },
            None => message("green", owned("  Review submitted to Delivery.")),
        }
    }

    /// The path and payload that create the project on its provider.
    pub fn scp_project_request(scp: &SourceCodeProvider, org: &str, proj: &str) -> (r: (String, String))
        ensures
            scp.kind == Type::Github ==> r.0@ == "orgs/"@ + org@ + "/github-projects"@
                && r.1@ == "{\"name\":\""@ + proj@ + "\",\"scm\":{\"type\":\"github\",\"project\":\""@
                + scp.repo_name@ + "\",\"organization\":\""@ + scp.organization@ + "\",\"branch\":\""@
                + scp.branch@ + "\",\"verify_ssl\": "@ + bool_text(scp.verify_ssl) + "}}"@,
            scp.kind == Type::Bitbucket ==> r.0@ == "orgs/"@ + org@ + "/bitbucket-projects"@
                && r.1@ == "{\"name\":\""@ + proj@ + "\",\"scm\":{\"type\":\"bitbucket\",\"repo_name\":\""@
                + scp.repo_name@ + "\",\"project_key\":\""@ + scp.organization@ + "\",\"pipeline_branch\":\""@
                + scp.branch@ + "\"}}"@,
    {
        match scp.kind {
            Type::Bitbucket => APIClient::create_bitbucket_project_request(
                org,
                proj,
                scp.repo_name.as_str(),
                scp.organization.as_str(),
                scp.branch.as_str(),
            ),
            Type::Github => APIClient::create_github_project_request(
                org,
                proj,
                scp.repo_name.as_str(),
                scp.organization.as_str(),
                scp.branch.as_str(),
                scp.verify_ssl,
            ),
        }
    }

    /// The message after creating a provider-backed project; a conflict
    /// (`409`) means it exists already.
    pub fn scp_project_message(fancy: &str, proj: &str, status: u16) -> (r: Message)
        ensures
            msg_view(r) == (if status == 409 {
                ("white"@, "  Skipping: "@ + fancy@ + " backed Delivery project named "@ + proj@ + " already exists."@)
            } else {
                ("green"@, "  "@ + fancy@ + " backed Delivery project named "@ + proj@ + " created."@)
            }),
    {
        if status == 409 {
            let mut t = owned("  Skipping: ");
            t.append(fancy);
            t.append(" backed Delivery project named ");
            t.append(proj);
            t.append(" already exists.");
            message("white", t)
        } else {
            let mut t = owned("  ");
            t.append(fancy);
            t.append(" backed Delivery project named ");
            t.append(proj);
            t.append(" created.");
            message("green", t)
        }
    }

    /// The message after creating a Delivery project.
    pub fn delivery_project_message(created: bool, proj: &str) -> (r: Message)
        ensures
            msg_view(r) == (if created {
                ("green"@, "  Delivery project named "@ + proj@ + " was created."@)
            } else {
                ("white"@, "  Skipping: Delivery project named "@ + proj@ + " already exists."@)
            }),
    {
        if created {
            let mut t = owned("  Delivery project named ");
            t.append(proj);
            t.append(" was created.");
            message("green", t)
        } else {
            let mut t = owned("  Skipping: Delivery project named ");
            t.append(proj);
            t.append(" already exists.");
            message("white", t)
        }
    }

    /// The message after the initial push step.
    pub fn push_message(pushed: bool, pipeline: &str) -> (r: Message)
        ensures
            msg_view(r) == (if pushed {
                ("green"@, "  No git history found for pipeline "@ + pipeline@ + ", pushing local commits from branch "@ + pipeline@ + "."@)
            } else {
                ("white"@, "  Skipping: Found commits on remote for pipeline "@ + pipeline@ + ", not pushing local commits."@)
            }),
    {
        if pushed {
            let mut t = owned("  No git history found for pipeline ");
            t.append(pipeline);
            t.append(", pushing local commits from branch ");
            t.append(pipeline);
            t.append(".");
            message("green", t)
        } else {
            let mut t = owned("  Skipping: Found commits on remote for pipeline ");
            t.append(pipeline);
            t.append(", not pushing local commits.");
            message("white", t)
        }
    }

    /// The message after creating the pipeline.
    pub fn pipeline_message(created: bool, pipe: &str, proj: &str) -> (r: Message)
        ensures
            msg_view(r) == (if created {
                ("green"@, "  Created Delivery pipeline "@ + pipe@ + " for project "@ + proj@ + "."@)
            } else {
                ("white"@, "  Skipping: Delivery pipeline named "@ + pipe@ + " already exists for project "@ + proj@ + "."@)
            }),
    {
        if created {
            let mut t = owned("  Created Delivery pipeline ");
            t.append(pipe);
            t.append(" for project ");
            t.append(proj);
            t.append(".");
            message("green", t)
        } else {
            let mut t = owned("  Skipping: Delivery pipeline named ");
            t.append(pipe);
            t.append(" already exists for project ");
            t.append(proj);
            t.append(".");
            message("white", t)
        }
    }

    /// Where a custom generator is run from: its stem in the cache.
    pub fn custom_generator_path(generator: &str, cache_path: &str) -> (r: String)
        requires
            file_stem_spec(generator@) is Some,
        ensures
            r@ == path_join_spec(cache_path@, file_stem_spec(generator@)->0),
    {
        match file_stem(generator) {
            Some(s) => path_join(cache_path, s.as_str()),
            None => owned(cache_path),
        }
    }

    /// The message that says where the custom generator came from.
    pub fn generator_source_message(source: CustomCookbookSource, generator: &str) -> (r: Message)
        ensures
            msg_view(r) == (match source {
                CustomCookbookSource::Disk => ("green"@, "  Copying custom build cookbook generator to the cache."@),
                CustomCookbookSource::Cached => ("white"@, "  Skipping: Using cached copy of custom build cookbook generator."@),
                CustomCookbookSource::Git => ("green"@, "  Downloading build_cookbook generator from "@ + generator@ + "."@),
            }),
    {
        match source {
            CustomCookbookSource::Disk => message("green", owned("  Copying custom build cookbook generator to the cache.")),
            CustomCookbookSource::Cached => message("white", owned("  Skipping: Using cached copy of custom build cookbook generator.")),
            CustomCookbookSource::Git => {
                let mut t = owned("  Downloading build_cookbook generator from ");
                t.append(generator);
                t.append(".");
                message("green", t)
            },
        }
    }

    /// The message after copying a custom config, which counts as passed
    /// only when it changed `.delivery/config.json`.
    pub fn config_copy_message(copied: bool, json: &str) -> (r: Message)
        ensures
            msg_view(r) == (if copied {
                ("green"@, "  Custom Delivery config copied from "@ + json@ + " to .delivery/config.json."@)
            } else {
                ("white"@, "  Skipped: Content of custom config passed from "@ + json@ + " exactly matches existing .delivery/config.json."@)
            }),
    {
        if copied {
            let mut t = owned("  Custom Delivery config copied from ");
            t.append(json);
            t.append(" to .delivery/config.json.");
            message("green", t)
        } else {
            let mut t = owned("  Skipped: Content of custom config passed from ");
            t.append(json);
            t.append(" exactly matches existing .delivery/config.json.");
            message("white", t)
        }
    }

    /// The warning when the project and the repository are named apart.
    pub fn name_mismatch_warning(project_name: &str, repo_name: &str) -> (r: Message)
        ensures
            msg_view(r) == ("yellow"@, "WARN: This project will be named '"@ + project_name@ + "', but the repository name is '"@
                + repo_name@ + "'."@),
    {
        let mut t = owned("WARN: This project will be named '");
        t.append(project_name);
        t.append("', but the repository name is '");
        t.append(repo_name);
        t.append("'.");
        message("yellow", t)
    }

    /// The user's answer to going on with different names: only `y`
    /// (around whitespace) goes on.
    pub fn name_mismatch_answer(answer: &str) -> (r: DeliveryResult<()>)
        ensures
            trim_seq(answer@) == "y"@ ==> r is Ok,
            trim_seq(answer@) != "y"@ ==> fails_with(r, Kind::ProjectSCPNameMismatch, name_mismatch_msg()),
    {
        let a = trim(answer);
        if crate::text::str_eq(a.as_str(), "y") {
            Ok(())
        } else {
            Err(DeliveryError {
                kind: Kind::ProjectSCPNameMismatch,
                detail: Some(owned("\nTo match the project and the repository name you can:\n  1) Create a directory with the same name as the repository.\n  2) Clone or download the content of the repository inside.\n  3) Run the 'delivery init' command within the new directory.")),
            })
        }
    }
}

} // verus!
