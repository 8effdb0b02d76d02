//! A job's workspace on the build node: its directories, the build
//! cookbook it fetches, and the commands it runs.
use vstd::prelude::*;
use crate::config::{Config, ConfigView, ssh_url_spec};
use crate::delivery_config::{BuildCookbookLocation, DeliveryConfig, key_index, location_of, missing_field_msg, pair_views};
use crate::errors::{DeliveryError, DeliveryResult, Kind, fails_with, missing, outcome};
use crate::job::change::BuilderCompat;
use crate::job::dna::WorkspaceCompat;
use crate::path::{path_join, path_join_spec};
use crate::config::is_empty;
use crate::text::{join, join_seq, owned, split_char, split_seq, str_eq, views};

verus! {

/// The directories of a job's workspace.
#[derive(Debug)]
pub struct Workspace {
    pub root: String,
    pub chef: String,
    pub cache: String,
    pub repo: String,
    pub ssh_wrapper: String,
}

/// Whether a job runs as the unprivileged build user.
#[derive(Debug, Clone, Copy, PartialEq, Eq, Structural)]
pub enum Privilege {
    Drop,
    NoDrop,
}

/// A subdirectory of `p`.
pub open spec fn subdir(p: Seq<char>, name: Seq<char>) -> Seq<char> {
    path_join_spec(p, name)
}

/// The run list of a job: each phase of `phase_arg` (separated by single
/// spaces) as a recipe of the build cookbook, joined by commas.
pub open spec fn run_list_spec(bc_name: Seq<char>, phase_arg: Seq<char>) -> Seq<char> {
    join_seq(recipes_spec(bc_name, split_seq(phase_arg, ' ')), ","@)
}

/// Each phase as a recipe of the build cookbook `bc_name`.
pub open spec fn recipes_spec(bc_name: Seq<char>, phases: Seq<Seq<char>>) -> Seq<Seq<char>> {
    Seq::new(phases.len(), |i: int| bc_name + "::"@ + phases[i])
}

/// The `chef` configuration written for the local-mode runs.
pub open spec fn config_rb_text() -> Seq<char> {
    "\nfile_cache_path File.expand_path(File.join(File.dirname(__FILE__), '..', 'cache'))\ncache_type 'BasicFile'\ncache_options(:path => File.join(file_cache_path, 'checksums'))\ncookbook_path File.expand_path(File.join(File.dirname(__FILE__), 'cookbooks'))\nfile_backup_path File.expand_path(File.join(File.dirname(__FILE__), '..', 'cache', 'job-backup'))\nOhai::Config[:disabled_plugins] = [ :Passwd ]\nif ENV['DELIVERY_BUILD_SETUP'] == 'FALSE'\n  lockfile File.join(file_cache_path, 'chef-client-running.pid')\nelse\n  if File.exists?('/var/chef/cache/chef-client-running.pid')\n    lockfile '/var/chef/cache/chef-client-running.pid'\n  else\n    lockfile File.join(file_cache_path, 'chef-client-running.pid')\n  end\nend\n"@
}

/// How the build cookbook is put into the workspace.
#[derive(Debug)]
pub enum BuildCookbookPlan {
    /// Copied from this directory of the project.
    CopyFrom(String),
    /// Cloned from this git URL, at this branch.
    GitClone(String, String),
    /// Downloaded by name from this Supermarket site.
    Supermarket(String, String),
    /// Downloaded by name from the Chef server.
    ChefServer(String),
    /// Cloned from this project on the Workflow server.
    WorkflowClone(String),
}

/// The value of a build cookbook setting, if set.
pub open spec fn bc_value(c: DeliveryConfig, key: Seq<char>) -> Option<Seq<char>> {
    match key_index(pair_views(c.build_cookbook@), key) {
        Some(i) => Some(c.build_cookbook@[i].1@),
        None => None,
    }
}

/// The configuration used to reach a build cookbook kept on the Workflow
/// server: the enterprise, organization and project of the cookbook.
pub open spec fn workflow_config(t: ConfigView, ent: Seq<char>, org: Seq<char>, name: Seq<char>) -> ConfigView {
    ConfigView {
        enterprise: if ent.len() == 0 { t.enterprise } else { Some(ent) },
        organization: if org.len() == 0 { t.organization } else { Some(org) },
        project: if name.len() == 0 { t.project } else { Some(name) },
        ..t
    }
}

/// A missing build cookbook setting.
pub open spec fn field_missing<T>(r: DeliveryResult<T>, key: Seq<char>) -> bool {
    fails_with(r, Kind::MissingBuildCookbookField, missing_field_msg(key))
}

/// The plan for a build cookbook at `loc`, from the settings of `config`
/// (read in the order named below) and, for a Workflow project, the
/// configuration `toml`: a missing setting is an error, and so is a
/// Workflow URL that cannot be made.
pub open spec fn plan_outcome(r: DeliveryResult<BuildCookbookPlan>, repo: Seq<char>, config: DeliveryConfig, toml: ConfigView, loc: BuildCookbookLocation) -> bool {
    match loc {
        BuildCookbookLocation::Local => match bc_value(config, "path"@) {
            Some(v) => r matches Ok(BuildCookbookPlan::CopyFrom(p)) && p@ == subdir(repo, v),
            None => field_missing(r, "path"@),
        },
        BuildCookbookLocation::Git => match bc_value(config, "git"@) {
            Some(u) => r matches Ok(BuildCookbookPlan::GitClone(x, b)) && x@ == u && b@ == (match bc_value(config, "branch"@) {
                Some(y) => y,
                None => "master"@,
            }),
            None => field_missing(r, "git"@),
        },
        BuildCookbookLocation::Supermarket => match bc_value(config, "name"@) {
            Some(n) => r matches Ok(BuildCookbookPlan::Supermarket(x, st)) && x@ == n && st@ == (match bc_value(config, "site"@) {
                Some(y) => y,
                None => "https://supermarket.chef.io"@,
            }),
            None => field_missing(r, "name"@),
        },
        BuildCookbookLocation::ChefServer => match bc_value(config, "name"@) {
            Some(n) => r matches Ok(BuildCookbookPlan::ChefServer(x)) && x@ == n,
            None => field_missing(r, "name"@),
        },
        BuildCookbookLocation::Workflow => match bc_value(config, "name"@) {
            None => field_missing(r, "name"@),
            Some(n) => match bc_value(config, "enterprise"@) {
                None => field_missing(r, "enterprise"@),
                Some(e) => match bc_value(config, "organization"@) {
                    None => field_missing(r, "organization"@),
                    Some(o) => match ssh_url_spec(workflow_config(toml, e, o, n)) {
                        Ok(u) => r matches Ok(BuildCookbookPlan::WorkflowClone(x)) && x@ == u,
                        Err(m) => missing(r, m),
                    },
                },
            },
        },
    }
}

impl Workspace {
    /// The workspace under `root`.
    pub fn new(root: &str) -> (r: Workspace)
        ensures
            r.root@ == root@,
            r.chef@ == subdir(root@, "chef"@),
            r.cache@ == subdir(root@, "cache"@),
            r.repo@ == subdir(root@, "repo"@),
            r.ssh_wrapper@ == subdir(subdir(root@, "bin"@), "git_ssh"@),
    {
        let bin = path_join(root, "bin");
        Workspace {
            root: owned(root),
            chef: path_join(root, "chef"),
            cache: path_join(root, "cache"),
            repo: path_join(root, "repo"),
            ssh_wrapper: path_join(bin.as_str(), "git_ssh"),
        }
    }

    /// The directories that building the workspace creates, in order,
    /// once the chef nodes are cleaned.
    pub fn build(&self) -> (r: Vec<String>)
        ensures
            views(r@) == seq![
                self.root@,
                subdir(self.chef@, "nodes"@),
                subdir(self.chef@, "cookbooks"@),
                self.cache@,
                self.repo@,
            ],
    {
        let mut r: Vec<String> = Vec::new();
        r.push(self.root.clone());
        r.push(path_join(self.chef.as_str(), "nodes"));
        r.push(path_join(self.chef.as_str(), "cookbooks"));
        r.push(self.cache.clone());
        r.push(self.repo.clone());
        assert(views(r@) =~= seq![
            self.root@,
            subdir(self.chef@, "nodes"@),
            subdir(self.chef@, "cookbooks"@),
            self.cache@,
            self.repo@,
        ]);
        r
    }

    /// The directory cleaned before each job, so that old node attributes
    /// do not mix with the new change's.
    pub fn clean_chef_nodes(&self) -> (r: String)
        ensures
            r@ == subdir(self.chef@, "nodes"@),
    {
        path_join(self.chef.as_str(), "nodes")
    }

    /// The owner and the directories handed to the build user when
    /// privileges are dropped.
    pub fn set_drop_permissions(&self) -> (r: (String, Vec<String>))
        ensures
            r.0@ == "dbuild:dbuild"@,
            views(r.1@) == seq![self.repo@, subdir(self.chef@, "cookbooks"@), subdir(self.chef@, "nodes"@), self.cache@],
    {
        let mut v: Vec<String> = Vec::new();
        v.push(self.repo.clone());
        v.push(path_join(self.chef.as_str(), "cookbooks"));
        v.push(path_join(self.chef.as_str(), "nodes"));
        v.push(self.cache.clone());
        assert(views(v@) =~= seq![self.repo@, subdir(self.chef@, "cookbooks"@), subdir(self.chef@, "nodes"@), self.cache@]);
        (owned("dbuild:dbuild"), v)
    }

    /// The workspace as the build cookbook sees it.
    pub fn workspace_compat(&self) -> (r: WorkspaceCompat)
        ensures
            r.root@ == self.root@,
            r.chef@ == self.chef@,
            r.cache@ == self.cache@,
            r.repo@ == self.repo@,
            r.ssh_wrapper@ == self.ssh_wrapper@,
    {
        WorkspaceCompat {
            root: self.root.clone(),
            chef: self.chef.clone(),
            cache: self.cache.clone(),
            repo: self.repo.clone(),
            ssh_wrapper: self.ssh_wrapper.clone(),
        }
    }

    /// The workspace in the shape older build cookbooks read.
    pub fn builder_compat(&self) -> (r: BuilderCompat)
        ensures
            r.workspace@ == self.root@,
            r.repo@ == self.repo@,
            r.cache@ == self.cache@,
            r.build_id@ == "deprecated"@,
            r.build_user@ == "dbuild"@,
    {
        BuilderCompat {
            workspace: self.root.clone(),
            repo: self.repo.clone(),
            cache: self.cache.clone(),
            build_id: owned("deprecated"),
            build_user: owned("dbuild"),
        }
    }

    /// The `chef` configuration of the local-mode runs.
    pub fn config_rb() -> (r: &'static str)
        ensures
            r@ == config_rb_text(),
    {
        "\nfile_cache_path File.expand_path(File.join(File.dirname(__FILE__), '..', 'cache'))\ncache_type 'BasicFile'\ncache_options(:path => File.join(file_cache_path, 'checksums'))\ncookbook_path File.expand_path(File.join(File.dirname(__FILE__), 'cookbooks'))\nfile_backup_path File.expand_path(File.join(File.dirname(__FILE__), '..', 'cache', 'job-backup'))\nOhai::Config[:disabled_plugins] = [ :Passwd ]\nif ENV['DELIVERY_BUILD_SETUP'] == 'FALSE'\n  lockfile File.join(file_cache_path, 'chef-client-running.pid')\nelse\n  if File.exists?('/var/chef/cache/chef-client-running.pid')\n    lockfile '/var/chef/cache/chef-client-running.pid'\n  else\n    lockfile File.join(file_cache_path, 'chef-client-running.pid')\n  end\nend\n"
    }

    /// The run list of a job: each phase of `phase_arg` as a recipe of the
    /// build cookbook `bc_name`.
    pub fn run_list(bc_name: &str, phase_arg: &str) -> (r: String)
        ensures
            r@ == run_list_spec(bc_name@, phase_arg@),
    {
        let phases = split_char(phase_arg, ' ');
        let mut recipes: Vec<String> = Vec::new();
        let mut i: usize = 0;
        while i < phases.len()
            invariant
                i <= phases@.len(),
                views(phases@) == split_seq(phase_arg@, ' '),
                recipes@.len() == i,
                views(recipes@) == recipes_spec(bc_name@, views(phases@).subrange(0, i as int)),
            decreases phases.len() - i,
        {
            let ghost before = recipes@;
            let mut r = owned(bc_name);
            r.append("::");
            r.append(phases[i].as_str());
            let ghost rv = r@;
            assert(rv == bc_name@ + "::"@ + phases@[i as int]@);
            recipes.push(r);
            proof {
                let want = recipes_spec(bc_name@, views(phases@).subrange(0, i + 1));
                assert(recipes@.len() == i + 1);
                assert(views(recipes@)[i as int] == rv);
                assert forall|k: int| 0 <= k < recipes@.len() implies views(recipes@)[k] == want[k] by {
                    if k < i {
                        assert(recipes@[k] == before[k]);
                        assert(views(before)[k] == recipes_spec(bc_name@, views(phases@).subrange(0, i as int))[k]);
                    }
                }
                assert(views(recipes@) =~= want);
            }
            i = i + 1;
        }
        assert(views(phases@).subrange(0, phases@.len() as int) == views(phases@));
        join(&recipes, ",")
    }

    /// The arguments and environment of the `chef-client` run of a job.
    /// Dropping privileges runs it as the build user; a job for a change
    /// on the build node (not local) gets the cache as `HOME`; the
    /// `default` phase sets the build node up.
    pub fn job_command(&self, phase_arg: &str, bc_name: &str, drop_privilege: Privilege, local_change: bool) -> (r: (Vec<String>, Vec<(String, String)>))
        ensures
            views(r.0@) == seq!["-z"@, "--force-formatter"@] + (if drop_privilege == Privilege::Drop {
                seq!["--user"@, "dbuild"@, "--group"@, "dbuild"@]
            } else {
                Seq::empty()
            }) + seq![
                "-j"@,
                subdir(self.chef@, "dna.json"@),
                "-c"@,
                subdir(self.chef@, "config.rb"@),
                "-r"@,
                run_list_spec(bc_name@, phase_arg@),
            ],
            r.1@.map_values(|e: (String, String)| (e.0@, e.1@)) == (if local_change {
                Seq::empty()
            } else {
                seq![("HOME"@, self.cache@)]
            }) + seq![("DELIVERY_BUILD_SETUP"@, if phase_arg@ == "default"@ { "TRUE"@ } else { "FALSE"@ })],
    {
        let mut args: Vec<String> = Vec::new();
        args.push(owned("-z"));
        args.push(owned("--force-formatter"));
        let ghost head = views(args@);
        let drop = match drop_privilege {
            Privilege::Drop => true,
            Privilege::NoDrop => false,
        };
        if drop {
            args.push(owned("--user"));
            args.push(owned("dbuild"));
            args.push(owned("--group"));
            args.push(owned("dbuild"));
        }
        let ghost mid = views(args@);
        args.push(owned("-j"));
        args.push(path_join(self.chef.as_str(), "dna.json"));
        args.push(owned("-c"));
        args.push(path_join(self.chef.as_str(), "config.rb"));
        args.push(owned("-r"));
        args.push(Workspace::run_list(bc_name, phase_arg));
        assert(views(args@) =~= seq!["-z"@, "--force-formatter"@] + (if drop_privilege == Privilege::Drop {
            seq!["--user"@, "dbuild"@, "--group"@, "dbuild"@]
        } else {
            Seq::empty()
        }) + seq![
            "-j"@,
            subdir(self.chef@, "dna.json"@),
            "-c"@,
            subdir(self.chef@, "config.rb"@),
            "-r"@,
            run_list_spec(bc_name@, phase_arg@),
        ]);
        let mut env: Vec<(String, String)> = Vec::new();
        if !local_change {
            env.push((owned("HOME"), self.cache.clone()));
        }
        let setup = if str_eq(phase_arg, "default") {
            "TRUE"
        } else {
            "FALSE"
        };
        env.push((owned("DELIVERY_BUILD_SETUP"), owned(setup)));
        assert(env@.map_values(|e: (String, String)| (e.0@, e.1@)) =~= (if local_change {
            Seq::empty()
        } else {
            seq![("HOME"@, self.cache@)]
        }) + seq![("DELIVERY_BUILD_SETUP"@, if phase_arg@ == "default"@ { "TRUE"@ } else { "FALSE"@ })]);
        (args, env)
    }

    /// The `git` commands, in order, that put a change into the repo:
    /// clone unless the repo exists (`has_git_dir`), fetch, reset and
    /// clean, check the pipeline branch out and reset it to the remote;
    /// then merge the change's branch, or reset to `sha` when one is given.
    pub fn setup_repo_for_change(&self, git_url: &str, change_branch: &str, pipeline: &str, sha: &str, has_git_dir: bool) -> (r: Vec<Vec<String>>)
        ensures
            r@.map_values(|c: Vec<String>| views(c@)) == (if has_git_dir {
                Seq::empty()
            } else {
                seq![seq!["clone"@, git_url@, "."@]]
            }) + seq![
                seq!["fetch"@, "origin"@],
                seq!["reset"@, "--hard"@, "HEAD"@],
                seq!["clean"@, "-x"@, "-f"@, "-d"@, "-q"@],
                seq!["checkout"@, pipeline@],
                seq!["reset"@, "--hard"@, "remotes/origin/"@ + pipeline@],
                seq!["clean"@, "-x"@, "-f"@, "-d"@, "-q"@],
            ] + (if sha@.len() == 0 {
                seq![
                    seq!["fetch"@, "origin"@, change_branch@],
                    seq!["merge"@, "--strategy"@, "resolve"@, "FETCH_HEAD"@],
                ]
            } else {
                seq![seq!["reset"@, "--hard"@, sha@], seq!["clean"@, "-x"@, "-f"@, "-d"@, "-q"@]]
            }),
    {
        let mut cmds: Vec<Vec<String>> = Vec::new();
        if !has_git_dir {
            cmds.push(args3("clone", git_url, "."));
        }
        cmds.push(args2("fetch", "origin"));
        cmds.push(args3("reset", "--hard", "HEAD"));
        cmds.push(clean_args());
        cmds.push(args2("checkout", pipeline));
        let mut remote = owned("remotes/origin/");
        remote.append(pipeline);
        cmds.push(args3("reset", "--hard", remote.as_str()));
        cmds.push(clean_args());
        if is_empty(sha) {
            cmds.push(args3("fetch", "origin", change_branch));
            let mut m: Vec<String> = Vec::new();
            m.push(owned("merge"));
            m.push(owned("--strategy"));
            m.push(owned("resolve"));
            m.push(owned("FETCH_HEAD"));
            assert(views(m@) =~= seq!["merge"@, "--strategy"@, "resolve"@, "FETCH_HEAD"@]);
            cmds.push(m);
        } else {
            cmds.push(args3("reset", "--hard", sha));
            cmds.push(clean_args());
        }
        assert(cmds@.map_values(|c: Vec<String>| views(c@)) =~= (if has_git_dir {
            Seq::empty()
        } else {
            seq![seq!["clone"@, git_url@, "."@]]
        }) + seq![
            seq!["fetch"@, "origin"@],
            seq!["reset"@, "--hard"@, "HEAD"@],
            seq!["clean"@, "-x"@, "-f"@, "-d"@, "-q"@],
            seq!["checkout"@, pipeline@],
            seq!["reset"@, "--hard"@, "remotes/origin/"@ + pipeline@],
            seq!["clean"@, "-x"@, "-f"@, "-d"@, "-q"@],
        ] + (if sha@.len() == 0 {
            seq![
                seq!["fetch"@, "origin"@, change_branch@],
                seq!["merge"@, "--strategy"@, "resolve"@, "FETCH_HEAD"@],
            ]
        } else {
            seq![seq!["reset"@, "--hard"@, sha@], seq!["clean"@, "-x"@, "-f"@, "-d"@, "-q"@]]
        }));
        cmds
    }

    /// How the build cookbook is put into the workspace, from where the
    /// project's configuration says it is: a directory of the project, a
    /// git repository (branch `master` unless set), a Supermarket site
    /// (the public one unless set), the Chef server, or a project on the
    /// Workflow server.
    pub fn build_cookbook_plan(&self, config: &DeliveryConfig, toml_config: &Config) -> (r: DeliveryResult<BuildCookbookPlan>)
        ensures
            (forall|i: int| 0 <= i < config.build_cookbook@.len() ==> location_of(#[trigger] config.build_cookbook@[i].0@) is None)
                ==> (r matches Err(e) && e.kind is NoValidBuildCookbook && e.detail is None),
            forall|i: int| 0 <= i < config.build_cookbook@.len() && #[trigger] location_of(config.build_cookbook@[i].0@) is Some
                && (forall|j: int| 0 <= j < i ==> location_of(#[trigger] config.build_cookbook@[j].0@) is None)
                ==> plan_outcome(r, self.repo@, *config, toml_config@, location_of(config.build_cookbook@[i].0@)->0),
    {
        let loc = config.build_cookbook_location()?;
        match loc {
            BuildCookbookLocation::Local => {
                let p = config.build_cookbook_get("path")?;
                Ok(BuildCookbookPlan::CopyFrom(path_join(self.repo.as_str(), p.as_str())))
            },
            BuildCookbookLocation::Git => {
                let url = config.build_cookbook_get("git")?;
                let branch = match config.build_cookbook_get("branch") {
                    Ok(b) => b,
                    Err(_) => owned("master"),
                };
                Ok(BuildCookbookPlan::GitClone(url, branch))
            },
            BuildCookbookLocation::Supermarket => {
                let name = config.build_cookbook_name()?;
                let site = match config.build_cookbook_get("site") {
                    Ok(s) => s,
                    Err(_) => owned("https://supermarket.chef.io"),
                };
                Ok(BuildCookbookPlan::Supermarket(name, site))
            },
            BuildCookbookLocation::Workflow => {
                let name = config.build_cookbook_name()?;
                let ent = config.build_cookbook_get("enterprise")?;
                let org = config.build_cookbook_get("organization")?;
                let c = toml_config.clone().set_enterprise(ent.as_str()).set_organization(org.as_str()).set_project(name.as_str());
                let url = c.delivery_git_ssh_url()?;
                Ok(BuildCookbookPlan::WorkflowClone(url))
            },
            BuildCookbookLocation::ChefServer => {
                let name = config.build_cookbook_name()?;
                Ok(BuildCookbookPlan::ChefServer(name))
            },
        }
    }
}

/// A program to run, with its arguments, in a directory.
#[derive(Debug)]
pub struct ExternalCommand {
    pub program: String,
    pub args: Vec<String>,
    pub dir: String,
}

/// The error of a helper command that failed: what was run, and what it
/// printed.
pub open spec fn failed_msg(what: Seq<char>, out: Seq<char>, err: Seq<char>) -> Seq<char> {
    "Failed '"@ + what + "'\nOUT: "@ + out + "\nERR: "@ + err
}

/// The error of a run whose output is shown as it is.
pub open spec fn output_msg(out: Seq<char>, err: Seq<char>) -> Seq<char> {
    "STDOUT: "@ + out + "\nSTDERR: "@ + err + "\n"@
}

/// An error of kind `kind` for a helper command that failed.
pub fn failed_command(kind: Kind, what: &str, out: &str, err: &str) -> (r: DeliveryError)
    ensures
        r.kind == kind,
        r.detail matches Some(d) && d@ == failed_msg(what@, out@, err@),
{
    let mut m = owned("Failed '");
    m.append(what);
    m.append("'\nOUT: ");
    m.append(out);
    m.append("\nERR: ");
    m.append(err);
    DeliveryError { kind: kind, detail: Some(m) }
}

/// An error of kind `kind` that shows what a run printed.
pub fn output_error(kind: Kind, out: &str, err: &str) -> (r: DeliveryError)
    ensures
        r.kind == kind,
        r.detail matches Some(d) && d@ == output_msg(out@, err@),
{
    let mut m = owned("STDOUT: ");
    m.append(out);
    m.append("\nSTDERR: ");
    m.append(err);
    m.append("\n");
    DeliveryError { kind: kind, detail: Some(m) }
}

/// How the build cookbook becomes the cookbooks `chef-client` runs.
#[derive(Debug)]
pub enum BerksPlan {
    /// Vendor its dependencies with Berkshelf.
    Vendor(ExternalCommand),
    /// Make this directory and move the cookbook into it.
    Move(String, ExternalCommand),
}

/// A command from a program name, argument list and directory.
fn command(program: &str, args: Vec<String>, dir: &str) -> (r: ExternalCommand)
    ensures
        r.program@ == program@,
        r.args@ == args@,
        r.dir@ == dir@,
{
    ExternalCommand { program: owned(program), args: args, dir: owned(dir) }
}

impl Workspace {
    /// The commands, in order, that fetch the build cookbook `name` from a
    /// Supermarket `site`: download its archive, unpack it, and move it
    /// into place.
    pub fn supermarket_commands(&self, name: &str, site: &str) -> (r: Vec<ExternalCommand>)
        ensures
            r@.len() == 3,
            r@[0].program@ == "knife"@ && r@[0].dir@ == self.root@ && views(r@[0].args@) == seq![
                "supermarket"@,
                "download"@,
                name@,
                "-m"@,
                site@,
                "-f"@,
                subdir(self.chef@, "build_cookbook.tgz"@),
            ],
            r@[1].program@ == "tar"@ && r@[1].dir@ == self.chef@ && views(r@[1].args@) == seq!["zxf"@, subdir(self.chef@, "build_cookbook.tgz"@)],
            r@[2].program@ == "mv"@ && r@[2].dir@ == self.chef@ && views(r@[2].args@) == seq![
                subdir(self.chef@, name@),
                subdir(self.chef@, "build_cookbook"@),
            ],
    {
        let tgz = path_join(self.chef.as_str(), "build_cookbook.tgz");
        let mut a: Vec<String> = Vec::new();
        a.push(owned("supermarket"));
        a.push(owned("download"));
        a.push(owned(name));
        a.push(owned("-m"));
        a.push(owned(site));
        a.push(owned("-f"));
        a.push(tgz.clone());
        assert(views(a@) =~= seq!["supermarket"@, "download"@, name@, "-m"@, site@, "-f"@, subdir(self.chef@, "build_cookbook.tgz"@)]);
        let mut t: Vec<String> = Vec::new();
        t.push(owned("zxf"));
        t.push(tgz);
        assert(views(t@) =~= seq!["zxf"@, subdir(self.chef@, "build_cookbook.tgz"@)]);
        let mut m: Vec<String> = Vec::new();
        m.push(path_join(self.chef.as_str(), name));
        m.push(path_join(self.chef.as_str(), "build_cookbook"));
        assert(views(m@) =~= seq![subdir(self.chef@, name@), subdir(self.chef@, "build_cookbook"@)]);
        let mut r: Vec<ExternalCommand> = Vec::new();
        r.push(command("knife", a, self.root.as_str()));
        r.push(command("tar", t, self.chef.as_str()));
        r.push(command("mv", m, self.chef.as_str()));
        r
    }

    /// The error when the `step`-th Supermarket command failed with this
    /// output.
    pub fn supermarket_failure(step: usize, out: &str, err: &str, site: &str) -> (r: DeliveryError)
        ensures
            step == 0 ==> (r.detail matches Some(d) && r.kind is SupermarketFailed && d@ == failed_msg(
                "knife supermarket download"@,
                out@,
                err@,
            ) + "\nSite: "@ + site@),
            step == 1 ==> (r.detail matches Some(d) && r.kind is TarFailed && d@ == failed_msg("tar zxf"@, out@, err@)),
            step > 1 ==> (r.detail matches Some(d) && r.kind is MoveFailed && d@ == failed_msg("mv"@, out@, err@)),
    {
        if step == 0 {
            let e = failed_command(Kind::SupermarketFailed, "knife supermarket download", out, err);
            let mut d = match e.detail {
                Some(d) => d,
                None => String::new(),
            };
            d.append("\nSite: ");
            d.append(site);
            DeliveryError { kind: Kind::SupermarketFailed, detail: Some(d) }
        } else if step == 1 {
            failed_command(Kind::TarFailed, "tar zxf", out, err)
        } else {
            failed_command(Kind::MoveFailed, "mv", out, err)
        }
    }

    /// The directory made first and the commands, in order, that fetch the
    /// build cookbook `name` from the Chef server and move it into place.
    pub fn chef_server_commands(&self, name: &str) -> (r: (String, Vec<ExternalCommand>))
        ensures
            r.0@ == subdir(self.chef@, "tmp_cookbook"@),
            r.1@.len() == 2,
            r.1@[0].program@ == "knife"@ && r.1@[0].dir@ == self.root@ && views(r.1@[0].args@) == seq![
                "download"@,
                "/cookbooks/"@ + name@,
                "--chef-repo-path"@,
                subdir(self.chef@, "tmp_cookbook"@),
            ],
            r.1@[1].program@ == "mv"@ && r.1@[1].dir@ == self.chef@ && views(r.1@[1].args@) == seq![
                subdir(subdir(subdir(self.chef@, "tmp_cookbook"@), "cookbooks"@), name@),
                subdir(self.chef@, "build_cookbook"@),
            ],
    {
        let tmp = path_join(self.chef.as_str(), "tmp_cookbook");
        let mut a: Vec<String> = Vec::new();
        a.push(owned("download"));
        let mut c = owned("/cookbooks/");
        c.append(name);
        a.push(c);
        a.push(owned("--chef-repo-path"));
        a.push(tmp.clone());
        assert(views(a@) =~= seq!["download"@, "/cookbooks/"@ + name@, "--chef-repo-path"@, subdir(self.chef@, "tmp_cookbook"@)]);
        let cbs = path_join(tmp.as_str(), "cookbooks");
        let mut m: Vec<String> = Vec::new();
        m.push(path_join(cbs.as_str(), name));
        m.push(path_join(self.chef.as_str(), "build_cookbook"));
        assert(views(m@) =~= seq![
            subdir(subdir(subdir(self.chef@, "tmp_cookbook"@), "cookbooks"@), name@),
            subdir(self.chef@, "build_cookbook"@),
        ]);
        let mut r: Vec<ExternalCommand> = Vec::new();
        r.push(command("knife", a, self.root.as_str()));
        r.push(command("mv", m, self.chef.as_str()));
        (tmp, r)
    }

    /// The error when the `step`-th Chef server command failed.
    pub fn chef_server_failure(step: usize, out: &str, err: &str) -> (r: DeliveryError)
        ensures
            step == 0 ==> (r.detail matches Some(d) && r.kind is ChefServerFailed && d@ == failed_msg(
                "knife cookbook download"@,
                out@,
                err@,
            )),
            step > 0 ==> (r.detail matches Some(d) && r.kind is MoveFailed && d@ == failed_msg("mv"@, out@, err@)),
    {
        if step == 0 {
            failed_command(Kind::ChefServerFailed, "knife cookbook download", out, err)
        } else {
            failed_command(Kind::MoveFailed, "mv", out, err)
        }
    }

    /// The Berkshelf file whose presence decides how cookbooks are made.
    pub fn berksfile_path(&self) -> (r: String)
        ensures
            r@ == subdir(subdir(self.chef@, "build_cookbook"@), "Berksfile"@),
    {
        let bc = path_join(self.chef.as_str(), "build_cookbook");
        path_join(bc.as_str(), "Berksfile")
    }

    /// How the cookbooks are made (after the old ones are removed): with a
    /// Berkshelf file, vendor the build cookbook's dependencies; without,
    /// move the build cookbook itself in, under its name.
    pub fn berks_plan(&self, bc_name: &str, has_berksfile: bool) -> (r: BerksPlan)
        ensures
            has_berksfile ==> (r matches BerksPlan::Vendor(c) && c.program@ == "berks"@ && c.dir@ == subdir(
                self.chef@,
                "build_cookbook"@,
            ) && views(c.args@) == seq!["vendor"@, subdir(self.chef@, "cookbooks"@)]),
            !has_berksfile ==> (r matches BerksPlan::Move(d, c) && d@ == subdir(self.chef@, "cookbooks"@) && c.program@
                == "mv"@ && c.dir@ == self.chef@ && views(c.args@) == seq![
                subdir(self.chef@, "build_cookbook"@),
                subdir(subdir(self.chef@, "cookbooks"@), bc_name@),
            ]),
    {
        let cookbooks = path_join(self.chef.as_str(), "cookbooks");
        let bc = path_join(self.chef.as_str(), "build_cookbook");
        if has_berksfile {
            let mut a: Vec<String> = Vec::new();
            a.push(owned("vendor"));
            a.push(cookbooks);
            assert(views(a@) =~= seq!["vendor"@, subdir(self.chef@, "cookbooks"@)]);
            BerksPlan::Vendor(command("berks", a, bc.as_str()))
        } else {
            let mut a: Vec<String> = Vec::new();
            a.push(bc);
            a.push(path_join(cookbooks.as_str(), bc_name));
            assert(views(a@) =~= seq![subdir(self.chef@, "build_cookbook"@), subdir(subdir(self.chef@, "cookbooks"@), bc_name@)]);
            BerksPlan::Move(cookbooks, command("mv", a, self.chef.as_str()))
        }
    }

    /// The error when `berks vendor` could not be started.
    pub fn berks_start_failure(&self, reason: &str) -> (r: DeliveryError)
        ensures
            r.kind is FailedToExecute,
            r.detail matches Some(d) && d@ == "failed to execute 'berks vendor "@ + subdir(self.chef@, "cookbooks"@) + "' from '"@
                + subdir(self.chef@, "build_cookbook"@) + "': "@ + reason@,
    {
        let mut m = owned("failed to execute 'berks vendor ");
        let cookbooks = path_join(self.chef.as_str(), "cookbooks");
        m.append(cookbooks.as_str());
        m.append("' from '");
        let bc = path_join(self.chef.as_str(), "build_cookbook");
        m.append(bc.as_str());
        m.append("': ");
        m.append(reason);
        DeliveryError { kind: Kind::FailedToExecute, detail: Some(m) }
    }

    /// The error when `chef-client` could not be started.
    pub fn job_start_failure(reason: &str) -> (r: DeliveryError)
        ensures
            r.kind is FailedToExecute,
            r.detail matches Some(d) && d@ == "failed to execute chef-client: "@ + reason@,
    {
        let mut m = owned("failed to execute chef-client: ");
        m.append(reason);
        DeliveryError { kind: Kind::FailedToExecute, detail: Some(m) }
    }
}

/// A command's two arguments.
fn args2(a: &str, b: &str) -> (r: Vec<String>)
    ensures
        views(r@) == seq![a@, b@],
{
    let mut r: Vec<String> = Vec::new();
    r.push(owned(a));
    r.push(owned(b));
    assert(views(r@) =~= seq![a@, b@]);
    r
}

/// A command's three arguments.
fn args3(a: &str, b: &str, c: &str) -> (r: Vec<String>)
    ensures
        views(r@) == seq![a@, b@, c@],
{
    let mut r: Vec<String> = Vec::new();
    r.push(owned(a));
    r.push(owned(b));
    r.push(owned(c));
    assert(views(r@) =~= seq![a@, b@, c@]);
    r
}

/// The `git clean` that removes everything untracked.
fn clean_args() -> (r: Vec<String>)
    ensures
        views(r@) == seq!["clean"@, "-x"@, "-f"@, "-d"@, "-q"@],
{
    let mut r: Vec<String> = Vec::new();
    r.push(owned("clean"));
    r.push(owned("-x"));
    r.push(owned("-f"));
    r.push(owned("-d"));
    r.push(owned("-q"));
    assert(views(r@) =~= seq!["clean"@, "-x"@, "-f"@, "-d"@, "-q"@]);
    r
}

/// The runs of a job, in order: the `default` recipe first, which sets
/// the build node up with full privileges, when the process is privileged
/// and `--skip-default` is not given; then the phases, as the build user
/// when the process is privileged.
pub open spec fn job_runs_spec(phases: Seq<char>, skip_default: bool, privileged: bool) -> Seq<(Seq<char>, Privilege)> {
    (if privileged && !skip_default { seq![("default"@, Privilege::NoDrop)] } else { Seq::empty() })
        + seq![(phases, if privileged { Privilege::Drop } else { Privilege::NoDrop })]
}

/// The `chef-client` runs of a job (see `job_runs_spec`).
pub fn job_runs(phases: &str, skip_default: bool, privileged: bool) -> (r: Vec<(String, Privilege)>)
    ensures
        r@.map_values(|x: (String, Privilege)| (x.0@, x.1)) == job_runs_spec(phases@, skip_default, privileged),
{
    let mut runs: Vec<(String, Privilege)> = Vec::new();
    if privileged && !skip_default {
        runs.push((owned("default"), Privilege::NoDrop));
    }
    let drop = if privileged { Privilege::Drop } else { Privilege::NoDrop };
    runs.push((owned(phases), drop));
    assert(runs@.map_values(|x: (String, Privilege)| (x.0@, x.1)) =~= job_runs_spec(phases@, skip_default, privileged));
    runs
}

/// The review branch of a change at a patchset (`latest` when none is given).
pub open spec fn change_branch_spec(branch: Seq<char>, pipeline: Seq<char>, change: Seq<char>, patchset: Seq<char>) -> Seq<char> {
    if branch.len() > 0 {
        branch
    } else {
        "_reviews/"@ + pipeline + "/"@ + change + "/"@ + (if patchset.len() == 0 { "latest"@ } else { patchset })
    }
}

/// The branch a job merges into the pipeline: the one given, else the
/// change's review branch (see `change_branch_spec`).
pub fn change_branch(branch: &str, pipeline: &str, change: &str, patchset: &str) -> (r: String)
    ensures
        r@ == change_branch_spec(branch@, pipeline@, change@, patchset@),
{
    if !is_empty(branch) {
        return owned(branch);
    }
    let mut b = owned("_reviews/");
    b.append(pipeline);
    b.append("/");
    b.append(change);
    b.append("/");
    if is_empty(patchset) {
        b.append("latest");
    } else {
        b.append(patchset);
    }
    b
}

} // verus!
