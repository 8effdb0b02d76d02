//! The options of each subcommand, as parsed from the command line, and
//! their defaults.
use vstd::prelude::*;
use crate::delivery_config::project::{Phase, Stage};
use crate::text::{owned, views, str_eq};
use crate::matching::opt_views;
use crate::config::{Config, ConfigView, pick, ssh_url_spec};
use crate::errors::{DeliveryError, DeliveryResult, Kind, fails_with, missing, opt_view};

verus! {

/// The options of `api`.
#[derive(Debug)]
pub struct ApiClapOptions {
    pub method: String,
    pub path: String,
    pub data: String,
    pub server: String,
    pub api_port: String,
    pub ent: String,
    pub user: String,
}

impl Default for ApiClapOptions {
    fn default() -> (r: ApiClapOptions)
        ensures
            r.method@.len() == 0,
            r.path@.len() == 0,
            r.data@.len() == 0,
            r.server@.len() == 0,
            r.api_port@.len() == 0,
            r.ent@.len() == 0,
            r.user@.len() == 0,
    {
        ApiClapOptions {
            method: String::new(),
            path: String::new(),
            data: String::new(),
            server: String::new(),
            api_port: String::new(),
            ent: String::new(),
            user: String::new(),
        }
    }
}

/// The options of `checkout`.
#[derive(Debug)]
pub struct CheckoutClapOptions {
    pub pipeline: String,
    pub change: String,
    pub patchset: String,
    pub fips: bool,
    pub fips_git_port: String,
}

impl Default for CheckoutClapOptions {
    fn default() -> (r: CheckoutClapOptions)
        ensures
            r.pipeline@ == "master"@,
            r.change@.len() == 0,
            r.patchset@.len() == 0,
            r.fips == false,
            r.fips_git_port@.len() == 0,
    {
        CheckoutClapOptions {
            pipeline: owned("master"),
            change: String::new(),
            patchset: String::new(),
            fips: false,
            fips_git_port: String::new(),
        }
    }
}

/// The options of `clone`.
#[derive(Debug)]
pub struct CloneClapOptions {
    pub project: String,
    pub user: String,
    pub server: String,
    pub ent: String,
    pub org: String,
    pub git_url: String,
    pub fips: bool,
    pub fips_git_port: String,
    pub fips_custom_cert_filename: String,
    pub a2_mode: Option<bool>,
}

impl Default for CloneClapOptions {
    fn default() -> (r: CloneClapOptions)
        ensures
            r.project@.len() == 0,
            r.user@.len() == 0,
            r.server@.len() == 0,
            r.ent@.len() == 0,
            r.org@.len() == 0,
            r.git_url@.len() == 0,
            r.fips == false,
            r.fips_git_port@.len() == 0,
            r.fips_custom_cert_filename@.len() == 0,
            r.a2_mode is None,
    {
        CloneClapOptions {
            project: String::new(),
            user: String::new(),
            server: String::new(),
            ent: String::new(),
            org: String::new(),
            git_url: String::new(),
            fips: false,
            fips_git_port: String::new(),
            fips_custom_cert_filename: String::new(),
            a2_mode: None,
        }
    }
}

/// The options of `diff`.
#[derive(Debug)]
pub struct DiffClapOptions {
    pub change: String,
    pub patchset: String,
    pub pipeline: String,
    pub local: bool,
    pub fips: bool,
    pub fips_git_port: String,
    pub fips_custom_cert_filename: String,
}

impl Default for DiffClapOptions {
    fn default() -> (r: DiffClapOptions)
        ensures
            r.change@.len() == 0,
            r.patchset@.len() == 0,
            r.pipeline@ == "master"@,
            r.local == false,
            r.fips == false,
            r.fips_git_port@.len() == 0,
            r.fips_custom_cert_filename@.len() == 0,
    {
        DiffClapOptions {
            change: String::new(),
            patchset: String::new(),
            pipeline: owned("master"),
            local: false,
            fips: false,
            fips_git_port: String::new(),
            fips_custom_cert_filename: String::new(),
        }
    }
}

/// The options of `init`.
#[derive(Debug)]
pub struct InitClapOptions {
    pub user: String,
    pub server: String,
    pub ent: String,
    pub org: String,
    pub project: String,
    pub pipeline: String,
    pub config_json: String,
    pub generator: String,
    pub github_org_name: String,
    pub bitbucket_project_key: String,
    pub repo_name: String,
    pub no_v_ssl: bool,
    pub no_open: bool,
    pub skip_build_cookbook: bool,
    pub local: bool,
    pub fips: bool,
    pub fips_git_port: String,
    pub fips_custom_cert_filename: String,
    pub a2_mode: Option<bool>,
}

impl Default for InitClapOptions {
    fn default() -> (r: InitClapOptions)
        ensures
            r.user@.len() == 0,
            r.server@.len() == 0,
            r.ent@.len() == 0,
            r.org@.len() == 0,
            r.project@.len() == 0,
            r.pipeline@ == "master"@,
            r.config_json@.len() == 0,
            r.generator@.len() == 0,
            r.github_org_name@.len() == 0,
            r.bitbucket_project_key@.len() == 0,
            r.repo_name@.len() == 0,
            r.no_v_ssl == false,
            r.no_open == false,
            r.skip_build_cookbook == false,
            r.local == false,
            r.fips == false,
            r.fips_git_port@.len() == 0,
            r.fips_custom_cert_filename@.len() == 0,
            r.a2_mode is None,
    {
        InitClapOptions {
            user: String::new(),
            server: String::new(),
            ent: String::new(),
            org: String::new(),
            project: String::new(),
            pipeline: owned("master"),
            config_json: String::new(),
            generator: String::new(),
            github_org_name: String::new(),
            bitbucket_project_key: String::new(),
            repo_name: String::new(),
            no_v_ssl: false,
            no_open: false,
            skip_build_cookbook: false,
            local: false,
            fips: false,
            fips_git_port: String::new(),
            fips_custom_cert_filename: String::new(),
            a2_mode: None,
        }
    }
}

/// The options of `job`.
#[derive(Debug)]
pub struct JobClapOptions {
    pub stage: String,
    pub phases: String,
    pub change: String,
    pub pipeline: String,
    pub job_root: String,
    pub project: String,
    pub user: String,
    pub server: String,
    pub ent: String,
    pub org: String,
    pub patchset: String,
    pub change_id: String,
    pub git_url: String,
    pub shasum: String,
    pub branch: String,
    pub skip_default: bool,
    pub local: bool,
    pub docker_image: String,
    pub fips: bool,
    pub fips_git_port: String,
    pub fips_custom_cert_filename: String,
    pub a2_mode: Option<bool>,
}

impl Default for JobClapOptions {
    fn default() -> (r: JobClapOptions)
        ensures
            r.stage@.len() == 0,
            r.phases@.len() == 0,
            r.change@.len() == 0,
            r.pipeline@ == "master"@,
            r.job_root@.len() == 0,
            r.project@.len() == 0,
            r.user@.len() == 0,
            r.server@.len() == 0,
            r.ent@.len() == 0,
            r.org@.len() == 0,
            r.patchset@.len() == 0,
            r.change_id@.len() == 0,
            r.git_url@.len() == 0,
            r.shasum@.len() == 0,
            r.branch@.len() == 0,
            r.skip_default == false,
            r.local == false,
            r.docker_image@.len() == 0,
            r.fips == false,
            r.fips_git_port@.len() == 0,
            r.fips_custom_cert_filename@.len() == 0,
            r.a2_mode is None,
    {
        JobClapOptions {
            stage: String::new(),
            phases: String::new(),
            change: String::new(),
            pipeline: owned("master"),
            job_root: String::new(),
            project: String::new(),
            user: String::new(),
            server: String::new(),
            ent: String::new(),
            org: String::new(),
            patchset: String::new(),
            change_id: String::new(),
            git_url: String::new(),
            shasum: String::new(),
            branch: String::new(),
            skip_default: false,
            local: false,
            docker_image: String::new(),
            fips: false,
            fips_git_port: String::new(),
            fips_custom_cert_filename: String::new(),
            a2_mode: None,
        }
    }
}

/// The options of `pull`.
#[derive(Debug)]
pub struct PullClapOptions {
    pub pipeline: String,
    pub fips: bool,
    pub fips_git_port: String,
    pub rebase: bool,
}

impl Default for PullClapOptions {
    fn default() -> (r: PullClapOptions)
        ensures
            r.pipeline@.len() == 0,
            r.fips == false,
            r.fips_git_port@.len() == 0,
            r.rebase == false,
    {
        PullClapOptions {
            pipeline: String::new(),
            fips: false,
            fips_git_port: String::new(),
            rebase: false,
        }
    }
}

/// The options of `review`.
#[derive(Debug)]
pub struct ReviewClapOptions {
    pub pipeline: String,
    pub no_open: bool,
    pub auto_bump: bool,
    pub edit: bool,
    pub fips: bool,
    pub fips_git_port: String,
    pub fips_custom_cert_filename: String,
    pub user: String,
}

impl Default for ReviewClapOptions {
    fn default() -> (r: ReviewClapOptions)
        ensures
            r.pipeline@ == "master"@,
            r.no_open == false,
            r.auto_bump == false,
            r.edit == false,
            r.fips == false,
            r.fips_git_port@.len() == 0,
            r.fips_custom_cert_filename@.len() == 0,
            r.user@.len() == 0,
    {
        ReviewClapOptions {
            pipeline: owned("master"),
            no_open: false,
            auto_bump: false,
            edit: false,
            fips: false,
            fips_git_port: String::new(),
            fips_custom_cert_filename: String::new(),
            user: String::new(),
        }
    }
}

/// The options of `setup`.
#[derive(Debug)]
pub struct SetupClapOptions {
    pub user: String,
    pub server: String,
    pub ent: String,
    pub org: String,
    pub path: String,
    pub pipeline: String,
}

impl Default for SetupClapOptions {
    fn default() -> (r: SetupClapOptions)
        ensures
            r.user@.len() == 0,
            r.server@.len() == 0,
            r.ent@.len() == 0,
            r.org@.len() == 0,
            r.path@.len() == 0,
            r.pipeline@ == "master"@,
    {
        SetupClapOptions {
            user: String::new(),
            server: String::new(),
            ent: String::new(),
            org: String::new(),
            path: String::new(),
            pipeline: owned("master"),
        }
    }
}

/// The options of `status`.
#[derive(Debug)]
pub struct StatusClapOptions {
    pub api_port: String,
    pub json: bool,
    pub server: String,
}

impl Default for StatusClapOptions {
    fn default() -> (r: StatusClapOptions)
        ensures
            r.api_port@.len() == 0,
            r.json == false,
            r.server@.len() == 0,
    {
        StatusClapOptions {
            api_port: String::new(),
            json: false,
            server: String::new(),
        }
    }
}

/// The options of `local`: a phase, or a stage, and where the project
/// file is when it is not the project's own.
#[derive(Debug)]
pub struct LocalClapOptions {
    pub phase: Option<Phase>,
    pub stage: Option<Stage>,
    pub remote_toml: Option<String>,
}

/// The phase a `local` argument names.
pub open spec fn phase_named(s: Seq<char>) -> Option<Phase> {
    if s == "unit"@ {
        Some(Phase::Unit)
    } else if s == "lint"@ {
        Some(Phase::Lint)
    } else if s == "syntax"@ {
        Some(Phase::Syntax)
    } else if s == "provision"@ {
        Some(Phase::Provision)
    } else if s == "deploy"@ {
        Some(Phase::Deploy)
    } else if s == "smoke"@ {
        Some(Phase::Smoke)
    } else if s == "functional"@ {
        Some(Phase::Functional)
    } else if s == "cleanup"@ {
        Some(Phase::Cleanup)
    } else {
        None
    }
}

/// The stage a `local` argument names.
pub open spec fn stage_named(s: Seq<char>) -> Option<Stage> {
    if s == "verify"@ {
        Some(Stage::Verify)
    } else if s == "acceptance"@ {
        Some(Stage::Acceptance)
    } else if s == "all"@ {
        Some(Stage::All)
    } else {
        None
    }
}

impl LocalClapOptions {
    /// The options of `local` from its argument, a phase or a stage, and
    /// the URL of a remote project file (empty when none was given).
    pub fn new(stage_phase: &str, remote_project_toml: &str) -> (r: LocalClapOptions)
        ensures
            r.phase == phase_named(stage_phase@),
            r.stage == stage_named(stage_phase@),
            opt_view(r.remote_toml) == (if remote_project_toml@.len() == 0 { None } else { Some(remote_project_toml@) }),
    {
        let phase = if str_eq(stage_phase, "unit") {
            Some(Phase::Unit)
        } else if str_eq(stage_phase, "lint") {
            Some(Phase::Lint)
        } else if str_eq(stage_phase, "syntax") {
            Some(Phase::Syntax)
        } else if str_eq(stage_phase, "provision") {
            Some(Phase::Provision)
        } else if str_eq(stage_phase, "deploy") {
            Some(Phase::Deploy)
        } else if str_eq(stage_phase, "smoke") {
            Some(Phase::Smoke)
        } else if str_eq(stage_phase, "functional") {
            Some(Phase::Functional)
        } else if str_eq(stage_phase, "cleanup") {
            Some(Phase::Cleanup)
        } else {
            None
        };
        let stage = if str_eq(stage_phase, "verify") {
            Some(Stage::Verify)
        } else if str_eq(stage_phase, "acceptance") {
            Some(Stage::Acceptance)
        } else if str_eq(stage_phase, "all") {
            Some(Stage::All)
        } else {
            None
        };
        let remote_toml = if crate::config::is_empty(remote_project_toml) { None } else { Some(owned(remote_project_toml)) };
        LocalClapOptions { phase, stage, remote_toml }
    }
}

impl Default for LocalClapOptions {
    fn default() -> (r: LocalClapOptions)
        ensures
            r.phase is None,
            r.stage is None,
            r.remote_toml is None,
    {
        LocalClapOptions { phase: None, stage: None, remote_toml: None }
    }
}

/// The options of the spinner: how long it spins, in seconds.
#[derive(Debug)]
pub struct SpinClapOptions {
    pub time: u64,
}

impl Default for SpinClapOptions {
    fn default() -> (r: SpinClapOptions)
        ensures
            r.time == 5,
    {
        SpinClapOptions { time: 5 }
    }
}

/// An option value where one is required only for local jobs: outside
/// local mode, or when given, the value itself; else the default.
pub fn with_default<'a>(val: &'a str, default: &'a str, local: bool) -> (r: &'a str)
    ensures
        r@ == (if !local || val@.len() > 0 { val@ } else { default@ }),
{
    if !local || !crate::config::is_empty(val) {
        val
    } else {
        default
    }
}

/// The value of an option given by any of its names, taken in order:
/// the first value given, unless a later name gives one too after a value
/// that was not empty, which is an overlap (`None`).
pub open spec fn alias_value(vals: Seq<Option<Seq<char>>>) -> Option<Seq<char>>
    decreases vals.len(),
{
    if vals.len() == 0 {
        Some(Seq::empty())
    } else {
        match alias_value(vals.drop_last()) {
            None => None,
            Some(cur) => match vals.last() {
                Some(x) => if cur.len() > 0 { None } else { Some(x) },
                None => Some(cur),
            },
        }
    }
}

/// A value in hand that is not empty, or an overlap already found.
pub open spec fn settled(o: Option<Seq<char>>) -> bool {
    o is None || o->0.len() > 0
}

proof fn lemma_alias_step(vals: Seq<Option<Seq<char>>>, n: int)
    requires
        0 <= n < vals.len(),
    ensures
        alias_value(vals.take(n + 1)) == match alias_value(vals.take(n)) {
            None => None,
            Some(cur) => match vals[n] {
                Some(x) => if cur.len() > 0 { None } else { Some(x) },
                None => Some(cur),
            },
        },
{
    assert(vals.take(n + 1).drop_last() == vals.take(n));
}

/// Once settled, the value stays settled, and any later value is an overlap.
proof fn lemma_alias_settled(vals: Seq<Option<Seq<char>>>, n: int, m: int)
    requires
        0 <= n <= m <= vals.len(),
        settled(alias_value(vals.take(n))),
    ensures
        settled(alias_value(vals.take(m))),
        (exists|k: int| n <= k < m && #[trigger] vals[k] is Some) ==> alias_value(vals.take(m)) is None,
    decreases m - n,
{
    if n < m {
        lemma_alias_step(vals, n);
        lemma_alias_settled(vals, n + 1, m);
        if vals[n] is Some {
            assert(alias_value(vals.take(n + 1)) is None);
            assert(alias_value(vals.take(m)) is None) by {
                lemma_alias_none(vals, n + 1, m);
            }
        }
    }
}

/// An overlap stays an overlap.
proof fn lemma_alias_none(vals: Seq<Option<Seq<char>>>, n: int, m: int)
    requires
        0 <= n <= m <= vals.len(),
        alias_value(vals.take(n)) is None,
    ensures
        alias_value(vals.take(m)) is None,
    decreases m - n,
{
    if n < m {
        lemma_alias_step(vals, n);
        lemma_alias_none(vals, n + 1, m);
    }
}

/// Before any value, the value in hand is empty.
proof fn lemma_alias_nothing_yet(vals: Seq<Option<Seq<char>>>, n: int)
    requires
        0 <= n <= vals.len(),
        forall|k: int| 0 <= k < n ==> #[trigger] vals[k] is None,
    ensures
        alias_value(vals.take(n)) == Some(Seq::<char>::empty()),
    decreases n,
{
    if n > 0 {
        lemma_alias_nothing_yet(vals, n - 1);
        lemma_alias_step(vals, n - 1);
    }
}

/// An option given by exactly one of its names takes that name's value;
/// given by none, it is empty.
pub proof fn law_single_alias(vals: Seq<Option<Seq<char>>>, i: int)
    requires
        0 <= i < vals.len(),
        forall|j: int| 0 <= j < vals.len() && j != i ==> #[trigger] vals[j] is None,
    ensures
        alias_value(vals) == (match vals[i] {
            Some(x) => Some(x),
            None => Some(Seq::<char>::empty()),
        }),
{
    lemma_alias_nothing_yet(vals, i);
    lemma_alias_step(vals, i);
    assert forall|k: int| 0 <= k < vals.len() - (i + 1) implies #[trigger] vals.skip(i + 1)[k] is None by {
        assert(vals.skip(i + 1)[k] == vals[k + i + 1]);
    }
    lemma_alias_unchanged(vals, i + 1, vals.len() as int);
    assert(vals.take(vals.len() as int) == vals);
}

/// Names that give no value leave the value in hand as it is.
proof fn lemma_alias_unchanged(vals: Seq<Option<Seq<char>>>, n: int, m: int)
    requires
        0 <= n <= m <= vals.len(),
        forall|k: int| n <= k < m ==> #[trigger] vals[k] is None,
    ensures
        alias_value(vals.take(m)) == alias_value(vals.take(n)),
    decreases m - n,
{
    if n < m {
        lemma_alias_step(vals, n);
        lemma_alias_unchanged(vals, n + 1, m);
    }
}

/// An option given a value that is not empty under one name and any value
/// under a later alias is refused as an overlap.
pub proof fn law_two_aliases_refused(vals: Seq<Option<Seq<char>>>, i: int, j: int)
    requires
        0 <= i < j < vals.len(),
        vals[i] matches Some(x) && x.len() > 0,
        vals[j] is Some,
    ensures
        alias_value(vals) is None,
{
    lemma_alias_step(vals, i);
    match alias_value(vals.take(i)) {
        None => {
            lemma_alias_none(vals, i, i + 1);
        },
        Some(_) => {},
    }
    assert(settled(alias_value(vals.take(i + 1))));
    assert(vals[j] is Some);
    lemma_alias_settled(vals, i + 1, vals.len() as int);
    assert(vals.take(vals.len() as int) == vals);
}

/// The text `format!("{:?}", keys)` gives for a list of names.
pub uninterp spec fn debug_list(keys: Seq<Seq<char>>) -> Seq<char>;

/// The message of an overlap of aliases.
pub open spec fn alias_overlap_msg(keys: Seq<Seq<char>>) -> Seq<char> {
    "The arguments "@ + debug_list(keys) + " are aliases, please just pass one."@
}

/// Debug formatting (`{:?}`) of a list of strings, as std's `format!`
/// writes it: claimed to depend on the strings alone.
#[verifier::external_body]
fn debug_keys(keys: &Vec<String>) -> (r: String)
    ensures
        r@ == debug_list(views(keys@)),
{
    format!("{:?}", keys)
}

/// The value of an option that may be given by several names: `values`
/// holds, for each name in `keys`, the value given by it. Two values, the
/// first not empty, are an error; no value gives an empty string.
pub fn value_of(keys: &Vec<String>, values: &Vec<Option<String>>) -> (r: DeliveryResult<String>)
    ensures
        match alias_value(opt_views(values@)) {
            Some(v) => r matches Ok(x) && x@ == v,
            None => fails_with(r, Kind::ClapArgAliasOverlap, alias_overlap_msg(views(keys@))),
        },
{
    let mut value = String::new();
    let mut overlap = false;
    let mut i: usize = 0;
    while i < values.len()
        invariant
            i <= values@.len(),
            overlap ==> alias_value(opt_views(values@).subrange(0, i as int)) is None,
            !overlap ==> alias_value(opt_views(values@).subrange(0, i as int)) == Some(value@),
        decreases values.len() - i,
    {
        let ghost pre = opt_views(values@).subrange(0, i as int);
        assert(opt_views(values@).subrange(0, i + 1).drop_last() == pre);
        assert(opt_views(values@).subrange(0, i + 1).last() == opt_view(values@[i as int]));
        if !overlap {
            match &values[i] {
                Some(v) => {
                    if crate::config::is_empty(value.as_str()) {
                        value = v.clone();
                    } else {
                        overlap = true;
                    }
                },
                None => {},
            }
        }
        i = i + 1;
    }
    assert(opt_views(values@).subrange(0, values@.len() as int) == opt_views(values@));
    if overlap {
        let mut detail = owned("The arguments ");
        let listed = debug_keys(keys);
        detail.append(listed.as_str());
        detail.append(" are aliases, please just pass one.");
        Err(DeliveryError { kind: Kind::ClapArgAliasOverlap, detail: Some(detail) })
    } else {
        Ok(value)
    }
}

/// The names an option may be given by.
pub trait ClapAlias {
    /// The names.
    fn keys(&self) -> Vec<String>;
}

impl ClapAlias for String {
    fn keys(&self) -> (r: Vec<String>)
        ensures
            views(r@) == seq![self@],
    {
        let mut v: Vec<String> = Vec::new();
        v.push(self.clone());
        assert(views(v@) =~= seq![self@]);
        v
    }
}

impl ClapAlias for Vec<String> {
    fn keys(&self) -> (r: Vec<String>)
        ensures
            views(r@) == views(self@),
    {
        let mut v: Vec<String> = Vec::new();
        let mut i: usize = 0;
        while i < self.len()
            invariant
                i <= self@.len(),
                v@.len() == i,
                views(v@) == views(self@).subrange(0, i as int),
            decreases self.len() - i,
        {
            let ghost before = v@;
            let c = self[i].clone();
            assert(c@ == self@[i as int]@);
            v.push(c);
            assert(views(v@) =~= views(self@).subrange(0, i + 1)) by {
                assert(v@ == before.push(c));
                assert forall|k: int| 0 <= k < i implies views(v@)[k] == views(self@)[k] by {
                    assert(v@[k] == before[k]);
                    assert(views(before)[k] == views(self@).subrange(0, i as int)[k]);
                }
            }
            i = i + 1;
        }
        assert(views(self@).subrange(0, self@.len() as int) == views(self@));
        v
    }
}


/// A setting after an option that replaces it when given (not empty).
pub open spec fn with_option(o: Option<Seq<char>>, v: Seq<char>) -> Option<Seq<char>> {
    if v.len() == 0 { o } else { Some(v) }
}

/// The project setting, taken from the working directory when unset;
/// `cwd_project` is the project the working directory names, if any.
pub open spec fn filled_project(o: Option<Seq<char>>, cwd_project: Option<String>) -> Option<Seq<char>> {
    pick(opt_view(cwd_project), o)
}

/// The project of a command that needs one: the option when given, else
/// the working directory's, else a `NoGitConfig` error.
pub open spec fn required_project(proj: Seq<char>, cwd_project: Option<String>) -> Option<Seq<char>> {
    if proj.len() > 0 { Some(proj) } else { opt_view(cwd_project) }
}

/// The value of an option that only local jobs default.
pub open spec fn defaulted(val: Seq<char>, default: Seq<char>, local: bool) -> Seq<char> {
    if !local || val.len() > 0 { val } else { default }
}

/// `config` with the project filled from the working directory when unset.
fn fill_project(config: Config, cwd_project: &Option<String>) -> (r: Config)
    ensures
        r@ == (ConfigView { project: filled_project(config@.project, *cwd_project), ..config@ }),
{
    let mut c = config;
    match &c.project {
        Some(_) => {},
        None => {
            c.project = match cwd_project {
                Some(p) => Some(p.clone()),
                None => None,
            };
        },
    }
    c
}

/// The project a command that needs one runs on (see `required_project`).
fn require_project(proj: &str, cwd_project: &Option<String>) -> (r: DeliveryResult<String>)
    ensures
        match required_project(proj@, *cwd_project) {
            Some(p) => r matches Ok(x) && x@ == p,
            None => r matches Err(e) && e.kind is NoGitConfig && e.detail is None,
        },
{
    if !crate::config::is_empty(proj) {
        Ok(owned(proj))
    } else {
        match cwd_project {
            Some(p) => Ok(p.clone()),
            None => Err(DeliveryError { kind: Kind::NoGitConfig, detail: None }),
        }
    }
}

/// How a command's options change the configuration read from `cli.toml`
/// before the command runs.
pub trait InitCommand {
    /// The configuration the options make of `config`, given the project
    /// the working directory names, if any; `None` when the command needs a
    /// project and none is known.
    spec fn merged(&self, config: ConfigView, cwd_project: Option<String>) -> Option<ConfigView>;

    /// The configuration with the options applied (see `merged`); a missing
    /// project is a `NoGitConfig` error.
    fn merge_options_and_config(&self, config: Config, cwd_project: &Option<String>) -> (r: DeliveryResult<Config>)
        ensures
            match self.merged(config@, *cwd_project) {
                Some(v) => r matches Ok(c) && c@ == v,
                None => r matches Err(e) && e.kind is NoGitConfig && e.detail is None,
            };
}

impl InitCommand for CloneClapOptions {
    open spec fn merged(&self, config: ConfigView, cwd_project: Option<String>) -> Option<ConfigView> {
        Some(ConfigView {
            user: with_option(config.user, self.user@),
            server: with_option(config.server, self.server@),
            enterprise: with_option(config.enterprise, self.ent@),
            organization: with_option(config.organization, self.org@),
            project: filled_project(with_option(config.project, self.project@), cwd_project),
            a2_mode: pick(config.a2_mode, self.a2_mode),
            ..config
        })
    }

    fn merge_options_and_config(&self, config: Config, cwd_project: &Option<String>) -> (r: DeliveryResult<Config>) {
        let c = config.set_user(&self.user).set_server(&self.server).set_enterprise(&self.ent)
            .set_organization(&self.org).set_project(&self.project).set_a2_mode_if_def(self.a2_mode);
        Ok(fill_project(c, cwd_project))
    }
}

impl InitCommand for InitClapOptions {
    open spec fn merged(&self, config: ConfigView, cwd_project: Option<String>) -> Option<ConfigView> {
        match required_project(self.project@, cwd_project) {
            Some(p) => Some(ConfigView {
                user: with_option(config.user, self.user@),
                server: with_option(config.server, self.server@),
                enterprise: with_option(config.enterprise, self.ent@),
                organization: with_option(config.organization, self.org@),
                project: with_option(config.project, p),
                pipeline: with_option(config.pipeline, self.pipeline@),
                generator: with_option(config.generator, self.generator@),
                a2_mode: pick(config.a2_mode, self.a2_mode),
                config_json: with_option(config.config_json, self.config_json@),
                ..config
            }),
            None => None,
        }
    }

    fn merge_options_and_config(&self, config: Config, cwd_project: &Option<String>) -> (r: DeliveryResult<Config>) {
        let project = require_project(&self.project, cwd_project)?;
        let c = config.set_user(&self.user).set_server(&self.server).set_enterprise(&self.ent)
            .set_organization(&self.org).set_project(&project).set_pipeline(&self.pipeline)
            .set_generator(&self.generator).set_a2_mode_if_def(self.a2_mode).set_config_json(&self.config_json);
        Ok(c)
    }
}

impl InitCommand for JobClapOptions {
    open spec fn merged(&self, config: ConfigView, cwd_project: Option<String>) -> Option<ConfigView> {
        match required_project(self.project@, cwd_project) {
            Some(p) => Some(ConfigView {
                pipeline: with_option(config.pipeline, self.pipeline@),
                user: with_option(config.user, defaulted(self.user@, "you"@, self.local)),
                server: with_option(config.server, defaulted(self.server@, "localhost"@, self.local)),
                enterprise: with_option(config.enterprise, defaulted(self.ent@, "local"@, self.local)),
                organization: with_option(config.organization, defaulted(self.org@, "workstation"@, self.local)),
                project: with_option(config.project, p),
                a2_mode: pick(config.a2_mode, self.a2_mode),
                saml: if pick(config.a2_mode, self.a2_mode) == Some(true) { Some(true) } else { config.saml },
                ..config
            }),
            None => None,
        }
    }

    fn merge_options_and_config(&self, config: Config, cwd_project: &Option<String>) -> (r: DeliveryResult<Config>) {
        let project = require_project(&self.project, cwd_project)?;
        let mut c = config.set_pipeline(&self.pipeline)
            .set_user(with_default(&self.user, "you", self.local))
            .set_server(with_default(&self.server, "localhost", self.local))
            .set_enterprise(with_default(&self.ent, "local", self.local))
            .set_organization(with_default(&self.org, "workstation", self.local))
            .set_project(&project)
            .set_a2_mode_if_def(self.a2_mode);
        let a2 = match c.a2_mode {
            Some(b) => b,
            None => false,
        };
        if a2 {
            c.saml = Some(true);
        }
        Ok(c)
    }
}

impl InitCommand for CheckoutClapOptions {
    open spec fn merged(&self, config: ConfigView, cwd_project: Option<String>) -> Option<ConfigView> {
        Some(ConfigView {
            pipeline: with_option(config.pipeline, self.pipeline@),
            project: filled_project(config.project, cwd_project),
            ..config
        })
    }

    fn merge_options_and_config(&self, config: Config, cwd_project: &Option<String>) -> (r: DeliveryResult<Config>) {
        Ok(fill_project(config.set_pipeline(&self.pipeline), cwd_project))
    }
}

impl InitCommand for DiffClapOptions {
    open spec fn merged(&self, config: ConfigView, cwd_project: Option<String>) -> Option<ConfigView> {
        Some(ConfigView {
            pipeline: with_option(config.pipeline, self.pipeline@),
            project: filled_project(config.project, cwd_project),
            ..config
        })
    }

    fn merge_options_and_config(&self, config: Config, cwd_project: &Option<String>) -> (r: DeliveryResult<Config>) {
        Ok(fill_project(config.set_pipeline(&self.pipeline), cwd_project))
    }
}

impl InitCommand for ReviewClapOptions {
    open spec fn merged(&self, config: ConfigView, cwd_project: Option<String>) -> Option<ConfigView> {
        Some(ConfigView {
            pipeline: with_option(config.pipeline, self.pipeline@),
            user: with_option(config.user, self.user@),
            auto_bump: pick(Some(self.auto_bump), config.auto_bump),
            project: filled_project(config.project, cwd_project),
            ..config
        })
    }

    fn merge_options_and_config(&self, config: Config, cwd_project: &Option<String>) -> (r: DeliveryResult<Config>) {
        let mut c = config.set_pipeline(&self.pipeline).set_user(&self.user);
        match c.auto_bump {
            Some(_) => {},
            None => {
                c.auto_bump = Some(self.auto_bump);
            },
        }
        Ok(fill_project(c, cwd_project))
    }
}

impl InitCommand for PullClapOptions {
    open spec fn merged(&self, config: ConfigView, cwd_project: Option<String>) -> Option<ConfigView> {
        Some(ConfigView { project: filled_project(config.project, cwd_project), ..config })
    }

    fn merge_options_and_config(&self, config: Config, cwd_project: &Option<String>) -> (r: DeliveryResult<Config>) {
        Ok(fill_project(config, cwd_project))
    }
}

impl InitCommand for StatusClapOptions {
    open spec fn merged(&self, config: ConfigView, cwd_project: Option<String>) -> Option<ConfigView> {
        Some(ConfigView {
            api_port: with_option(config.api_port, self.api_port@),
            server: with_option(config.server, self.server@),
            ..config
        })
    }

    fn merge_options_and_config(&self, config: Config, cwd_project: &Option<String>) -> (r: DeliveryResult<Config>) {
        Ok(config.set_api_port(&self.api_port).set_server(&self.server))
    }
}

/// What `init_project_specific` gives for a merged configuration.
pub open spec fn project_specific_outcome(r: DeliveryResult<(Config, String)>, config: ConfigView, cwd_project: Option<String>) -> bool {
    let c = ConfigView { project: filled_project(config.project, cwd_project), ..config };
    match ssh_url_spec(c) {
        Ok(u) => r matches Ok((x, url)) && x@ == c && url@ == u,
        Err(m) => missing(r, m),
    }
}

/// The steps of a project command after its options are applied: the
/// project, when still unset, comes from the working directory, and the
/// SSH URL of Delivery's git, which the command's remote must point to,
/// is returned beside the configuration.
pub fn init_project_specific(config: Config, cwd_project: &Option<String>) -> (r: DeliveryResult<(Config, String)>)
    ensures
        project_specific_outcome(r, config@, *cwd_project),
{
    let c = fill_project(config, cwd_project);
    match c.delivery_git_ssh_url() {
        Ok(url) => Ok((c, url)),
        Err(e) => Err(e),
    }
}

/// A project command's configuration: the options applied to the
/// configuration read from `cli.toml`, then `init_project_specific`.
pub fn init_command<T: InitCommand>(opts: &T, config: Config, cwd_project: &Option<String>) -> (r: DeliveryResult<(Config, String)>)
    ensures
        match opts.merged(config@, *cwd_project) {
            Some(v) => project_specific_outcome(r, v, *cwd_project),
            None => r matches Err(e) && e.kind is NoGitConfig && e.detail is None,
        },
{
    let merged = opts.merge_options_and_config(config, cwd_project)?;
    init_project_specific(merged, cwd_project)
}

/// A pipeline given on the command line is the pipeline of the merged
/// configuration, for every command that takes one (`checkout`, `diff`,
/// `review`, `job`, and `init` once its project is known); with no
/// pipeline given, the one from `cli.toml` stays.
pub proof fn law_pipeline_option_wins(
    config: ConfigView,
    cwd_project: Option<String>,
    checkout: CheckoutClapOptions,
    diff: DiffClapOptions,
    review: ReviewClapOptions,
    job: JobClapOptions,
    init: InitClapOptions,
)
    ensures
        checkout.merged(config, cwd_project) matches Some(v) && v.pipeline == (if checkout.pipeline@.len() > 0 {
            Some(checkout.pipeline@)
        } else {
            config.pipeline
        }),
        diff.merged(config, cwd_project) matches Some(v) && v.pipeline == (if diff.pipeline@.len() > 0 {
            Some(diff.pipeline@)
        } else {
            config.pipeline
        }),
        review.merged(config, cwd_project) matches Some(v) && v.pipeline == (if review.pipeline@.len() > 0 {
            Some(review.pipeline@)
        } else {
            config.pipeline
        }),
        job.merged(config, cwd_project) matches Some(v) ==> v.pipeline == (if job.pipeline@.len() > 0 {
            Some(job.pipeline@)
        } else {
            config.pipeline
        }),
        init.merged(config, cwd_project) matches Some(v) ==> v.pipeline == (if init.pipeline@.len() > 0 {
            Some(init.pipeline@)
        } else {
            config.pipeline
        }),
        job.project@.len() > 0 ==> job.merged(config, cwd_project) is Some,
        init.project@.len() > 0 ==> init.merged(config, cwd_project) is Some,
{
}

} // verus!
