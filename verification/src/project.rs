//! A project: where its root is, which source code provider backs it,
//! and what setting it up on the server and in git takes.
use vstd::prelude::*;
use crate::errors::{DeliveryError, DeliveryResult, Kind, fails_with, opt_view};
use crate::git::{GitResult, ReviewResult, git_push_review_args};
use crate::http::APIClient;
use crate::path::{
    ancestors_spec, file_name, file_name_spec, has_root, path_join, path_join_spec, path_parent,
    path_parent_spec, strip_trailing, last_index_of,
};
use crate::config::is_empty;
use crate::text::{contains, contains_seq, owned, str_eq, views};

verus! {

/// The kind of source code provider a project lives on.
#[derive(Debug, Clone, Copy, PartialEq, Eq, Structural)]
pub enum Type {
    Bitbucket,
    Github,
}

/// A project's external source code provider.
#[derive(Debug)]
pub struct SourceCodeProvider {
    pub repo_name: String,
    pub organization: String,
    pub branch: String,
    pub verify_ssl: bool,
    pub kind: Type,
}

/// The provider kind a name stands for.
pub open spec fn scp_kind(scp: Seq<char>) -> Option<Type> {
    if scp == "github"@ {
        Some(Type::Github)
    } else if scp == "bitbucket"@ {
        Some(Type::Bitbucket)
    } else {
        None
    }
}

/// The message when a provider's attributes are missing.
pub open spec fn scp_missing_msg(k: Type) -> Seq<char> {
    match k {
        Type::Github => "Missing Github Source Code Provider attributes, specify: repo-name, org-name and pipeline(default: master)"@,
        Type::Bitbucket => "Missing Bitbucket Source Code Provider attributes, specify: repo-name, project-key and pipeline(default: master)"@,
    }
}

/// The name the server gives a provider kind.
pub open spec fn fancy_name(k: Type) -> Seq<char> {
    match k {
        Type::Github => "GitHub"@,
        Type::Bitbucket => "Bitbucket"@,
    }
}

impl SourceCodeProvider {
    /// A provider from its name (`github` or `bitbucket`), repository,
    /// organization and branch, which must all be given; SSL is verified
    /// unless `no_ssl`.
    pub fn new(scp: &str, repo: &str, org: &str, branch: &str, no_ssl: bool) -> (r: DeliveryResult<SourceCodeProvider>)
        ensures
            match scp_kind(scp@) {
                None => r matches Err(e) && e.kind is UnknownProjectType && e.detail is None,
                Some(k) => if repo@.len() == 0 || org@.len() == 0 || branch@.len() == 0 {
                    fails_with(r, Kind::OptionConstraint, scp_missing_msg(k))
                } else {
                    r matches Ok(p) && p.kind == k && p.repo_name@ == repo@ && p.organization@ == org@
                        && p.branch@ == branch@ && p.verify_ssl == !no_ssl
                },
            },
    {
        let kind = if str_eq(scp, "github") {
            Type::Github
        } else if str_eq(scp, "bitbucket") {
            Type::Bitbucket
        } else {
            return Err(DeliveryError { kind: Kind::UnknownProjectType, detail: None });
        };
        if is_empty(repo) || is_empty(org) || is_empty(branch) {
            let msg = match kind {
                Type::Github => owned("Missing Github Source Code Provider attributes, specify: repo-name, org-name and pipeline(default: master)"),
                Type::Bitbucket => owned("Missing Bitbucket Source Code Provider attributes, specify: repo-name, project-key and pipeline(default: master)"),
            };
            return Err(DeliveryError { kind: Kind::OptionConstraint, detail: Some(msg) });
        }
        Ok(SourceCodeProvider {
            kind: kind,
            repo_name: owned(repo),
            organization: owned(org),
            branch: owned(branch),
            verify_ssl: !no_ssl,
        })
    }

    /// The name the server gives the provider's kind.
    pub fn kind_to_fancy_str(&self) -> (r: DeliveryResult<&'static str>)
        ensures
            r matches Ok(s) && s@ == fancy_name(self.kind),
    {
        match self.kind {
            Type::Github => Ok("GitHub"),
            Type::Bitbucket => Ok("Bitbucket"),
        }
    }

    /// Whether the server is set up for the provider; `configs` is the
    /// number of setup configurations the server lists for its kind.
    pub fn verify_server_config(&self, configs: DeliveryResult<usize>) -> (r: DeliveryResult<()>)
        ensures
            match configs {
                Err(e) => r matches Err(x) && x == e,
                Ok(n) => if n == 0 {
                    r matches Err(e) && e.detail is None && (match self.kind {
                        Type::Github => e.kind is NoGithubSCPConfig,
                        Type::Bitbucket => e.kind is NoBitbucketSCPConfig,
                    })
                } else {
                    r is Ok
                },
            },
    {
        let n = configs?;
        if n == 0 {
            match self.kind {
                Type::Github => Err(DeliveryError { kind: Kind::NoGithubSCPConfig, detail: None }),
                Type::Bitbucket => Err(DeliveryError { kind: Kind::NoBitbucketSCPConfig, detail: None }),
            }
        } else {
            Ok(())
        }
    }
}

/// What to do about a project or pipeline on the server: nothing when
/// it exists already, or post `payload` to `path`.
#[derive(Debug)]
pub enum CreateStep {
    AlreadyExists,
    Create(String, String),
}

/// A pipeline is created unless it exists; its base is its own name.
pub fn create_delivery_pipeline(org: &str, proj: &str, pipe: &str, exists: bool) -> (r: CreateStep)
    ensures
        exists ==> r is AlreadyExists,
        !exists ==> (r matches CreateStep::Create(path, payload) && path@ == "orgs/"@ + org@ + "/projects/"@
            + proj@ + "/pipelines"@ && payload@ == "{\"name\":\""@ + pipe@ + "\",\"base\":\""@ + pipe@ + "\"}"@),
{
    if exists {
        CreateStep::AlreadyExists
    } else {
        let (path, payload) = APIClient::create_pipeline_request(org, proj, pipe, Some(pipe));
        CreateStep::Create(path, payload)
    }
}

/// A project with Delivery as its source code provider is created unless
/// it exists.
pub fn create_delivery_project(org: &str, proj: &str, exists: bool) -> (r: CreateStep)
    ensures
        exists ==> r is AlreadyExists,
        !exists ==> (r matches CreateStep::Create(path, payload) && path@ == "orgs/"@ + org@ + "/projects"@
            && payload@ == "{\"name\":\""@ + proj@ + "\"}"@),
{
    if exists {
        CreateStep::AlreadyExists
    } else {
        let (path, payload) = APIClient::create_delivery_project_request(org, proj);
        CreateStep::Create(path, payload)
    }
}

/// Whether a creation step created something: `posted` is the reply to
/// the post the step asked for.
pub fn created(step: &CreateStep, posted: DeliveryResult<(u16, Option<String>)>) -> (r: DeliveryResult<bool>)
    ensures
        step is AlreadyExists ==> r == Ok::<bool, DeliveryError>(false),
        step is Create ==> match posted {
            Ok(_) => r == Ok::<bool, DeliveryError>(true),
            Err(e) => r matches Err(x) && x == e,
        },
{
    match step {
        CreateStep::AlreadyExists => Ok(false),
        CreateStep::Create(_, _) => {
            posted?;
            Ok(true)
        },
    }
}

/// Whether the local content must be pushed to the server: only when the
/// server holds nothing of the pipeline yet.
pub fn push_project_content_to_delivery(server_content: DeliveryResult<bool>) -> (r: DeliveryResult<bool>)
    ensures
        match server_content {
            Err(e) => r matches Err(x) && x == e,
            Ok(b) => r == Ok::<bool, DeliveryError>(!b),
        },
{
    let has = server_content?;
    Ok(!has)
}

/// Whether the `origin` remote is missing, from what `git remote` printed.
pub fn missing_github_remote(remotes: DeliveryResult<GitResult>) -> (r: DeliveryResult<bool>)
    ensures
        match remotes {
            Err(e) => r matches Err(x) && x == e,
            Ok(g) => r == Ok::<bool, DeliveryError>(!contains_seq(g.stdout@, "origin"@)),
        },
{
    let g = remotes?;
    Ok(!contains(g.stdout.as_str(), "origin"))
}

/// The file whose presence marks a project root.
pub open spec fn git_config_rel() -> Seq<char> {
    ".git/config"@
}

/// The project root that a git config found under `a` gives: the parent
/// of the parent of `a/.git/config`.
pub open spec fn git_root_of(a: Seq<char>) -> Seq<char> {
    path_parent_spec(path_parent_spec(path_join_spec(a, git_config_rel()))->0)->0
}

/// The index of the first `true`.
pub open spec fn first_true(s: Seq<bool>) -> Option<int>
    decreases s.len(),
{
    if s.len() == 0 {
        None
    } else if s[0] {
        Some(0)
    } else {
        match first_true(s.drop_first()) {
            Some(i) => Some(i + 1),
            None => None,
        }
    }
}

/// Where the first `true` is.
pub proof fn lemma_first_true(s: Seq<bool>)
    ensures
        match first_true(s) {
            Some(i) => 0 <= i < s.len() && s[i] && forall|j: int| 0 <= j < i ==> !s[j],
            None => forall|j: int| 0 <= j < s.len() ==> !s[j],
        },
    decreases s.len(),
{
    if s.len() > 0 {
        lemma_first_true(s.drop_first());
        assert forall|j: int| 1 <= j < s.len() implies s[j] == s.drop_first()[j - 1] by {}
    }
}

/// The first `true` is at `i` when `i` holds one and none comes before.
pub proof fn lemma_first_true_at(s: Seq<bool>, i: int)
    requires
        0 <= i < s.len(),
        s[i],
        forall|j: int| 0 <= j < i ==> !s[j],
    ensures
        first_true(s) == Some(i),
{
    lemma_first_true(s);
}

/// No `true`, no first one.
pub proof fn lemma_first_true_none(s: Seq<bool>)
    requires
        forall|j: int| 0 <= j < s.len() ==> !s[j],
    ensures
        first_true(s) is None,
{
    lemma_first_true(s);
}

proof fn lemma_strip_keeps(p: Seq<char>)
    requires
        p.len() > 0,
        p.last() != '/',
    ensures
        strip_trailing(p) == p,
{
}

proof fn lemma_last_slash(p: Seq<char>, i: int)
    requires
        0 <= i < p.len(),
        p[i] == '/',
        forall|j: int| i < j < p.len() ==> p[j] != '/',
    ensures
        last_index_of(p, '/') == Some(i),
    decreases p.len(),
{
    if p.last() != '/' {
        assert forall|j: int| i < j < p.drop_last().len() implies p.drop_last()[j] != '/' by {}
        lemma_last_slash(p.drop_last(), i);
    }
}

proof fn lemma_git_config_suffix(a: Seq<char>)
    ensures
        ({
            let p = path_join_spec(a, git_config_rel());
            &&& p.len() >= 11
            &&& p.subrange(p.len() - 11, p.len() as int) == git_config_rel()
        }),
{
    reveal_strlit(".git/config");
    let seg = git_config_rel();
    let p = path_join_spec(a, seg);
    if a.len() == 0 || a.last() == '/' {
        assert(p == a + seg);
        assert(p.subrange(p.len() - 11, p.len() as int) =~= seg);
    } else {
        assert(p == a + seq!['/'] + seg);
        assert(p.subrange(p.len() - 11, p.len() as int) =~= seg);
    }
}

/// Both parents taken to find a project root exist.
proof fn lemma_git_root_parents(a: Seq<char>)
    ensures
        path_parent_spec(path_join_spec(a, git_config_rel())) is Some,
        path_parent_spec(path_parent_spec(path_join_spec(a, git_config_rel()))->0) is Some,
{
    reveal_strlit(".git/config");
    let seg = git_config_rel();
    let p = path_join_spec(a, seg);
    lemma_git_config_suffix(a);
    let n = p.len() as int;
    let tail = p.subrange(n - 11, n);
    assert(tail == seg);
    assert(p[n - 1] == tail[10]);
    assert(p.last() == 'g');
    lemma_strip_keeps(p);
    assert(p[n - 7] == tail[4]);
    assert(p[n - 7] == '/');
    assert forall|j: int| n - 7 < j < n implies p[j] != '/' by {
        assert(p[j] == tail[j - (n - 11)]);
    }
    lemma_last_slash(p, n - 7);
    let g = p.subrange(0, n - 7);
    assert(g.last() == p[n - 8]);
    assert(p[n - 8] == tail[3]);
    lemma_strip_keeps(g);
    assert(path_parent_spec(p) == Some(g));
    assert(g != seq!['/']) by {
        if g == seq!['/'] {
            assert(g.len() == 1);
        }
    }
}

/// The project root of `dir`: the nearest of its ancestors (itself
/// first) that holds `.git/config`. `has_git_config[i]` says whether the
/// `i`-th ancestor does.
pub fn root_dir(dir: &str, has_git_config: &Vec<bool>) -> (r: DeliveryResult<String>)
    requires
        has_git_config@.len() == ancestors_spec(dir@).len(),
    ensures
        match first_true(has_git_config@) {
            Some(i) => r matches Ok(x) && x@ == git_root_of(ancestors_spec(dir@)[i]),
            None => r matches Err(e) && e.kind is NoGitConfig && e.detail is None,
        },
{
    proof {
        lemma_first_true(has_git_config@);
    }
    let anc = crate::path::ancestors(dir);
    let mut i: usize = 0;
    while i < has_git_config.len()
        invariant
            i <= has_git_config@.len(),
            has_git_config@.len() == ancestors_spec(dir@).len(),
            views(anc@) == ancestors_spec(dir@),
            forall|j: int| 0 <= j < i ==> !has_git_config@[j],
            match first_true(has_git_config@) {
                Some(k) => 0 <= k < has_git_config@.len() && has_git_config@[k] && forall|j: int| 0 <= j < k ==> !has_git_config@[j],
                None => forall|j: int| 0 <= j < has_git_config@.len() ==> !has_git_config@[j],
            },
        decreases has_git_config.len() - i,
    {
        if has_git_config[i] {
            let ghost a = anc@[i as int]@;
            proof {
                lemma_git_root_parents(a);
                assert(a == ancestors_spec(dir@)[i as int]);
            }
            let config_path = path_join(anc[i].as_str(), ".git/config");
            let git_d = match path_parent(config_path.as_str()) {
                Some(g) => g,
                None => return Err(DeliveryError { kind: Kind::NoGitConfig, detail: None }),
            };
            let root_d = match path_parent(git_d.as_str()) {
                Some(d) => d,
                None => return Err(DeliveryError { kind: Kind::NoGitConfig, detail: None }),
            };
            return Ok(root_d);
        }
        i = i + 1;
    }
    Err(DeliveryError { kind: Kind::NoGitConfig, detail: None })
}

/// The name of a project: the last component of its root.
pub open spec fn project_name_of(root: Seq<char>) -> Seq<char> {
    file_name_spec(root)->0
}

/// Whether the project root found from `dir` has a name (the root of the
/// file system has none).
pub open spec fn named_root(dir: Seq<char>, has_git_config: Seq<bool>) -> bool {
    match first_true(has_git_config) {
        Some(i) => file_name_spec(git_root_of(ancestors_spec(dir)[i])) is Some,
        None => true,
    }
}

/// The project's name, taken from the root of the working directory
/// `cwd` (see `root_dir`).
pub fn project_from_cwd(cwd: &str, has_git_config: &Vec<bool>) -> (r: DeliveryResult<String>)
    requires
        has_git_config@.len() == ancestors_spec(cwd@).len(),
        named_root(cwd@, has_git_config@),
    ensures
        match first_true(has_git_config@) {
            Some(i) => r matches Ok(x) && x@ == project_name_of(git_root_of(ancestors_spec(cwd@)[i])),
            None => r matches Err(e) && e.kind is NoGitConfig && e.detail is None,
        },
{
    let root = root_dir(cwd, has_git_config)?;
    match file_name(root.as_str()) {
        Some(n) => Ok(n),
        None => Err(DeliveryError { kind: Kind::NoGitConfig, detail: None }),
    }
}

/// The project's name: `proj` when given, else the one the working
/// directory gives.
pub fn project_or_from_cwd(proj: &str, cwd: &str, has_git_config: &Vec<bool>) -> (r: DeliveryResult<String>)
    requires
        has_git_config@.len() == ancestors_spec(cwd@).len(),
        proj@.len() == 0 ==> named_root(cwd@, has_git_config@),
    ensures
        proj@.len() > 0 ==> (r matches Ok(x) && x@ == proj@),
        proj@.len() == 0 ==> match first_true(has_git_config@) {
            Some(i) => r matches Ok(x) && x@ == project_name_of(git_root_of(ancestors_spec(cwd@)[i])),
            None => r matches Err(e) && e.kind is NoGitConfig && e.detail is None,
        },
{
    if is_empty(proj) {
        project_from_cwd(cwd, has_git_config)
    } else {
        Ok(owned(proj))
    }
}

/// The arguments of the `git` command that creates and checks out a
/// branch.
pub fn create_branch_args(branch_name: &str) -> (r: Vec<String>)
    ensures
        views(r@) == seq!["checkout"@, "-b"@, branch_name@],
{
    let mut r: Vec<String> = Vec::new();
    r.push(owned("checkout"));
    r.push(owned("-b"));
    r.push(owned(branch_name));
    assert(views(r@) =~= seq!["checkout"@, "-b"@, branch_name@]);
    r
}

/// The arguments of the `git` command that checks out a branch.
pub fn checkout_args(branch_name: &str) -> (r: Vec<String>)
    ensures
        views(r@) == seq!["checkout"@, branch_name@],
{
    let mut r: Vec<String> = Vec::new();
    r.push(owned("checkout"));
    r.push(owned(branch_name));
    assert(views(r@) =~= seq!["checkout"@, branch_name@]);
    r
}

/// What happened when the feature branch was to be created.
#[derive(Debug)]
pub enum FeatureBranchStep {
    /// The branch was created.
    Created,
    /// It exists already: check it out.
    CheckoutExisting,
    /// Creating it failed otherwise.
    Failed(DeliveryError),
}

/// The message git gives when a branch exists already.
pub open spec fn branch_exists_msg(branch: Seq<char>) -> Seq<char> {
    "A branch named '"@ + branch + "' already exists"@
}

/// What to do after trying to create the feature branch `branch_name`
/// (`created` is what `git checkout -b` gave): done when it worked; when
/// git says the branch exists, check it out; otherwise fail.
pub fn create_feature_branch_if_missing(branch_name: &str, created: DeliveryResult<GitResult>) -> (r: FeatureBranchStep)
    ensures
        match created {
            Ok(_) => r is Created,
            Err(e) => match e.detail {
                Some(m) => if contains_seq(m@, branch_exists_msg(branch_name@)) {
                    r is CheckoutExisting
                } else {
                    r matches FeatureBranchStep::Failed(x) && x == e
                },
                None => r matches FeatureBranchStep::Failed(x) && x == e,
            },
        },
{
    match created {
        Ok(_) => FeatureBranchStep::Created,
        Err(e) => {
            let exists = match &e.detail {
                Some(m) => {
                    let mut expected = owned("A branch named '");
                    expected.append(branch_name);
                    expected.append("' already exists");
                    contains(m.as_str(), expected.as_str())
                },
                None => false,
            };
            if exists {
                FeatureBranchStep::CheckoutExisting
            } else {
                FeatureBranchStep::Failed(e)
            }
        },
    }
}

/// Whether the feature branch was created, once the existing one was
/// checked out (`checkout`) where that was needed.
pub fn feature_branch_outcome(step: FeatureBranchStep, checkout: DeliveryResult<GitResult>) -> (r: DeliveryResult<bool>)
    ensures
        match step {
            FeatureBranchStep::Created => r == Ok::<bool, DeliveryError>(true),
            FeatureBranchStep::CheckoutExisting => match checkout {
                Ok(_) => r == Ok::<bool, DeliveryError>(false),
                Err(e) => r matches Err(x) && x == e,
            },
            FeatureBranchStep::Failed(e) => r matches Err(x) && x == e,
        },
{
    match step {
        FeatureBranchStep::Created => Ok(true),
        FeatureBranchStep::CheckoutExisting => {
            checkout?;
            Ok(false)
        },
        FeatureBranchStep::Failed(e) => Err(e),
    }
}

/// The message of the commit that adds the build cookbook.
pub open spec fn build_cookbook_commit_msg(custom_config_passed: bool) -> Seq<char> {
    if custom_config_passed {
        "Adds Delivery build cookbook and config"@
    } else {
        "Adds Delivery build cookbook"@
    }
}

/// The message of the commit that adds the build cookbook, once
/// `.delivery` was added to the index (`added`).
pub fn add_commit_build_cookbook(custom_config_passed: bool, added: DeliveryResult<GitResult>) -> (r: DeliveryResult<String>)
    ensures
        match added {
            Err(e) => r matches Err(x) && x == e,
            Ok(_) => r matches Ok(m) && m@ == build_cookbook_commit_msg(custom_config_passed),
        },
{
    match added {
        Err(e) => Err(e),
        Ok(_) => {
            let mut commit_msg = owned("Adds Delivery build cookbook");
            if custom_config_passed {
                commit_msg.append(" and config");
            }
            proof {
                reveal_strlit("Adds Delivery build cookbook");
                reveal_strlit(" and config");
                reveal_strlit("Adds Delivery build cookbook and config");
            }
            Ok(commit_msg)
        },
    }
}

/// Whether the build cookbook commit recorded anything: a commit with
/// nothing to commit is no failure.
pub fn build_cookbook_committed(commit: DeliveryResult<()>) -> (r: DeliveryResult<bool>)
    ensures
        match commit {
            Ok(_) => r == Ok::<bool, DeliveryError>(true),
            Err(e) => if e.kind is EmptyGitCommit {
                r == Ok::<bool, DeliveryError>(false)
            } else {
                r matches Err(x) && x == e
            },
        },
{
    match commit {
        Ok(_) => Ok(true),
        Err(e) => match e.kind {
            Kind::EmptyGitCommit => Ok(false),
            _ => Err(e),
        },
    }
}

/// The `git` commands that add and commit the readme.
pub fn commit_delivery_readme() -> (r: Vec<Vec<String>>)
    ensures
        r@.len() == 2,
        views(r@[0]@) == seq!["add"@, "DELIVERY.md"@],
        views(r@[1]@) == seq!["commit"@, "-m"@, "New pipeline verification commit"@],
{
    let mut add: Vec<String> = Vec::new();
    add.push(owned("add"));
    add.push(owned("DELIVERY.md"));
    let mut commit: Vec<String> = Vec::new();
    commit.push(owned("commit"));
    commit.push(owned("-m"));
    commit.push(owned("New pipeline verification commit"));
    assert(views(add@) =~= seq!["add"@, "DELIVERY.md"@]);
    assert(views(commit@) =~= seq!["commit"@, "-m"@, "New pipeline verification commit"@]);
    let mut r: Vec<Vec<String>> = Vec::new();
    r.push(add);
    r.push(commit);
    r
}

/// The arguments of `chef` that generate the build cookbook at `path`.
pub fn create_build_cookbook_args(pipeline: &str, path: &str) -> (r: Vec<String>)
    ensures
        views(r@) == seq!["generate"@, "build-cookbook"@, path@, "--pipeline"@, pipeline@],
{
    let mut r: Vec<String> = Vec::new();
    r.push(owned("generate"));
    r.push(owned("build-cookbook"));
    r.push(owned(path));
    r.push(owned("--pipeline"));
    r.push(owned(pipeline));
    assert(views(r@) =~= seq!["generate"@, "build-cookbook"@, path@, "--pipeline"@, pipeline@]);
    r
}

/// The arguments of `chef` that generate the build cookbook from a
/// custom generator.
pub fn chef_generate_build_cookbook_args(generator: &str) -> (r: Vec<String>)
    ensures
        views(r@) == seq!["generate"@, "build-cookbook"@, "."@, "-g"@, generator@],
{
    let mut r: Vec<String> = Vec::new();
    r.push(owned("generate"));
    r.push(owned("build-cookbook"));
    r.push(owned("."));
    r.push(owned("-g"));
    r.push(owned(generator));
    assert(views(r@) =~= seq!["generate"@, "build-cookbook"@, "."@, "-g"@, generator@]);
    r
}

/// Where a custom build cookbook generator comes from.
#[derive(Debug, Clone, Copy, PartialEq, Eq, Structural)]
pub enum CustomCookbookSource {
    Cached,
    Disk,
    Git,
}

/// Where the copy of a generator that is not a local path is kept: in
/// the cache, under the generator's last component.
pub fn cached_generator_path(generator: &str, cache_path: &str) -> (r: String)
    requires
        file_name_spec(generator@) is Some,
    ensures
        r@ == path_join_spec(cache_path@, file_name_spec(generator@)->0),
{
    match file_name(generator) {
        Some(n) => path_join(cache_path, n.as_str()),
        None => owned(cache_path),
    }
}

/// Where a custom generator is taken from: a path from the root is
/// copied from disk; otherwise it is a git URL, used from the cache when
/// its copy there is a directory (`cached_is_dir`) and cloned otherwise.
pub fn download_or_mv_custom_build_cookbook_generator(generator: &str, cached_is_dir: bool) -> (r: CustomCookbookSource)
    ensures
        r == (if generator@.len() > 0 && generator@[0] == '/' {
            CustomCookbookSource::Disk
        } else if cached_is_dir {
            CustomCookbookSource::Cached
        } else {
            CustomCookbookSource::Git
        }),
{
    if has_root(generator) {
        CustomCookbookSource::Disk
    } else if cached_is_dir {
        CustomCookbookSource::Cached
    } else {
        CustomCookbookSource::Git
    }
}

/// The cache of generator cookbooks under the home directory `home`.
pub fn generator_cache_path(home: DeliveryResult<String>) -> (r: DeliveryResult<String>)
    ensures
        match home {
            Err(e) => r matches Err(x) && x == e,
            Ok(h) => r matches Ok(p) && p@ == path_join_spec(h@, ".delivery/cache/generator-cookbooks"@),
        },
{
    let h = home?;
    Ok(path_join(h.as_str(), ".delivery/cache/generator-cookbooks"))
}

/// The push that submits `head` for review on `target`; a branch cannot
/// be reviewed against itself.
pub fn review(target: &str, head: &str) -> (r: DeliveryResult<Vec<String>>)
    ensures
        target@ == head@ ==> (r matches Err(e) && e.kind is CannotReviewSameBranch && e.detail is None),
        target@ != head@ ==> (r matches Ok(a) && views(a@) == seq![
            "push"@,
            "--porcelain"@,
            "--progress"@,
            "--verbose"@,
            "delivery"@,
            head@ + ":_for/"@ + target@ + "/"@ + head@,
        ]),
{
    if str_eq(target, head) {
        Err(DeliveryError { kind: Kind::CannotReviewSameBranch, detail: None })
    } else {
        Ok(git_push_review_args(head, target))
    }
}

/// The change URL of a review, and whether to open it: only when the
/// server gave one and `no_open` is off.
pub fn handle_review_result(review: &ReviewResult, no_open: bool) -> (r: (Option<String>, bool))
    ensures
        opt_view(r.0) == review@.url,
        r.1 == (review@.url is Some && !no_open),
{
    match &review.url {
        Some(url) => (Some(url.clone()), !no_open),
        None => (None, false),
    }
}

} // verus!
