//! A project's `.delivery/config.json`: where its build cookbook comes
//! from and how its jobs run; version 1 files are read as version 2.
use vstd::prelude::*;
use crate::errors::{DeliveryError, DeliveryResult, Kind, fails_with, kind_message};
use crate::path::{ancestors_spec, file_name, file_name_spec, path_join, path_join_spec};
use crate::project::first_true;
use crate::text::{contains, contains_seq, owned, str_eq, views};

pub mod project;

verus! {

/// How jobs are dispatched to build nodes: a version and, per phase, the
/// node search filters (each kept as its JSON text).
#[derive(Debug)]
pub struct JobDispatch {
    pub version: String,
    pub filters: Option<Vec<(String, String)>>,
}

impl Default for JobDispatch {
    fn default() -> (r: JobDispatch)
        ensures
            r.version@ == "v2"@,
            r.filters is None,
    {
        JobDispatch { version: owned("v2"), filters: None }
    }
}

/// A version 2 project configuration. The build cookbook settings are
/// keyed entries, a map: each key stands once (`unique_keys`), as every
/// configuration this library makes states.
#[derive(Debug)]
pub struct DeliveryConfig {
    pub version: String,
    pub build_cookbook: Vec<(String, String)>,
    pub skip_phases: Option<Vec<String>>,
    pub build_nodes: Option<Vec<(String, Vec<String>)>>,
    pub job_dispatch: Option<JobDispatch>,
    pub dependencies: Option<Vec<String>>,
}

/// Where the build cookbook is taken from.
#[derive(Debug, Clone, Copy, PartialEq, Eq, Structural)]
pub enum BuildCookbookLocation {
    Local,
    Git,
    Supermarket,
    Workflow,
    ChefServer,
}

/// The view of keyed entries.
pub open spec fn pair_views(v: Seq<(String, String)>) -> Seq<(Seq<char>, Seq<char>)> {
    v.map_values(|e: (String, String)| (e.0@, e.1@))
}

/// No key stands twice among the entries.
pub open spec fn unique_keys(s: Seq<(Seq<char>, Seq<char>)>) -> bool {
    forall|i: int, j: int| 0 <= i < j < s.len() ==> s[i].0 != s[j].0
}

/// The index of the first entry with key `k`.
pub open spec fn key_index(s: Seq<(Seq<char>, Seq<char>)>, k: Seq<char>) -> Option<int>
    decreases s.len(),
{
    if s.len() == 0 {
        None
    } else if s.last().0 == k && key_index(s.drop_last(), k) is None {
        Some(s.len() - 1)
    } else {
        key_index(s.drop_last(), k)
    }
}

/// The location a build cookbook key announces.
pub open spec fn location_of(k: Seq<char>) -> Option<BuildCookbookLocation> {
    if k == "path"@ {
        Some(BuildCookbookLocation::Local)
    } else if k == "git"@ {
        Some(BuildCookbookLocation::Git)
    } else if k == "supermarket"@ {
        Some(BuildCookbookLocation::Supermarket)
    } else if k == "enterprise"@ {
        Some(BuildCookbookLocation::Workflow)
    } else if k == "server"@ {
        Some(BuildCookbookLocation::ChefServer)
    } else {
        None
    }
}

/// The message when a build cookbook field is missing.
pub open spec fn missing_field_msg(key: Seq<char>) -> Seq<char> {
    "Unable to find '"@ + key + "' field."@
}

/// The path of `config.json` under a project path.
pub open spec fn config_file_path_spec(p: Seq<char>) -> Seq<char> {
    path_join_spec(path_join_spec(p, ".delivery"@), "config.json"@)
}

/// With keys that stand once, an entry is found at its own index.
pub proof fn lemma_unique_key_index(s: Seq<(Seq<char>, Seq<char>)>, i: int)
    requires
        unique_keys(s),
        0 <= i < s.len(),
    ensures
        key_index(s, s[i].0) == Some(i),
{
    lemma_key_index(s, s[i].0);
    match key_index(s, s[i].0) {
        Some(k) => {
            if k < i {
                assert(s[k].0 != s[i].0);
            } else if k > i {
                assert(s[i].0 != s[k].0);
            }
        },
        None => {},
    }
}

proof fn lemma_key_index(s: Seq<(Seq<char>, Seq<char>)>, k: Seq<char>)
    ensures
        match key_index(s, k) {
            Some(i) => 0 <= i < s.len() && s[i].0 == k && forall|j: int| 0 <= j < i ==> s[j].0 != k,
            None => forall|j: int| 0 <= j < s.len() ==> s[j].0 != k,
        },
    decreases s.len(),
{
    if s.len() > 0 {
        let t = s.drop_last();
        lemma_key_index(t, k);
        assert forall|j: int| 0 <= j < t.len() implies t[j] == s[j] by {}
    }
}

impl Default for DeliveryConfig {
    fn default() -> (r: DeliveryConfig)
        ensures
            r.version@ == "2"@,
            pair_views(r.build_cookbook@) == seq![("name"@, "build_cookbook"@), ("path"@, ".delivery/build_cookbook"@)],
            unique_keys(pair_views(r.build_cookbook@)),
            r.skip_phases matches Some(v) && v@.len() == 0,
            r.build_nodes is None,
            r.job_dispatch matches Some(j) && j.version@ == "v2"@ && j.filters is None,
            r.dependencies matches Some(v) && v@.len() == 0,
    {
        let mut bc: Vec<(String, String)> = Vec::new();
        bc.push((owned("name"), owned("build_cookbook")));
        bc.push((owned("path"), owned(".delivery/build_cookbook")));
        assert(pair_views(bc@) =~= seq![("name"@, "build_cookbook"@), ("path"@, ".delivery/build_cookbook"@)]);
        proof {
            reveal_strlit("name");
            reveal_strlit("path");
            assert("name"@[0] != "path"@[0]);
        }
        DeliveryConfig {
            version: owned("2"),
            build_cookbook: bc,
            skip_phases: Some(Vec::new()),
            build_nodes: None,
            job_dispatch: Some(JobDispatch::default()),
            dependencies: Some(Vec::new()),
        }
    }
}

impl DeliveryConfig {
    /// Where the build cookbook comes from: the location a key of the
    /// build cookbook settings announces (`path`, `git`, `supermarket`,
    /// `enterprise` or `server`); an error when none does. When several
    /// do, the first entry's is taken.
    pub fn build_cookbook_location(&self) -> (r: DeliveryResult<BuildCookbookLocation>)
        ensures
            match r {
                Ok(loc) => exists|i: int| 0 <= i < self.build_cookbook@.len()
                    && location_of(#[trigger] self.build_cookbook@[i].0@) == Some(loc)
                    && forall|j: int| 0 <= j < i ==> location_of(#[trigger] self.build_cookbook@[j].0@) is None,
                Err(e) => e.kind is NoValidBuildCookbook && e.detail is None && forall|i: int|
                    0 <= i < self.build_cookbook@.len() ==> location_of(#[trigger] self.build_cookbook@[i].0@) is None,
            },
    {
        let mut i: usize = 0;
        while i < self.build_cookbook.len()
            invariant
                i <= self.build_cookbook@.len(),
                forall|j: int| 0 <= j < i ==> location_of(#[trigger] self.build_cookbook@[j].0@) is None,
            decreases self.build_cookbook.len() - i,
        {
            let key = self.build_cookbook[i].0.as_str();
            let found = if str_eq(key, "path") {
                Some(BuildCookbookLocation::Local)
            } else if str_eq(key, "git") {
                Some(BuildCookbookLocation::Git)
            } else if str_eq(key, "supermarket") {
                Some(BuildCookbookLocation::Supermarket)
            } else if str_eq(key, "enterprise") {
                Some(BuildCookbookLocation::Workflow)
            } else if str_eq(key, "server") {
                Some(BuildCookbookLocation::ChefServer)
            } else {
                None
            };
            match found {
                Some(loc) => {
                    assert(location_of(self.build_cookbook@[i as int].0@) == Some(loc));
                    return Ok(loc);
                },
                None => {},
            }
            i = i + 1;
        }
        Err(DeliveryError { kind: Kind::NoValidBuildCookbook, detail: None })
    }

    /// The value of a build cookbook setting.
    pub fn build_cookbook_get(&self, key: &str) -> (r: DeliveryResult<String>)
        ensures
            match key_index(pair_views(self.build_cookbook@), key@) {
                Some(i) => r matches Ok(v) && v@ == self.build_cookbook@[i].1@,
                None => fails_with(r, Kind::MissingBuildCookbookField, missing_field_msg(key@)),
            },
    {
        let ghost pv = pair_views(self.build_cookbook@);
        proof {
            lemma_key_index(pv, key@);
        }
        let mut i: usize = 0;
        while i < self.build_cookbook.len()
            invariant
                i <= self.build_cookbook@.len(),
                pv == pair_views(self.build_cookbook@),
                pv.len() == self.build_cookbook@.len(),
                forall|j: int| 0 <= j < i ==> pv[j].0 != key@,
                match key_index(pv, key@) {
                    Some(k) => 0 <= k < pv.len() && pv[k].0 == key@ && forall|j: int| 0 <= j < k ==> pv[j].0 != key@,
                    None => forall|j: int| 0 <= j < pv.len() ==> pv[j].0 != key@,
                },
            decreases self.build_cookbook.len() - i,
        {
            assert(pv[i as int] == (self.build_cookbook@[i as int].0@, self.build_cookbook@[i as int].1@));
            if str_eq(self.build_cookbook[i].0.as_str(), key) {
                return Ok(self.build_cookbook[i].1.clone());
            }
            i = i + 1;
        }
        let mut msg = owned("Unable to find '");
        msg.append(key);
        msg.append("' field.");
        Err(DeliveryError { kind: Kind::MissingBuildCookbookField, detail: Some(msg) })
    }

    /// The build cookbook's name.
    pub fn build_cookbook_name(&self) -> (r: DeliveryResult<String>)
        ensures
            match key_index(pair_views(self.build_cookbook@), "name"@) {
                Some(i) => r matches Ok(v) && v@ == self.build_cookbook@[i].1@,
                None => fails_with(r, Kind::MissingBuildCookbookField, missing_field_msg("name"@)),
            },
    {
        self.build_cookbook_get("name")
    }

    /// The path of `config.json` in a project.
    pub fn config_file_path(p: &str) -> (r: String)
        ensures
            r@ == config_file_path_spec(p@),
    {
        let d = path_join(p, ".delivery");
        path_join(d.as_str(), "config.json")
    }

    /// The nearest `config.json` above `dir` (itself first); `has_config[i]`
    /// says whether the `i`-th ancestor holds `.delivery/config.json`.
    pub fn find_config_file(dir: &str, has_config: &Vec<bool>) -> (r: DeliveryResult<String>)
        requires
            has_config@.len() == ancestors_spec(dir@).len(),
        ensures
            match first_true(has_config@) {
                Some(i) => r matches Ok(p) && p@ == path_join_spec(ancestors_spec(dir@)[i], ".delivery/config.json"@),
                None => r matches Err(e) && e.kind is MissingProjectConfig && e.detail is None,
            },
    {
        let anc = crate::path::ancestors(dir);
        let mut i: usize = 0;
        while i < has_config.len()
            invariant
                i <= has_config@.len(),
                has_config@.len() == ancestors_spec(dir@).len(),
                views(anc@) == ancestors_spec(dir@),
                forall|j: int| 0 <= j < i ==> !has_config@[j],
            decreases has_config.len() - i,
        {
            if has_config[i] {
                proof {
                    crate::project::lemma_first_true_at(has_config@, i as int);
                }
                return Ok(path_join(anc[i].as_str(), ".delivery/config.json"));
            }
            i = i + 1;
        }
        proof {
            crate::project::lemma_first_true_none(has_config@);
        }
        Err(DeliveryError { kind: Kind::MissingProjectConfig, detail: None })
    }

    /// Whether a configuration could be loaded.
    pub fn validate_config_file(loaded: DeliveryResult<DeliveryConfig>) -> (r: DeliveryResult<bool>)
        ensures
            match loaded {
                Ok(_) => r == Ok::<bool, DeliveryError>(true),
                Err(e) => r matches Err(x) && x == e,
            },
    {
        match loaded {
            Ok(_) => Ok(true),
            Err(e) => Err(e),
        }
    }

    /// The `git add` arguments for a project's `config.json`.
    pub fn git_add_config_args(proj_path: &str) -> (r: Vec<String>)
        ensures
            views(r@) == seq!["add"@, config_file_path_spec(proj_path@)],
    {
        let mut r: Vec<String> = Vec::new();
        r.push(owned("add"));
        r.push(DeliveryConfig::config_file_path(proj_path));
        assert(views(r@) =~= seq!["add"@, config_file_path_spec(proj_path@)]);
        r
    }

    /// The configuration a project's file gives: read as version 2
    /// (`v2`, with the parser's message on failure), else as version 1
    /// (`v1`, needed only then) and converted. When neither reads, the
    /// error tells both reasons.
    pub fn load_config(v2: Result<DeliveryConfig, String>, v1: Option<DeliveryResult<DeliveryConfigV1>>) -> (r: DeliveryResult<DeliveryConfig>)
        requires
            v2 is Err ==> v1 is Some,
        ensures
            match v2 {
                Ok(c) => r matches Ok(x) && x == c,
                Err(e2) => match v1 {
                    Some(Ok(c1)) => converted(r, c1),
                    Some(Err(e1)) => fails_with(r, Kind::DeliveryConfigParse, parse_failure_msg(e2@, kind_message(e1.kind))),
                    None => false,
                },
            },
    {
        match v2 {
            Ok(c) => Ok(c),
            Err(e2) => match v1 {
                Some(Ok(c1)) => c1.convert_to_v2(),
                Some(Err(e1)) => {
                    let mut msg = owned("  version 2: ");
                    msg.append(e2.as_str());
                    msg.append("\n  version 1: ");
                    let m1 = e1.message();
                    msg.append(m1.as_str());
                    msg.append("\n\nSee: https://docs.chef.io/config_json_delivery.html");
                    Err(DeliveryError { kind: Kind::DeliveryConfigParse, detail: Some(msg) })
                },
                None => Err(DeliveryError { kind: Kind::DeliveryConfigParse, detail: None }),
            },
        }
    }
}

/// The message when a configuration reads neither as version 2 nor 1.
pub open spec fn parse_failure_msg(e2: Seq<char>, e1: Seq<char>) -> Seq<char> {
    "  version 2: "@ + e2 + "\n  version 1: "@ + e1 + "\n\nSee: https://docs.chef.io/config_json_delivery.html"@
}

/// A version 1 project configuration, still read.
#[derive(Debug)]
pub struct DeliveryConfigV1 {
    pub version: String,
    pub build_cookbook: String,
    pub skip_phases: Option<Vec<String>>,
    pub build_nodes: Option<Vec<(String, Vec<String>)>>,
}

impl Default for DeliveryConfigV1 {
    fn default() -> (r: DeliveryConfigV1)
        ensures
            r.version@ == "1"@,
            r.build_cookbook@ == "./.delivery/build_cookbook"@,
            r.skip_phases matches Some(v) && v@.len() == 0,
            r.build_nodes matches Some(v) && v@.len() == 0,
    {
        DeliveryConfigV1 {
            version: owned("1"),
            build_cookbook: owned("./.delivery/build_cookbook"),
            skip_phases: Some(Vec::new()),
            build_nodes: Some(Vec::new()),
        }
    }
}

/// The build cookbook settings of a version 1 configuration: a value with
/// a `/` is a local path (named by its last component), anything else the
/// name of a cookbook on the Chef server.
pub open spec fn v1_build_cookbook(bc: Seq<char>) -> Option<Seq<(Seq<char>, Seq<char>)>> {
    if contains_seq(bc, "/"@) {
        match file_name_spec(bc) {
            Some(n) => Some(seq![("name"@, n), ("path"@, bc)]),
            None => None,
        }
    } else {
        Some(seq![("name"@, bc), ("server"@, "true"@)])
    }
}

/// `r` is the version 2 form of `c1`: the build cookbook setting becomes
/// keyed entries, the version stays `1`, and the rest is carried over.
pub open spec fn converted(r: DeliveryResult<DeliveryConfig>, c1: DeliveryConfigV1) -> bool {
    match v1_build_cookbook(c1.build_cookbook@) {
        None => fails_with(r, Kind::NoValidBuildCookbook, "V1: Expected a valid path to a build_cookbook"@),
        Some(bc) => r matches Ok(c) && c.version@ == "1"@ && pair_views(c.build_cookbook@) == bc
            && unique_keys(pair_views(c.build_cookbook@))
            && c.skip_phases == c1.skip_phases && c.build_nodes == c1.build_nodes
            && c.job_dispatch is None && c.dependencies is None,
    }
}

impl DeliveryConfigV1 {
    /// The version 2 form: the build cookbook setting becomes keyed
    /// entries, and the version stays `1`.
    pub fn convert_to_v2(self) -> (r: DeliveryResult<DeliveryConfig>)
        ensures
            converted(r, self),
    {
        proof {
            reveal_strlit("name");
            reveal_strlit("path");
            reveal_strlit("server");
            assert("name"@[0] != "path"@[0]);
            assert("name"@[0] != "server"@[0]);
        }
        let mut bc: Vec<(String, String)> = Vec::new();
        if contains(self.build_cookbook.as_str(), "/") {
            let name = match file_name(self.build_cookbook.as_str()) {
                Some(n) => n,
                None => {
                    return Err(DeliveryError {
                        kind: Kind::NoValidBuildCookbook,
                        detail: Some(owned("V1: Expected a valid path to a build_cookbook")),
                    })
                },
            };
            let ghost n = name@;
            let ghost p = self.build_cookbook@;
            bc.push((owned("name"), name));
            bc.push((owned("path"), self.build_cookbook));
            assert(pair_views(bc@) =~= seq![("name"@, n), ("path"@, p)]);
        } else {
            let ghost p = self.build_cookbook@;
            bc.push((owned("name"), self.build_cookbook));
            bc.push((owned("server"), owned("true")));
            assert(pair_views(bc@) =~= seq![("name"@, p), ("server"@, "true"@)]);
        }
        Ok(DeliveryConfig {
            version: owned("1"),
            build_cookbook: bc,
            skip_phases: self.skip_phases,
            build_nodes: self.build_nodes,
            job_dispatch: None,
            dependencies: None,
        })
    }
}

} // verus!
