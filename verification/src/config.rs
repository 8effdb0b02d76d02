//! The command line configuration (`cli.toml`) and what is derived from it.
use vstd::prelude::*;
use crate::errors::{DeliveryError, DeliveryResult, Kind, opt_view, outcome, missing, ok_with, missing_config, clone_opt};
use crate::path::{path_join, path_join_spec, ancestors, ancestors_spec};
use crate::text::{owned, views, chars_of};

verus! {

/// Command line configuration; every value is optional.
#[derive(Debug)]
pub struct Config {
    pub server: Option<String>,
    pub api_port: Option<String>,
    pub api_protocol: Option<String>,
    pub user: Option<String>,
    pub enterprise: Option<String>,
    pub organization: Option<String>,
    pub project: Option<String>,
    pub git_port: Option<String>,
    pub pipeline: Option<String>,
    pub token_file: Option<String>,
    pub generator: Option<String>,
    pub non_interactive: Option<bool>,
    pub auto_bump: Option<bool>,
    pub config_json: Option<String>,
    pub saml: Option<bool>,
    pub fips: Option<bool>,
    pub fips_git_port: Option<String>,
    pub fips_custom_cert_filename: Option<String>,
    pub a2_mode: Option<bool>,
}

/// The mathematical view of a configuration.
pub struct ConfigView {
    pub server: Option<Seq<char>>,
    pub api_port: Option<Seq<char>>,
    pub api_protocol: Option<Seq<char>>,
    pub user: Option<Seq<char>>,
    pub enterprise: Option<Seq<char>>,
    pub organization: Option<Seq<char>>,
    pub project: Option<Seq<char>>,
    pub git_port: Option<Seq<char>>,
    pub pipeline: Option<Seq<char>>,
    pub token_file: Option<Seq<char>>,
    pub generator: Option<Seq<char>>,
    pub non_interactive: Option<bool>,
    pub auto_bump: Option<bool>,
    pub config_json: Option<Seq<char>>,
    pub saml: Option<bool>,
    pub fips: Option<bool>,
    pub fips_git_port: Option<Seq<char>>,
    pub fips_custom_cert_filename: Option<Seq<char>>,
    pub a2_mode: Option<bool>,
}

impl View for Config {
    type V = ConfigView;

    open spec fn view(&self) -> ConfigView {
        ConfigView {
            server: opt_view(self.server),
            api_port: opt_view(self.api_port),
            api_protocol: opt_view(self.api_protocol),
            user: opt_view(self.user),
            enterprise: opt_view(self.enterprise),
            organization: opt_view(self.organization),
            project: opt_view(self.project),
            git_port: opt_view(self.git_port),
            pipeline: opt_view(self.pipeline),
            token_file: opt_view(self.token_file),
            generator: opt_view(self.generator),
            non_interactive: self.non_interactive,
            auto_bump: self.auto_bump,
            config_json: opt_view(self.config_json),
            saml: self.saml,
            fips: self.fips,
            fips_git_port: opt_view(self.fips_git_port),
            fips_custom_cert_filename: opt_view(self.fips_custom_cert_filename),
            a2_mode: self.a2_mode,
        }
    }
}

/// `b` when it holds a value, `a` otherwise.
pub open spec fn pick<T>(a: Option<T>, b: Option<T>) -> Option<T> {
    if b is Some {
        b
    } else {
        a
    }
}

/// `a` with every value that `b` holds taking precedence.
pub open spec fn overridden(a: ConfigView, b: ConfigView) -> ConfigView {
    ConfigView {
        server: pick(a.server, b.server),
        api_port: pick(a.api_port, b.api_port),
        api_protocol: pick(a.api_protocol, b.api_protocol),
        user: pick(a.user, b.user),
        enterprise: pick(a.enterprise, b.enterprise),
        organization: pick(a.organization, b.organization),
        project: pick(a.project, b.project),
        git_port: pick(a.git_port, b.git_port),
        pipeline: pick(a.pipeline, b.pipeline),
        token_file: pick(a.token_file, b.token_file),
        generator: pick(a.generator, b.generator),
        non_interactive: pick(a.non_interactive, b.non_interactive),
        auto_bump: pick(a.auto_bump, b.auto_bump),
        config_json: pick(a.config_json, b.config_json),
        saml: pick(a.saml, b.saml),
        fips: pick(a.fips, b.fips),
        fips_git_port: pick(a.fips_git_port, b.fips_git_port),
        fips_custom_cert_filename: pick(a.fips_custom_cert_filename, b.fips_custom_cert_filename),
        a2_mode: pick(a.a2_mode, b.a2_mode),
    }
}

/// The configuration that holds no value.
pub open spec fn empty_view() -> ConfigView {
    ConfigView {
        server: None,
        api_port: None,
        api_protocol: None,
        user: None,
        enterprise: None,
        organization: None,
        project: None,
        git_port: None,
        pipeline: None,
        token_file: None,
        generator: None,
        non_interactive: None,
        auto_bump: None,
        config_json: None,
        saml: None,
        fips: None,
        fips_git_port: None,
        fips_custom_cert_filename: None,
        a2_mode: None,
    }
}

/// The default configuration: HTTPS, git port 8989, pipeline `master`.
pub open spec fn default_view() -> ConfigView {
    ConfigView {
        server: None,
        api_port: None,
        api_protocol: Some("https"@),
        user: None,
        enterprise: None,
        organization: None,
        project: None,
        git_port: Some("8989"@),
        pipeline: Some("master"@),
        token_file: None,
        generator: None,
        non_interactive: None,
        auto_bump: None,
        config_json: None,
        saml: None,
        fips: None,
        fips_git_port: None,
        fips_custom_cert_filename: None,
        a2_mode: Some(false),
    }
}

/// A present value, or the message saying it is missing.
pub open spec fn field(o: Option<Seq<char>>, msg: Seq<char>) -> Result<Seq<char>, Seq<char>> {
    match o {
        Some(v) => Ok(v),
        None => Err(msg),
    }
}

/// The message for a missing `server`.
pub open spec fn server_missing() -> Seq<char> {
    "Server not set; try --server or set it in your .toml config file"@
}

/// The message for a missing `api_port`.
pub open spec fn api_port_missing() -> Seq<char> {
    "API port not set; try --api-port or set it in your .toml config file"@
}

/// The message for a missing `api_protocol`.
pub open spec fn api_protocol_missing() -> Seq<char> {
    "api_protocol not set; set it in your cli.toml"@
}

/// The message for a missing `user`.
pub open spec fn user_missing() -> Seq<char> {
    "User not set; try --user or set it in your .toml config file"@
}

/// The message for a missing `enterprise`.
pub open spec fn enterprise_missing() -> Seq<char> {
    "Enterprise not set; try --ent or set it in your .toml config file"@
}

/// The message for a missing `organization`.
pub open spec fn organization_missing() -> Seq<char> {
    "Organization not set; try --org or set it in your .toml config file"@
}

/// The message for a missing `project`.
pub open spec fn project_missing() -> Seq<char> {
    "Project not set; try --project or set it in your .toml config file"@
}

/// The message for a missing `git_port`.
pub open spec fn git_port_missing() -> Seq<char> {
    "Git Port not set; please set it in your .toml config file"@
}

/// The message for a missing `pipeline`.
pub open spec fn pipeline_missing() -> Seq<char> {
    "Pipeline not set; try --for or set it in your .toml config file"@
}

/// The message for a missing `token_file`.
pub open spec fn token_file_missing() -> Seq<char> {
    "token_file not set; set it in your cli.toml"@
}

/// The message for a missing `generator`.
pub open spec fn generator_missing() -> Seq<char> {
    "build_cookbook generator not set; set it in your cli.toml"@
}

/// The message for a missing `config_json`.
pub open spec fn config_json_missing() -> Seq<char> {
    "config_json not set; set it in your cli.toml"@
}

/// The message for a missing `fips_git_port`.
pub open spec fn fips_git_port_missing() -> Seq<char> {
    "You did not set the fips_git_port. Set this value in your cli.toml or pass --fips-git-port.\nIt should be set to any port that is free and open on localhost (i.e. `fips_git_port = \"36534\"` in your cli.toml)."@
}

/// The message for a missing `a2_mode`.
pub open spec fn a2_mode_missing() -> Seq<char> {
    "You did not set the a2_mode. Set this value in your cli.toml."@
}

/// `b` when it holds a value, `a` otherwise.
pub fn pick_value<T>(a: Option<T>, b: Option<T>) -> (r: Option<T>)
    ensures
        r == pick(a, b),
{
    match b {
        Some(v) => Some(v),
        None => a,
    }
}

/// `b` when it holds a string, `a` otherwise.
pub fn pick_string(a: Option<String>, b: Option<String>) -> (r: Option<String>)
    ensures
        opt_view(r) == pick(opt_view(a), opt_view(b)),
{
    match b {
        Some(v) => Some(v),
        None => a,
    }
}

/// The API host, with `:port` appended when an API port is set.
pub open spec fn host_and_port_spec(c: ConfigView) -> Result<Seq<char>, Seq<char>> {
    match c.server {
        None => Err(server_missing()),
        Some(s) => Ok(
            match c.api_port {
                Some(p) => s + ":"@ + p,
                None => s,
            },
        ),
    }
}

/// The API host and port, suffixed with `/workflow` in A2 mode.
pub open spec fn base_resource_spec(c: ConfigView) -> Result<Seq<char>, Seq<char>> {
    match host_and_port_spec(c) {
        Ok(h) => Ok(
            if c.a2_mode == Some(true) {
                h + "/workflow"@
            } else {
                h
            },
        ),
        Err(m) => Err(m),
    }
}

/// The SSH URL of a project's git repository on the Delivery server.
pub open spec fn ssh_url_text(
    u: Seq<char>,
    e: Seq<char>,
    host_port: Seq<char>,
    o: Seq<char>,
    p: Seq<char>,
) -> Seq<char> {
    "ssh://"@ + u + "@"@ + e + "@"@ + host_port + "/"@ + e + "/"@ + o + "/"@ + p
}

/// The git URL from the user, enterprise, organization and project, in
/// that order of checking, once the host and port are known.
pub open spec fn ssh_url_with_host(c: ConfigView, host_port: Seq<char>) -> Result<Seq<char>, Seq<char>> {
    match c.user {
        None => Err(user_missing()),
        Some(u) => match c.enterprise {
            None => Err(enterprise_missing()),
            Some(e) => match c.organization {
                None => Err(organization_missing()),
                Some(o) => match c.project {
                    None => Err(project_missing()),
                    Some(p) => Ok(ssh_url_text(u, e, host_port, o, p)),
                },
            },
        },
    }
}

/// The git URL through the Delivery server's git port.
pub open spec fn ssh_standard_url_spec(c: ConfigView) -> Result<Seq<char>, Seq<char>> {
    match c.server {
        None => Err(server_missing()),
        Some(s) => ssh_url_with_host(
            c,
            match c.git_port {
                Some(p) => s + ":"@ + p,
                None => s,
            },
        ),
    }
}

/// The git URL through the local FIPS tunnel port.
pub open spec fn ssh_fips_url_spec(c: ConfigView) -> Result<Seq<char>, Seq<char>> {
    match c.fips_git_port {
        None => Err(fips_git_port_missing()),
        Some(p) => ssh_url_with_host(c, "localhost:"@ + p),
    }
}

/// The git URL: through the FIPS tunnel when FIPS mode is on.
pub open spec fn ssh_url_spec(c: ConfigView) -> Result<Seq<char>, Seq<char>> {
    if c.fips == Some(true) {
        ssh_fips_url_spec(c)
    } else {
        ssh_standard_url_spec(c)
    }
}

/// A web UI URL `{protocol}://{server}/e/{enterprise}/{rest}`.
pub open spec fn ui_url_spec(c: ConfigView, rest: Seq<char>) -> Result<Seq<char>, Seq<char>> {
    match c.api_protocol {
        None => Err(api_protocol_missing()),
        Some(p) => match c.server {
            None => Err(server_missing()),
            Some(s) => match c.enterprise {
                None => Err(enterprise_missing()),
                Some(e) => Ok(p + "://"@ + s + "/e/"@ + e + "/"@ + rest),
            },
        },
    }
}

/// The URL of the list of projects of the configured organization.
pub open spec fn projects_url_spec(c: ConfigView) -> Result<Seq<char>, Seq<char>> {
    match ui_url_spec(c, "#/organizations/"@) {
        Err(m) => Err(m),
        Ok(u) => match c.organization {
            None => Err(organization_missing()),
            Some(o) => Ok(u + o),
        },
    }
}

/// The `cli.toml` path looked for in each directory from `p` upward.
pub open spec fn cli_toml_candidates_spec(p: Seq<char>) -> Seq<Seq<char>> {
    ancestors_spec(p).map_values(|a: Seq<char>| path_join_spec(path_join_spec(a, ".delivery"@), "cli.toml"@))
}

/// Whether a string slice is empty.
pub fn is_empty(s: &str) -> (r: bool)
    ensures
        r == (s@.len() == 0),
{
    chars_of(s).len() == 0
}

/// The value of an optional setting, or a `MissingConfig` error with `msg`.
pub fn value_or_missing(o: &Option<String>, msg: &str) -> (r: DeliveryResult<String>)
    ensures
        outcome(r, field(opt_view(*o), msg@)),
{
    match o {
        Some(v) => Ok(v.clone()),
        None => Err(missing_config(msg)),
    }
}

impl Default for Config {
    fn default() -> (r: Config)
        ensures
            r@ == default_view(),
    {
        Config {
            server: None,
            api_port: None,
            api_protocol: Some(owned("https")),
            user: None,
            enterprise: None,
            organization: None,
            project: None,
            git_port: Some(owned("8989")),
            pipeline: Some(owned("master")),
            token_file: None,
            generator: None,
            non_interactive: None,
            auto_bump: None,
            config_json: None,
            saml: None,
            fips: None,
            fips_git_port: None,
            fips_custom_cert_filename: None,
            a2_mode: Some(false),
        }
    }
}

impl Config {
    /// A configuration with no value set.
    pub fn empty() -> (r: Config)
        ensures
            r@ == empty_view(),
    {
        Config {
            server: None,
            api_port: None,
            api_protocol: None,
            user: None,
            enterprise: None,
            organization: None,
            project: None,
            git_port: None,
            pipeline: None,
            token_file: None,
            generator: None,
            non_interactive: None,
            auto_bump: None,
            config_json: None,
            saml: None,
            fips: None,
            fips_git_port: None,
            fips_custom_cert_filename: None,
            a2_mode: None,
        }
    }

    /// The `server` value, or a `MissingConfig` error when it is unset.
    pub fn server(&self) -> (r: DeliveryResult<String>)
        ensures
            outcome(r, field(self@.server, server_missing())),
    {
        value_or_missing(&self.server, "Server not set; try --server or set it in your .toml config file")
    }

    /// This configuration with `server` set to `v`, unless `v` is empty.
    pub fn set_server(self, v: &str) -> (r: Config)
        ensures
            r@ == (ConfigView { server: if v@.len() == 0 { self@.server } else { Some(v@) }, ..self@ }),
    {
        let mut c = self;
        if !is_empty(v) {
            c.server = Some(owned(v));
        }
        c
    }

    /// The `api_port` value, or a `MissingConfig` error when it is unset.
    pub fn api_port(&self) -> (r: DeliveryResult<String>)
        ensures
            outcome(r, field(self@.api_port, api_port_missing())),
    {
        value_or_missing(&self.api_port, "API port not set; try --api-port or set it in your .toml config file")
    }

    /// This configuration with `api_port` set to `v`, unless `v` is empty.
    pub fn set_api_port(self, v: &str) -> (r: Config)
        ensures
            r@ == (ConfigView { api_port: if v@.len() == 0 { self@.api_port } else { Some(v@) }, ..self@ }),
    {
        let mut c = self;
        if !is_empty(v) {
            c.api_port = Some(owned(v));
        }
        c
    }

    /// The `api_protocol` value, or a `MissingConfig` error when it is unset.
    pub fn api_protocol(&self) -> (r: DeliveryResult<String>)
        ensures
            outcome(r, field(self@.api_protocol, api_protocol_missing())),
    {
        value_or_missing(&self.api_protocol, "api_protocol not set; set it in your cli.toml")
    }

    /// This configuration with `api_protocol` set to `v`, unless `v` is empty.
    pub fn set_api_protocol(self, v: &str) -> (r: Config)
        ensures
            r@ == (ConfigView { api_protocol: if v@.len() == 0 { self@.api_protocol } else { Some(v@) }, ..self@ }),
    {
        let mut c = self;
        if !is_empty(v) {
            c.api_protocol = Some(owned(v));
        }
        c
    }

    /// The `user` value, or a `MissingConfig` error when it is unset.
    pub fn user(&self) -> (r: DeliveryResult<String>)
        ensures
            outcome(r, field(self@.user, user_missing())),
    {
        value_or_missing(&self.user, "User not set; try --user or set it in your .toml config file")
    }

    /// This configuration with `user` set to `v`, unless `v` is empty.
    pub fn set_user(self, v: &str) -> (r: Config)
        ensures
            r@ == (ConfigView { user: if v@.len() == 0 { self@.user } else { Some(v@) }, ..self@ }),
    {
        let mut c = self;
        if !is_empty(v) {
            c.user = Some(owned(v));
        }
        c
    }

    /// The `enterprise` value, or a `MissingConfig` error when it is unset.
    pub fn enterprise(&self) -> (r: DeliveryResult<String>)
        ensures
            outcome(r, field(self@.enterprise, enterprise_missing())),
    {
        value_or_missing(&self.enterprise, "Enterprise not set; try --ent or set it in your .toml config file")
    }

    /// This configuration with `enterprise` set to `v`, unless `v` is empty.
    pub fn set_enterprise(self, v: &str) -> (r: Config)
        ensures
            r@ == (ConfigView { enterprise: if v@.len() == 0 { self@.enterprise } else { Some(v@) }, ..self@ }),
    {
        let mut c = self;
        if !is_empty(v) {
            c.enterprise = Some(owned(v));
        }
        c
    }

    /// The `organization` value, or a `MissingConfig` error when it is unset.
    pub fn organization(&self) -> (r: DeliveryResult<String>)
        ensures
            outcome(r, field(self@.organization, organization_missing())),
    {
        value_or_missing(&self.organization, "Organization not set; try --org or set it in your .toml config file")
    }

    /// This configuration with `organization` set to `v`, unless `v` is empty.
    pub fn set_organization(self, v: &str) -> (r: Config)
        ensures
            r@ == (ConfigView { organization: if v@.len() == 0 { self@.organization } else { Some(v@) }, ..self@ }),
    {
        let mut c = self;
        if !is_empty(v) {
            c.organization = Some(owned(v));
        }
        c
    }

    /// The `project` value, or a `MissingConfig` error when it is unset.
    pub fn project(&self) -> (r: DeliveryResult<String>)
        ensures
            outcome(r, field(self@.project, project_missing())),
    {
        value_or_missing(&self.project, "Project not set; try --project or set it in your .toml config file")
    }

    /// This configuration with `project` set to `v`, unless `v` is empty.
    pub fn set_project(self, v: &str) -> (r: Config)
        ensures
            r@ == (ConfigView { project: if v@.len() == 0 { self@.project } else { Some(v@) }, ..self@ }),
    {
        let mut c = self;
        if !is_empty(v) {
            c.project = Some(owned(v));
        }
        c
    }

    /// The `git_port` value, or a `MissingConfig` error when it is unset.
    pub fn git_port(&self) -> (r: DeliveryResult<String>)
        ensures
            outcome(r, field(self@.git_port, git_port_missing())),
    {
        value_or_missing(&self.git_port, "Git Port not set; please set it in your .toml config file")
    }

    /// This configuration with `git_port` set to `v`, unless `v` is empty.
    pub fn set_git_port(self, v: &str) -> (r: Config)
        ensures
            r@ == (ConfigView { git_port: if v@.len() == 0 { self@.git_port } else { Some(v@) }, ..self@ }),
    {
        let mut c = self;
        if !is_empty(v) {
            c.git_port = Some(owned(v));
        }
        c
    }

    /// The `pipeline` value, or a `MissingConfig` error when it is unset.
    pub fn pipeline(&self) -> (r: DeliveryResult<String>)
        ensures
            outcome(r, field(self@.pipeline, pipeline_missing())),
    {
        value_or_missing(&self.pipeline, "Pipeline not set; try --for or set it in your .toml config file")
    }

    /// This configuration with `pipeline` set to `v`, unless `v` is empty.
    pub fn set_pipeline(self, v: &str) -> (r: Config)
        ensures
            r@ == (ConfigView { pipeline: if v@.len() == 0 { self@.pipeline } else { Some(v@) }, ..self@ }),
    {
        let mut c = self;
        if !is_empty(v) {
            c.pipeline = Some(owned(v));
        }
        c
    }

    /// The `token_file` value, or a `MissingConfig` error when it is unset.
    pub fn token_file(&self) -> (r: DeliveryResult<String>)
        ensures
            outcome(r, field(self@.token_file, token_file_missing())),
    {
        value_or_missing(&self.token_file, "token_file not set; set it in your cli.toml")
    }

    /// This configuration with `token_file` set to `v`, unless `v` is empty.
    pub fn set_token_file(self, v: &str) -> (r: Config)
        ensures
            r@ == (ConfigView { token_file: if v@.len() == 0 { self@.token_file } else { Some(v@) }, ..self@ }),
    {
        let mut c = self;
        if !is_empty(v) {
            c.token_file = Some(owned(v));
        }
        c
    }

    /// The `generator` value, or a `MissingConfig` error when it is unset.
    pub fn generator(&self) -> (r: DeliveryResult<String>)
        ensures
            outcome(r, field(self@.generator, generator_missing())),
    {
        value_or_missing(&self.generator, "build_cookbook generator not set; set it in your cli.toml")
    }

    /// This configuration with `generator` set to `v`, unless `v` is empty.
    pub fn set_generator(self, v: &str) -> (r: Config)
        ensures
            r@ == (ConfigView { generator: if v@.len() == 0 { self@.generator } else { Some(v@) }, ..self@ }),
    {
        let mut c = self;
        if !is_empty(v) {
            c.generator = Some(owned(v));
        }
        c
    }

    /// The `config_json` value, or a `MissingConfig` error when it is unset.
    pub fn config_json(&self) -> (r: DeliveryResult<String>)
        ensures
            outcome(r, field(self@.config_json, config_json_missing())),
    {
        value_or_missing(&self.config_json, "config_json not set; set it in your cli.toml")
    }

    /// This configuration with `config_json` set to `v`, unless `v` is empty.
    pub fn set_config_json(self, v: &str) -> (r: Config)
        ensures
            r@ == (ConfigView { config_json: if v@.len() == 0 { self@.config_json } else { Some(v@) }, ..self@ }),
    {
        let mut c = self;
        if !is_empty(v) {
            c.config_json = Some(owned(v));
        }
        c
    }

    /// The `fips_git_port` value, or a `MissingConfig` error when it is unset.
    pub fn fips_git_port(&self) -> (r: DeliveryResult<String>)
        ensures
            outcome(r, field(self@.fips_git_port, fips_git_port_missing())),
    {
        value_or_missing(&self.fips_git_port, "You did not set the fips_git_port. Set this value in your cli.toml or pass --fips-git-port.\nIt should be set to any port that is free and open on localhost (i.e. `fips_git_port = \"36534\"` in your cli.toml).")
    }

    /// This configuration with `fips_git_port` set to `v`, unless `v` is empty.
    pub fn set_fips_git_port(self, v: &str) -> (r: Config)
        ensures
            r@ == (ConfigView { fips_git_port: if v@.len() == 0 { self@.fips_git_port } else { Some(v@) }, ..self@ }),
    {
        let mut c = self;
        if !is_empty(v) {
            c.fips_git_port = Some(owned(v));
        }
        c
    }

    /// The `a2_mode` flag, or a `MissingConfig` error when it is unset.
    pub fn a2_mode(&self) -> (r: DeliveryResult<bool>)
        ensures
            match self.a2_mode {
                Some(b) => r == Ok::<bool, DeliveryError>(b),
                None => missing(r, a2_mode_missing()),
            },
    {
        match self.a2_mode {
            Some(b) => Ok(b),
            None => Err(missing_config("You did not set the a2_mode. Set this value in your cli.toml.")),
        }
    }

    /// This configuration with `a2_mode` set to `v`.
    pub fn set_a2_mode(self, v: bool) -> (r: Config)
        ensures
            r@ == (ConfigView { a2_mode: Some(v), ..self@ }),
    {
        let mut c = self;
        c.a2_mode = Some(v);
        c
    }

    /// This configuration with `a2_mode` set when `v` holds a value.
    pub fn set_a2_mode_if_def(self, v: Option<bool>) -> (r: Config)
        ensures
            r@ == (ConfigView { a2_mode: pick(self@.a2_mode, v), ..self@ }),
    {
        let mut c = self;
        if let Some(b) = v {
            c.a2_mode = Some(b);
        }
        c
    }

    /// Replaces every value of this configuration that `config` holds.
    pub fn override_with(&mut self, config: Config)
        ensures
            final(self)@ == overridden(old(self)@, config@),
    {
        self.server = pick_string(self.server.take(), config.server);
        self.api_port = pick_string(self.api_port.take(), config.api_port);
        self.api_protocol = pick_string(self.api_protocol.take(), config.api_protocol);
        self.user = pick_string(self.user.take(), config.user);
        self.enterprise = pick_string(self.enterprise.take(), config.enterprise);
        self.organization = pick_string(self.organization.take(), config.organization);
        self.project = pick_string(self.project.take(), config.project);
        self.git_port = pick_string(self.git_port.take(), config.git_port);
        self.pipeline = pick_string(self.pipeline.take(), config.pipeline);
        self.token_file = pick_string(self.token_file.take(), config.token_file);
        self.generator = pick_string(self.generator.take(), config.generator);
        self.non_interactive = pick_value(self.non_interactive.take(), config.non_interactive);
        self.auto_bump = pick_value(self.auto_bump.take(), config.auto_bump);
        self.config_json = pick_string(self.config_json.take(), config.config_json);
        self.saml = pick_value(self.saml.take(), config.saml);
        self.fips = pick_value(self.fips.take(), config.fips);
        self.fips_git_port = pick_string(self.fips_git_port.take(), config.fips_git_port);
        self.fips_custom_cert_filename = pick_string(self.fips_custom_cert_filename.take(), config.fips_custom_cert_filename);
        self.a2_mode = pick_value(self.a2_mode.take(), config.a2_mode);
    }

    /// The host and port of the Delivery API: the server, with `:port`
    /// appended when an API port is configured.
    pub fn api_host_and_port(&self) -> (r: DeliveryResult<String>)
        ensures
            outcome(r, host_and_port_spec(self@)),
    {
        let s = self.server()?;
        match &self.api_port {
            Some(p) => {
                let mut r = s;
                r.append(":");
                r.append(p.as_str());
                Ok(r)
            },
            None => Ok(s),
        }
    }

    /// The host and port, suffixed with the workflow resource in A2 mode.
    pub fn api_base_resource(&self) -> (r: DeliveryResult<String>)
        ensures
            outcome(r, base_resource_spec(self@)),
    {
        let h = self.api_host_and_port()?;
        let a2 = match self.a2_mode {
            Some(b) => b,
            None => false,
        };
        if a2 {
            let mut r = h;
            r.append("/workflow");
            Ok(r)
        } else {
            Ok(h)
        }
    }

    /// Builds the git URL once the host and port are known.
    fn ssh_url_for_host(&self, host_port: String) -> (r: DeliveryResult<String>)
        ensures
            outcome(r, ssh_url_with_host(self@, host_port@)),
    {
        let u = self.user()?;
        let e = self.enterprise()?;
        let o = self.organization()?;
        let p = self.project()?;
        let mut r = owned("ssh://");
        r.append(u.as_str());
        r.append("@");
        r.append(e.as_str());
        r.append("@");
        r.append(host_port.as_str());
        r.append("/");
        r.append(e.as_str());
        r.append("/");
        r.append(o.as_str());
        r.append("/");
        r.append(p.as_str());
        Ok(r)
    }

    /// The SSH URL to talk to Delivery's git: through the local FIPS
    /// tunnel when FIPS mode is on, to the server's git port otherwise.
    pub fn delivery_git_ssh_url(&self) -> (r: DeliveryResult<String>)
        ensures
            outcome(r, ssh_url_spec(self@)),
    {
        let fips = match self.fips {
            Some(b) => b,
            None => false,
        };
        if fips {
            self.delivery_git_fips_enabled_url()
        } else {
            self.delivery_git_ssh_standard_url()
        }
    }

    /// The git URL through the server's git port.
    pub fn delivery_git_ssh_standard_url(&self) -> (r: DeliveryResult<String>)
        ensures
            outcome(r, ssh_standard_url_spec(self@)),
    {
        let s = self.server()?;
        let host_port = match &self.git_port {
            Some(p) => {
                let mut h = s;
                h.append(":");
                h.append(p.as_str());
                h
            },
            None => s,
        };
        self.ssh_url_for_host(host_port)
    }

    /// The git URL through the FIPS tunnel on localhost.
    pub fn delivery_git_fips_enabled_url(&self) -> (r: DeliveryResult<String>)
        ensures
            outcome(r, ssh_fips_url_spec(self@)),
    {
        let port = self.fips_git_port()?;
        let mut h = owned("localhost:");
        h.append(port.as_str());
        self.ssh_url_for_host(h)
    }

    /// A parsed `cli.toml` laid over the defaults: every value the file
    /// sets wins. A parse error is passed on unchanged.
    pub fn parse_config(parsed: DeliveryResult<Config>) -> (r: DeliveryResult<Config>)
        ensures
            match parsed {
                Ok(p) => r matches Ok(c) && c@ == overridden(default_view(), p@),
                Err(_) => r == parsed,
            },
    {
        match parsed {
            Ok(p) => {
                let mut c = Config::default();
                c.override_with(p);
                Ok(c)
            },
            Err(e) => Err(e),
        }
    }

    /// The configuration in effect: the parsed `cli.toml` when one was
    /// found and parsed, the defaults otherwise.
    pub fn load_config(parsed: Option<DeliveryResult<Config>>) -> (r: Config)
        ensures
            r@ == match parsed {
                Some(Ok(c)) => c@,
                _ => default_view(),
            },
    {
        match parsed {
            Some(Ok(c)) => c,
            _ => Config::default(),
        }
    }

    /// The `.delivery/cli.toml` path to look for in `path` and in each of
    /// its ancestors, nearest first.
    pub fn dot_delivery_cli_candidates(path: &str) -> (r: Vec<String>)
        ensures
            views(r@) == cli_toml_candidates_spec(path@),
    {
        let dirs = ancestors(path);
        let mut r: Vec<String> = Vec::new();
        let mut i: usize = 0;
        while i < dirs.len()
            invariant
                i <= dirs.len(),
                views(dirs@) == ancestors_spec(path@),
                views(r@) == cli_toml_candidates_spec(path@).subrange(0, i as int),
            decreases dirs.len() - i,
        {
            let d = path_join(dirs[i].as_str(), ".delivery");
            let f = path_join(d.as_str(), "cli.toml");
            let ghost before = r@;
            r.push(f);
            assert(views(r@) == views(before).push(f@));
            assert(cli_toml_candidates_spec(path@).subrange(0, i + 1) == cli_toml_candidates_spec(path@).subrange(0, i as int).push(cli_toml_candidates_spec(path@)[i as int]));
            i = i + 1;
        }
        assert(cli_toml_candidates_spec(path@).subrange(0, dirs.len() as int) == cli_toml_candidates_spec(path@));
        r
    }

    /// The nearest `cli.toml` that exists: the first candidate whose
    /// `is_file` entry is true.
    pub fn dot_delivery_cli_path(candidates: &Vec<String>, is_file: &Vec<bool>) -> (r: Option<String>)
        requires
            candidates.len() == is_file.len(),
        ensures
            match r {
                Some(p) => exists|k: int|
                    0 <= k < candidates.len() && is_file@[k] && candidates@[k]@ == p@ && forall|j: int|
                        0 <= j < k ==> !is_file@[j],
                None => forall|j: int| 0 <= j < is_file.len() ==> !is_file@[j],
            },
    {
        let mut i: usize = 0;
        while i < candidates.len()
            invariant
                candidates.len() == is_file.len(),
                i <= candidates.len(),
                forall|j: int| 0 <= j < i ==> !is_file@[j],
            decreases candidates.len() - i,
        {
            if is_file[i] {
                return Some(candidates[i].clone());
            }
            i = i + 1;
        }
        None
    }

    /// The web UI page for managing users (SSH keys, permissions).
    pub fn users_url(&self) -> (r: DeliveryResult<String>)
        ensures
            outcome(r, ui_url_spec(self@, "#/users"@)),
    {
        self.ui_url("#/users")
    }

    /// The web UI page listing the organizations of the enterprise.
    pub fn organizations_url(&self) -> (r: DeliveryResult<String>)
        ensures
            outcome(r, ui_url_spec(self@, "#/organizations"@)),
    {
        self.ui_url("#/organizations")
    }

    /// The web UI page listing the projects of the organization.
    pub fn projects_url(&self) -> (r: DeliveryResult<String>)
        ensures
            outcome(r, projects_url_spec(self@)),
    {
        let u = self.ui_url("#/organizations/")?;
        let o = self.organization()?;
        let mut r = u;
        r.append(o.as_str());
        Ok(r)
    }

    fn ui_url(&self, rest: &str) -> (r: DeliveryResult<String>)
        ensures
            outcome(r, ui_url_spec(self@, rest@)),
    {
        let p = self.api_protocol()?;
        let s = self.server()?;
        let e = self.enterprise()?;
        let mut r = p;
        r.append("://");
        r.append(s.as_str());
        r.append("/e/");
        r.append(e.as_str());
        r.append("/");
        r.append(rest);
        Ok(r)
    }
}

impl Clone for Config {
    fn clone(&self) -> (r: Config)
        ensures
            r@ == self@,
    {
        Config {
            server: clone_opt(&self.server),
            api_port: clone_opt(&self.api_port),
            api_protocol: clone_opt(&self.api_protocol),
            user: clone_opt(&self.user),
            enterprise: clone_opt(&self.enterprise),
            organization: clone_opt(&self.organization),
            project: clone_opt(&self.project),
            git_port: clone_opt(&self.git_port),
            pipeline: clone_opt(&self.pipeline),
            token_file: clone_opt(&self.token_file),
            generator: clone_opt(&self.generator),
            non_interactive: self.non_interactive,
            auto_bump: self.auto_bump,
            config_json: clone_opt(&self.config_json),
            saml: self.saml,
            fips: self.fips,
            fips_git_port: clone_opt(&self.fips_git_port),
            fips_custom_cert_filename: clone_opt(&self.fips_custom_cert_filename),
            a2_mode: self.a2_mode,
        }
    }
}

/// Overriding with a configuration that holds no value changes nothing.
pub proof fn law_override_with_empty(a: ConfigView)
    ensures
        overridden(a, empty_view()) == a,
{
}

/// Overriding twice with the same configuration is the same as once.
pub proof fn law_override_idempotent(a: ConfigView, b: ConfigView)
    ensures
        overridden(overridden(a, b), b) == overridden(a, b),
{
}

/// Overriding in steps is the same as overriding with the merged
/// overrides: later values win either way.
pub proof fn law_override_associative(a: ConfigView, b: ConfigView, c: ConfigView)
    ensures
        overridden(overridden(a, b), c) == overridden(a, overridden(b, c)),
{
}

/// A parsed file that sets nothing yields the defaults; every value the
/// file sets is kept, and every value it leaves unset is the default.
pub proof fn law_parse_config_defaults(p: ConfigView)
    ensures
        overridden(default_view(), empty_view()) == default_view(),
        overridden(default_view(), p).server == pick(default_view().server, p.server),
        p.pipeline is None ==> overridden(default_view(), p).pipeline == Some("master"@),
        p.git_port is None ==> overridden(default_view(), p).git_port == Some("8989"@),
        p.api_protocol is None ==> overridden(default_view(), p).api_protocol == Some("https"@),
        p.a2_mode is None ==> overridden(default_view(), p).a2_mode == Some(false),
{
}

/// The API base resource is the host and port, with `/workflow` appended
/// exactly in A2 mode; both fail together when the server is unset.
pub proof fn law_base_resource_extends_host(c: ConfigView)
    ensures
        host_and_port_spec(c) is Err <==> base_resource_spec(c) is Err,
        c.a2_mode != Some(true) ==> base_resource_spec(c) == host_and_port_spec(c),
        c.a2_mode == Some(true) && host_and_port_spec(c) is Ok ==> base_resource_spec(c) == Ok::<Seq<char>, Seq<char>>(
            host_and_port_spec(c)->Ok_0 + "/workflow"@,
        ),
{
}

} // verus!
