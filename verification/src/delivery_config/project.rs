//! A project's `.delivery/project.toml`: the commands of its local
//! phases, or the address of a file that holds them.
use vstd::prelude::*;
use crate::errors::{DeliveryError, DeliveryResult, Kind, fails_with, opt_view};
use crate::path::{path_join, path_join_spec};
use crate::text::owned;

verus! {

/// The command of each local phase, where one is set.
#[derive(Debug, Clone)]
pub struct LocalPhases {
    pub unit: Option<String>,
    pub lint: Option<String>,
    pub syntax: Option<String>,
    pub provision: Option<String>,
    pub deploy: Option<String>,
    pub smoke: Option<String>,
    pub functional: Option<String>,
    pub cleanup: Option<String>,
}

/// The content of `project.toml`.
#[derive(Debug, Clone)]
pub struct ProjectToml {
    pub remote_file: Option<String>,
    pub local_phases: Option<LocalPhases>,
}

/// A phase of a pipeline stage.
#[derive(Debug, Clone, Copy, PartialEq, Eq, Structural)]
pub enum Phase {
    Unit,
    Lint,
    Syntax,
    Provision,
    Deploy,
    Smoke,
    Functional,
    Cleanup,
}

/// A pipeline stage, or all of them.
#[derive(Debug, Clone, Copy, PartialEq, Eq, Structural)]
pub enum Stage {
    Verify,
    Acceptance,
    All,
}

/// The phases of the verify stage, in order.
pub open spec fn verify_phases() -> Seq<Phase> {
    seq![Phase::Lint, Phase::Syntax, Phase::Unit]
}

/// The phases of the acceptance stage, in order.
pub open spec fn acceptance_phases() -> Seq<Phase> {
    seq![Phase::Provision, Phase::Deploy, Phase::Smoke, Phase::Functional, Phase::Cleanup]
}

/// The phases of a stage, in order.
pub open spec fn stage_phases(s: Stage) -> Seq<Phase> {
    match s {
        Stage::Verify => verify_phases(),
        Stage::Acceptance => acceptance_phases(),
        Stage::All => seq![
            Phase::Lint,
            Phase::Syntax,
            Phase::Unit,
            Phase::Provision,
            Phase::Deploy,
            Phase::Smoke,
            Phase::Functional,
            Phase::Cleanup,
        ],
    }
}

/// How a phase is written when shown: its name in lower case, which is
/// also its key in `project.toml`.
pub open spec fn phase_text(p: Phase) -> Seq<char> {
    match p {
        Phase::Unit => "unit"@,
        Phase::Lint => "lint"@,
        Phase::Syntax => "syntax"@,
        Phase::Provision => "provision"@,
        Phase::Deploy => "deploy"@,
        Phase::Smoke => "smoke"@,
        Phase::Functional => "functional"@,
        Phase::Cleanup => "cleanup"@,
    }
}

impl Phase {
    /// How the phase is written when shown.
    pub fn as_str(&self) -> (r: &'static str)
        ensures
            r@ == phase_text(*self),
    {
        match self {
            Phase::Unit => "unit",
            Phase::Lint => "lint",
            Phase::Syntax => "syntax",
            Phase::Provision => "provision",
            Phase::Deploy => "deploy",
            Phase::Smoke => "smoke",
            Phase::Functional => "functional",
            Phase::Cleanup => "cleanup",
        }
    }
}

impl Stage {
    /// The phases of the stage, in the order they run.
    pub fn phases(&self) -> (r: Vec<Phase>)
        ensures
            r@ == stage_phases(*self),
    {
        let mut v: Vec<Phase> = Vec::new();
        match self {
            Stage::Verify => {
                v.push(Phase::Lint);
                v.push(Phase::Syntax);
                v.push(Phase::Unit);
            },
            Stage::Acceptance => {
                v.push(Phase::Provision);
                v.push(Phase::Deploy);
                v.push(Phase::Smoke);
                v.push(Phase::Functional);
                v.push(Phase::Cleanup);
            },
            Stage::All => {
                v.push(Phase::Lint);
                v.push(Phase::Syntax);
                v.push(Phase::Unit);
                v.push(Phase::Provision);
                v.push(Phase::Deploy);
                v.push(Phase::Smoke);
                v.push(Phase::Functional);
                v.push(Phase::Cleanup);
            },
        }
        assert(v@ =~= stage_phases(*self));
        v
    }
}

/// Running all stages runs the verify phases, then the acceptance ones.
pub proof fn law_all_is_verify_then_acceptance()
    ensures
        stage_phases(Stage::All) == stage_phases(Stage::Verify) + stage_phases(Stage::Acceptance),
{
    assert(stage_phases(Stage::All) =~= verify_phases() + acceptance_phases());
}

/// The command set for a phase.
pub open spec fn phase_command(l: LocalPhases, p: Phase) -> Option<String> {
    match p {
        Phase::Unit => l.unit,
        Phase::Lint => l.lint,
        Phase::Syntax => l.syntax,
        Phase::Provision => l.provision,
        Phase::Deploy => l.deploy,
        Phase::Smoke => l.smoke,
        Phase::Functional => l.functional,
        Phase::Cleanup => l.cleanup,
    }
}

/// The message when `project.toml` is missing.
pub open spec fn missing_toml_msg() -> Seq<char> {
    "The .delivery/project.toml file was not found.\n\nYou can generate this file using the command:\n\tchef generate build-cookbook [NAME]"@
}

/// Where `project.toml` is read from.
#[derive(Debug)]
pub enum TomlSource {
    /// From this address.
    Remote(String),
    /// From the project's own file.
    Local,
}

/// What reading the local `project.toml` leaves to do.
#[derive(Debug)]
pub enum TomlStep {
    /// The local file holds the phases.
    Done(ProjectToml),
    /// The local file points to the file at this address.
    Remote(String),
}

impl Default for ProjectToml {
    fn default() -> (r: ProjectToml)
        ensures
            r.remote_file is None,
            r.local_phases matches Some(l) && l.unit is None && l.lint is None && l.syntax is None
                && l.provision is None && l.deploy is None && l.smoke is None && l.functional is None
                && l.cleanup is None,
    {
        ProjectToml {
            remote_file: None,
            local_phases: Some(LocalPhases {
                unit: None,
                lint: None,
                syntax: None,
                provision: None,
                deploy: None,
                smoke: None,
                functional: None,
                cleanup: None,
            }),
        }
    }
}

impl ProjectToml {
    /// Where to read `project.toml` from: the given address, else the
    /// project's own file.
    pub fn load_toml(remote_toml: Option<&str>) -> (r: TomlSource)
        ensures
            match remote_toml {
                Some(u) => r matches TomlSource::Remote(x) && x@ == u@,
                None => r is Local,
            },
    {
        match remote_toml {
            Some(u) => TomlSource::Remote(owned(u)),
            None => TomlSource::Local,
        }
    }

    /// What the project's own file leaves to do: a file that names a
    /// remote file defers to it.
    pub fn follow_remote(local: DeliveryResult<ProjectToml>) -> (r: DeliveryResult<TomlStep>)
        ensures
            match local {
                Err(e) => r matches Err(x) && x == e,
                Ok(t) => match t.remote_file {
                    Some(u) => r matches Ok(TomlStep::Remote(x)) && x@ == u@,
                    None => r matches Ok(TomlStep::Done(x)) && x == t,
                },
            },
    {
        let t = match local {
            Err(e) => return Err(e),
            Ok(t) => t,
        };
        match &t.remote_file {
            Some(u) => Ok(TomlStep::Remote(u.clone())),
            None => Ok(TomlStep::Done(t)),
        }
    }

    /// The command of a phase: an error when no phase is given or the
    /// file sets no local phases.
    pub fn local_phase(&self, phase: Option<Phase>) -> (r: DeliveryResult<Option<String>>)
        ensures
            match phase {
                None => r matches Err(e) && e.kind is PhaseNotFound && e.detail is None,
                Some(p) => match self.local_phases {
                    None => r matches Err(e) && e.kind is LocalPhasesNotFound && e.detail is None,
                    Some(l) => r matches Ok(c) && opt_view(c) == opt_view(phase_command(l, p)),
                },
            },
    {
        match phase {
            None => Err(DeliveryError { kind: Kind::PhaseNotFound, detail: None }),
            Some(p) => match &self.local_phases {
                None => Err(DeliveryError { kind: Kind::LocalPhasesNotFound, detail: None }),
                Some(l) => {
                    let c = match p {
                        Phase::Unit => crate::errors::clone_opt(&l.unit),
                        Phase::Lint => crate::errors::clone_opt(&l.lint),
                        Phase::Syntax => crate::errors::clone_opt(&l.syntax),
                        Phase::Provision => crate::errors::clone_opt(&l.provision),
                        Phase::Deploy => crate::errors::clone_opt(&l.deploy),
                        Phase::Smoke => crate::errors::clone_opt(&l.smoke),
                        Phase::Functional => crate::errors::clone_opt(&l.functional),
                        Phase::Cleanup => crate::errors::clone_opt(&l.cleanup),
                    };
                    Ok(c)
                },
            },
        }
    }

    /// The path of `project.toml` in a project.
    pub fn toml_file_path(proj_path: &str) -> (r: String)
        ensures
            r@ == path_join_spec(path_join_spec(proj_path@, ".delivery"@), "project.toml"@),
    {
        let d = path_join(proj_path, ".delivery");
        path_join(d.as_str(), "project.toml")
    }

    /// Whether `project.toml` is there (`exists`).
    pub fn validate_file(exists: bool) -> (r: DeliveryResult<()>)
        ensures
            exists ==> r is Ok,
            !exists ==> fails_with(r, Kind::MissingConfigFile, missing_toml_msg()),
    {
        if exists {
            Ok(())
        } else {
            Err(DeliveryError {
                kind: Kind::MissingConfigFile,
                detail: Some(owned("The .delivery/project.toml file was not found.\n\nYou can generate this file using the command:\n\tchef generate build-cookbook [NAME]")),
            })
        }
    }
}

} // verus!
