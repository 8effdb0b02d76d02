//! The change a job builds.
use vstd::prelude::*;

verus! {

/// The change a job builds, and where in the pipeline it is.
#[derive(Debug, Clone)]
pub struct Change {
    pub enterprise: String,
    pub organization: String,
    pub project: String,
    pub pipeline: String,
    pub change_id: String,
    pub patchset_number: String,
    pub stage: String,
    pub phase: String,
    pub git_url: String,
    pub sha: String,
    pub patchset_branch: String,
}

/// Workspace data in the shape that older build cookbooks read.
#[derive(Debug, Clone)]
pub struct BuilderCompat {
    pub workspace: String,
    pub repo: String,
    pub cache: String,
    pub build_id: String,
    pub build_user: String,
}

} // verus!
