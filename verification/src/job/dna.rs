//! The node data handed to `chef-client` for a job.
use vstd::prelude::*;

verus! {

/// The workspace directories, as the build cookbook sees them.
#[derive(Debug, Clone)]
pub struct WorkspaceCompat {
    pub root: String,
    pub chef: String,
    pub cache: String,
    pub repo: String,
    pub ssh_wrapper: String,
}

} // verus!
