//! Running a pipeline phase on a build node: the job's workspace, the
//! change it builds, and the data handed to `chef-client`.
pub mod change;
pub mod dna;
pub mod workspace;
