//! The records that the dashboard shows: one per configured job.

use vstd::prelude::*;

verus! {

/// A JVM binary that Bazel builds and runs.
#[derive(Clone, Debug, PartialEq, Eq)]
pub struct BazelJvmBinary {
    pub target: String,
}

/// A script of one Yarn workspace.
#[derive(Clone, Debug, PartialEq, Eq)]
pub struct YarnScript {
    pub workspace: String,
    pub script: String,
}

/// How a job is launched. A job is launched in exactly one way, or in none
/// that the configuration names.
#[derive(Clone, Debug, PartialEq, Eq)]
pub enum Launch {
    Bazel(BazelJvmBinary),
    Yarn(YarnScript),
    Unspecified,
}

impl Launch {
    /// The launch description of a job entry that may carry a Bazel table, a
    /// Yarn table, both or neither. A Bazel table takes precedence over a
    /// Yarn table.
    pub fn from_tables(bazel: Option<BazelJvmBinary>, yarn: Option<YarnScript>) -> (launch: Launch)
        ensures
            launch == match (bazel, yarn) {
                (Some(binary), _) => Launch::Bazel(binary),
                (None, Some(script)) => Launch::Yarn(script),
                (None, None) => Launch::Unspecified,
            },
    {
        match bazel {
            Some(binary) => Launch::Bazel(binary),
            None => match yarn {
                Some(script) => Launch::Yarn(script),
                None => Launch::Unspecified,
            },
        }
    }
}

/// A job as configured: a name, which labels and identifies it, the way it is
/// launched, and the names of the jobs it depends on. Nothing here checks that
/// a dependency names an existing job.
#[derive(Clone, Debug, PartialEq, Eq)]
pub struct Job {
    pub name: String,
    pub launch: Launch,
    pub dependencies: Option<Vec<String>>,
}

/// The configured jobs, in the order of the configuration.
#[derive(Clone, Debug, PartialEq, Eq)]
pub struct Config {
    pub job: Vec<Job>,
}

} // verus!
