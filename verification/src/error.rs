//! Resolution-time errors.

use vstd::prelude::*;
use vstd::string::StringExecFns;

verus! {

/// Everything that can go wrong while resolving a profile into invocations.
///
/// All of these are construction-time errors: they describe a problem with
/// the configuration or its preconditions, never a failure of the external
/// engine process itself.
#[derive(Debug, PartialEq, Eq)]
pub enum ResolveError {
    /// The requested profile name is not present in the configuration.
    UnknownProfile(String),
    /// More than one of `password`, `password_file`, `password_command` is set.
    ConflictingPasswordSource,
    /// None of `password`, `password_file`, `password_command` is set.
    MissingPasswordSource,
    /// A fileset inherits from a name that the configuration does not define.
    UnknownFileset(String),
    /// A fileset (directly or transitively) inherits from itself.
    CyclicFileset(String),
    /// The repository does not exist and the profile does not allow
    /// initializing it automatically.
    RepositoryNotInitialized,
    /// The profile's environment file could not be read; holds the path.
    EnvironmentFileUnreadable(String),
    /// The profile's environment file is not a flat string-to-string table;
    /// holds the path.
    EnvironmentFileMalformed(String),
}

impl ResolveError {
    /// A human-readable description of the error.
    pub fn describe(&self) -> String {
        match self {
            ResolveError::UnknownProfile(name) => {
                let mut s = String::from_str("Profile does not exist: ");
                s.append(name.as_str());
                s
            },
            ResolveError::ConflictingPasswordSource => {
                String::from_str(
                    "Only one of `password`, `password_file`, or `password_command` may be set",
                )
            },
            ResolveError::MissingPasswordSource => {
                String::from_str(
                    "Must set one of `password`, `password_file`, or `password_command`",
                )
            },
            ResolveError::UnknownFileset(name) => {
                let mut s = String::from_str("Fileset does not exist: ");
                s.append(name.as_str());
                s
            },
            ResolveError::CyclicFileset(name) => {
                let mut s = String::from_str("Fileset inherits from itself: ");
                s.append(name.as_str());
                s
            },
            ResolveError::RepositoryNotInitialized => {
                String::from_str("Repository not initialized")
            },
            ResolveError::EnvironmentFileUnreadable(path) => {
                let mut s = String::from_str("Could not read environment file: ");
                s.append(path.as_str());
                s
            },
            ResolveError::EnvironmentFileMalformed(path) => {
                let mut s = String::from_str("Could not parse environment file: ");
                s.append(path.as_str());
                s
            },
        }
    }
}

} // verus!
