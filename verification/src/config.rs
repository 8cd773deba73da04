//! In-memory configuration model: profiles, filesets, retention policy.
//!
//! Pure data. Name-to-value mappings are held as ordered association lists
//! with unique keys; [`crate::model::lookup`] gives their meaning.

use vstd::prelude::*;
use vstd::string::StringExecFns;

verus! {

/// Top-level configuration: all profiles, the named filesets they may
/// inherit from, and where to find the backup engine binary.
#[derive(Debug)]
pub struct Configuration {
    /// Backup profiles, keyed by profile name (keys unique).
    pub profiles: Vec<(String, Profile)>,
    /// Named filesets to reuse in profiles, keyed by name (keys unique).
    /// Used only for inheritance lookups.
    pub filesets: Vec<(String, Fileset)>,
    /// Name of the backup engine executable. Defaults to `restic`.
    pub restic_command: String,
    /// Optional cache directory handed to the engine.
    pub cache_directory: Option<String>,
}

/// One backup target: a repository, credentials, file selection rules,
/// and a retention policy.
#[derive(Debug)]
pub struct Profile {
    /// Repository location, passed verbatim to the engine.
    pub repository: String,
    /// If true, initialize the repository automatically when it does not
    /// exist yet.
    pub auto_init: bool,
    /// Directory to run backups from; relative paths in the profile
    /// resolve against it.
    pub base_directory: String,
    /// Inline repository password. Exactly one of `password`,
    /// `password_file`, `password_command` must be set.
    pub password: Option<String>,
    /// File containing the repository password.
    pub password_file: Option<String>,
    /// Command that prints the repository password.
    pub password_command: Option<String>,
    /// Inline environment variables for the engine (for example, backend
    /// credentials). Merged with `environment_file`, if both are given.
    pub environment: Vec<(String, String)>,
    /// Path to a file holding a flat string-to-string table of environment
    /// variables. Entries from the file override same-named entries of
    /// `environment`.
    pub environment_file: Option<String>,
    /// Files to back up.
    pub included: Fileset,
    /// Files to exclude from the backup.
    pub exclude: Fileset,
    /// Exclude cache directories marked with a cache tag file.
    pub exclude_caches: bool,
    /// Do not cross filesystem boundaries when backing up.
    pub one_file_system: bool,
    /// Ignore inode number changes when checking for modified files.
    pub ignore_inode: bool,
    /// How long to keep snapshots.
    pub retention: RetentionPolicy,
}

/// A set of file-selection patterns, possibly inheriting more patterns
/// from named filesets.
#[derive(Debug)]
pub struct Fileset {
    /// Names of other filesets whose patterns are appended after this
    /// one's own, in the order listed. Every name must resolve to an entry
    /// of `Configuration::filesets`.
    pub inherits: Vec<String>,
    /// This fileset's own glob-style patterns, in order.
    pub patterns: Vec<String>,
}

impl Default for Fileset {
    /// An empty fileset: no patterns, nothing inherited.
    fn default() -> (r: Fileset)
        ensures
            r.inherits@ == Seq::<String>::empty(),
            r.patterns@ == Seq::<String>::empty(),
    {
        Fileset { inherits: Vec::new(), patterns: Vec::new() }
    }
}

/// Which historical snapshots to keep when forgetting.
#[derive(Debug)]
pub struct RetentionPolicy {
    /// Keep the `n` most recent snapshots.
    pub keep_last: Option<usize>,
    /// Keep the most recent snapshot for the last `n` hours that have one.
    pub keep_hourly: Option<usize>,
    /// Keep the most recent snapshot for the last `n` days that have one.
    pub keep_daily: Option<usize>,
    /// Keep the most recent snapshot for the last `n` weeks that have one.
    pub keep_weekly: Option<usize>,
    /// Keep the most recent snapshot for the last `n` months that have one.
    pub keep_monthly: Option<usize>,
    /// Keep the most recent snapshot for the last `n` years that have one.
    pub keep_yearly: Option<usize>,
    /// Keep all snapshots within some duration of the most recent one,
    /// formatted as the engine expects (for example `1y3m10d2h`); passed
    /// through unvalidated.
    pub keep_within: Option<String>,
    /// Keep all snapshots carrying any of these tag groups; each group is
    /// a list of tags that must all be present.
    pub keep_tags: Vec<Vec<String>>,
}

/// Whether a retention policy specifies nothing at all.
pub open spec fn policy_is_empty(p: RetentionPolicy) -> bool {
    &&& p.keep_last is None
    &&& p.keep_hourly is None
    &&& p.keep_daily is None
    &&& p.keep_weekly is None
    &&& p.keep_monthly is None
    &&& p.keep_yearly is None
    &&& p.keep_within is None
    &&& p.keep_tags@.len() == 0
}

impl RetentionPolicy {
    /// Returns `true` iff this policy is empty, i.e. it does not specify
    /// any snapshots to keep. An empty policy makes the forget operation
    /// a no-op rather than one that would drop every snapshot.
    pub fn is_empty(&self) -> (r: bool)
        ensures
            r == policy_is_empty(*self),
    {
        self.keep_last.is_none() && self.keep_hourly.is_none() && self.keep_daily.is_none()
            && self.keep_weekly.is_none() && self.keep_monthly.is_none()
            && self.keep_yearly.is_none() && self.keep_within.is_none()
            && self.keep_tags.len() == 0
    }
}

impl Default for RetentionPolicy {
    /// A policy with every field absent; `is_empty` holds of it.
    fn default() -> (r: RetentionPolicy)
        ensures
            policy_is_empty(r),
    {
        RetentionPolicy {
            keep_last: None,
            keep_hourly: None,
            keep_daily: None,
            keep_weekly: None,
            keep_monthly: None,
            keep_yearly: None,
            keep_within: None,
            keep_tags: Vec::new(),
        }
    }
}

/// The engine executable used when the configuration names none.
pub fn default_restic_command() -> (r: String)
    ensures
        r@ == "restic"@,
{
    String::from_str("restic")
}

} // verus!
