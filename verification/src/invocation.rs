//! The invocation builder: a frozen per-profile command template, and the
//! concrete engine invocations each operation extends it to.
//!
//! A template is built once per profile, after credential resolution, and
//! never mutated: every operation produces a fresh invocation value by
//! extension. The caller spawns the processes; nothing here does.

use vstd::prelude::*;
use vstd::string::StringExecFns;

use crate::config::{policy_is_empty, Configuration, Profile};
use crate::credentials::{resolve_environment, resolve_password, toml_env_table, PasswordSource};
use crate::error::ResolveError;
use crate::filesets::{resolve, resolve_fileset_spec};
use crate::model::{clone_env, clone_strings, distinct_keys, env_map, find_entry, lookup,
    pair_views, views};
use crate::retention::{add_policy, flatten_pairs, retention_pairs};
use crate::strutil::joined_path;

verus! {

/// A fully resolved, ready-to-run external command: program, arguments,
/// environment, working directory, and whether the caller should run it
/// with its standard streams suppressed.
#[derive(Debug, PartialEq, Eq)]
pub struct Invocation {
    /// The executable to run.
    pub program: String,
    /// Its arguments, in order.
    pub args: Vec<String>,
    /// Environment variables to set for it.
    pub env: Vec<(String, String)>,
    /// The directory to run it from.
    pub working_directory: String,
    /// When set, the caller runs the process with standard input, output
    /// and error suppressed.
    pub suppress_streams: bool,
}

/// The password-derived arguments of a profile: a file or command source
/// is handed to the engine as a flag, so that the secret value itself
/// never appears in process listings; an inline password travels through
/// the environment instead and contributes no argument.
pub open spec fn password_args(p: Profile) -> Seq<Seq<char>> {
    match (p.password, p.password_file, p.password_command) {
        (None, Some(f), None) => seq!["--password-file"@, f@],
        (None, None, Some(c)) => seq!["--password-command"@, c@],
        _ => Seq::empty(),
    }
}

/// The password-derived environment of a profile: the inline password, if
/// that is the configured source.
pub open spec fn password_env(p: Profile) -> Seq<(Seq<char>, Seq<char>)> {
    match (p.password, p.password_file, p.password_command) {
        (Some(pw), None, None) => seq![("RESTIC_PASSWORD"@, pw@)],
        _ => Seq::empty(),
    }
}

/// Whether exactly one password source is configured.
pub open spec fn exactly_one_password(p: Profile) -> bool {
    ||| p.password is Some && p.password_file is None && p.password_command is None
    ||| p.password is None && p.password_file is Some && p.password_command is None
    ||| p.password is None && p.password_file is None && p.password_command is Some
}

/// The error credential resolution owes when `exactly_one_password`
/// fails: missing when no source is set, conflicting otherwise.
pub open spec fn password_error(p: Profile) -> ResolveError {
    if p.password is None && p.password_file is None && p.password_command is None {
        ResolveError::MissingPasswordSource
    } else {
        ResolveError::ConflictingPasswordSource
    }
}

/// The arguments every invocation for a profile shares: the password
/// source flags, then the repository flag.
pub open spec fn shared_args_spec(p: Profile) -> Seq<Seq<char>> {
    password_args(p) + seq!["--repo"@, p.repository@]
}

/// The environment every invocation for a profile shares, given the
/// mapping the profile's environment file contributed (empty when it
/// names none): the file's entries override the inline ones, and either
/// overrides an inline password's variable.
pub open spec fn shared_env_map(p: Profile, file_table: Map<Seq<char>, Seq<char>>) -> Map<
    Seq<char>,
    Seq<char>,
> {
    env_map(password_env(p)).union_prefer_right(
        env_map(pair_views(p.environment@)).union_prefer_right(file_table),
    )
}

/// Frozen invocation template for one profile: the executable, the
/// working directory, and the arguments and environment every operation
/// shares. Built by `for_profile`; immutable afterwards.
#[derive(Debug)]
pub struct Restic<'a> {
    /// The configuration this template was resolved from.
    pub config: &'a Configuration,
    /// The profile this template serves.
    pub profile: &'a Profile,
    /// Arguments common to every operation: password flags, repository.
    pub shared_args: Vec<String>,
    /// Environment common to every operation: credentials.
    pub shared_env: Vec<(String, String)>,
}

impl<'a> Restic<'a> {
    /// What `for_profile` owes of a template it hands back, given the
    /// profile found and the mapping the environment file contributed.
    pub open spec fn obeys(self, config: Configuration, p: Profile, file_table: Map<
        Seq<char>,
        Seq<char>,
    >) -> bool {
        &&& *self.config == config
        &&& *self.profile == p
        &&& views(self.shared_args@) == shared_args_spec(p)
        &&& distinct_keys(pair_views(self.shared_env@))
        &&& env_map(pair_views(self.shared_env@)) == shared_env_map(p, file_table)
    }

    /// Whether `inv` is this template's base invocation extended with
    /// `extra` arguments.
    pub open spec fn is_base_invocation(
        self,
        inv: Invocation,
        extra: Seq<Seq<char>>,
        suppress: bool,
    ) -> bool {
        &&& inv.program@ == self.config.restic_command@
        &&& inv.working_directory@ == self.profile.base_directory@
        &&& views(inv.args@) == views(self.shared_args@) + extra
        &&& inv.env@ == self.shared_env@
        &&& inv.suppress_streams == suppress
    }

    /// Builds the invocation template for the named profile: looks the
    /// profile up, resolves its password source into flags or an
    /// environment variable, and merges its engine environment.
    ///
    /// `environment_file_contents` is the text of the profile's
    /// environment file, read by the caller; `None` means it could not be
    /// read. It is ignored when the profile names no environment file.
    ///
    /// Fails with `UnknownProfile` for a name the configuration lacks,
    /// with the password errors `resolve_password` describes, and with
    /// the environment-file errors `resolve_environment` describes, in
    /// that order of precedence. A profile that fails here can never
    /// yield an invocation.
    pub fn for_profile(
        config: &'a Configuration,
        profile_name: &String,
        environment_file_contents: Option<&String>,
    ) -> (r: Result<Restic<'a>, ResolveError>)
        requires
            match lookup(config.profiles@, profile_name@) {
                Some(p) => distinct_keys(pair_views(p.environment@)),
                None => true,
            },
        ensures
            match lookup(config.profiles@, profile_name@) {
                None => r matches Err(e) && e matches ResolveError::UnknownProfile(n) && n@
                    == profile_name@,
                Some(p) => {
                    if !exactly_one_password(p) {
                        r matches Err(e) && e == password_error(p)
                    } else {
                        match p.environment_file {
                            None => r matches Ok(t) && t.obeys(*config, p, Map::empty()),
                            Some(path) => {
                                let resolved = joined_path(p.base_directory@, path@);
                                match environment_file_contents {
                                    None => r matches Err(e) && e
                                        matches ResolveError::EnvironmentFileUnreadable(q) && q@
                                        == resolved,
                                    Some(c) => match toml_env_table(c@) {
                                        None => r matches Err(e) && e
                                            matches ResolveError::EnvironmentFileMalformed(q)
                                            && q@ == resolved,
                                        Some(tbl) => r matches Ok(t) && t.obeys(*config, p, tbl),
                                    },
                                }
                            },
                        }
                    }
                },
            },
    {
        let profile = match find_entry(&config.profiles, profile_name) {
            None => {
                return Err(ResolveError::UnknownProfile(profile_name.clone()));
            },
            Some(p) => p,
        };
        let source = match resolve_password(profile) {
            Err(e) => {
                return Err(e);
            },
            Ok(s) => s,
        };
        let mut shared_args: Vec<String> = Vec::new();
        let mut password_vars: Vec<(String, String)> = Vec::new();
        match source {
            PasswordSource::Inline(pw) => {
                password_vars.push((String::from_str("RESTIC_PASSWORD"), pw));
            },
            PasswordSource::FromFile(f) => {
                shared_args.push(String::from_str("--password-file"));
                shared_args.push(f);
            },
            PasswordSource::FromCommand(c) => {
                shared_args.push(String::from_str("--password-command"));
                shared_args.push(c);
            },
        }
        shared_args.push(String::from_str("--repo"));
        shared_args.push(profile.repository.clone());
        proof {
            assert(views(shared_args@) =~= password_args(*profile) + seq![
                "--repo"@,
                profile.repository@,
            ]);
            assert(pair_views(password_vars@) =~= password_env(*profile));
            assert(distinct_keys(pair_views(password_vars@)));
        }
        let merged = match resolve_environment(profile, environment_file_contents) {
            Err(e) => {
                return Err(e);
            },
            Ok(v) => v,
        };
        let shared_env = crate::credentials::merge_environment(&password_vars, &merged);
        proof {
            match profile.environment_file {
                None => {
                    assert(pair_views(merged@) == pair_views(profile.environment@));
                    assert(env_map(pair_views(profile.environment@)).union_prefer_right(
                        Map::empty(),
                    ) =~= env_map(pair_views(profile.environment@)));
                },
                Some(_) => {},
            }
        }
        Ok(Restic { config, profile, shared_args, shared_env })
    }

    /// The configuration this template was resolved from.
    pub fn config(&self) -> (r: &'a Configuration)
        ensures
            r == self.config,
    {
        self.config
    }

    /// The profile this template serves.
    pub fn profile(&self) -> (r: &'a Profile)
        ensures
            r == self.profile,
    {
        self.profile
    }

    /// Starts an invocation from the template: all shared arguments and
    /// environment variables, no operation-specific ones yet.
    pub fn new_command(&self) -> (r: Invocation)
        ensures
            self.is_base_invocation(r, Seq::empty(), false),
    {
        let r = Invocation {
            program: self.config.restic_command.clone(),
            args: clone_strings(&self.shared_args),
            env: clone_env(&self.shared_env),
            working_directory: self.profile.base_directory.clone(),
            suppress_streams: false,
        };
        proof {
            assert(views(r.args@) + Seq::<Seq<char>>::empty() =~= views(r.args@));
        }
        r
    }

    /// The invocation that initializes the repository. It does not check
    /// whether the repository already exists; a failure of the resulting
    /// process is the caller's terminal error.
    pub fn init(&self) -> (r: Invocation)
        ensures
            self.is_base_invocation(r, seq!["init"@], false),
    {
        let mut c = self.new_command();
        let ghost prev = views(c.args@);
        c.args.push(String::from_str("init"));
        proof {
            assert(views(c.args@) =~= prev + seq!["init"@]);
        }
        c
    }

    /// The probe that tests whether the repository exists: it asks for
    /// the single most recent snapshot, with all standard streams
    /// suppressed. The caller interprets the process outcome: success
    /// means the repository exists, and any failure is read as "not
    /// initialized" — deliberately conflating a missing repository with
    /// other engine failures, per the engine's own scripting convention.
    pub fn existence_probe(&self) -> (r: Invocation)
        ensures
            self.is_base_invocation(r, seq!["snapshots"@, "--compact"@, "--last"@], true),
    {
        let mut c = self.new_command();
        let ghost prev = views(c.args@);
        c.args.push(String::from_str("snapshots"));
        c.args.push(String::from_str("--compact"));
        c.args.push(String::from_str("--last"));
        c.suppress_streams = true;
        proof {
            assert(views(c.args@) =~= prev + seq!["snapshots"@, "--compact"@, "--last"@]);
        }
        c
    }

    /// The flattened pattern lists for this profile's backup: what to
    /// back up, and what to exclude, each resolved through fileset
    /// inheritance. The caller writes each list to a destination it owns
    /// (one pattern per line) and hands the destinations' paths to
    /// `backup`.
    pub fn backup_patterns(&self) -> (r: Result<(Vec<String>, Vec<String>), ResolveError>)
        ensures
            match r {
                Ok(pair) => resolve_fileset_spec(
                    self.profile.included,
                    self.config.filesets@,
                    Set::empty(),
                ) == Ok::<_, ResolveError>(views(pair.0@)) && resolve_fileset_spec(
                    self.profile.exclude,
                    self.config.filesets@,
                    Set::empty(),
                ) == Ok::<_, ResolveError>(views(pair.1@)),
                Err(e) => resolve_fileset_spec(
                    self.profile.included,
                    self.config.filesets@,
                    Set::empty(),
                ) == Err::<Seq<Seq<char>>, _>(e) || (resolve_fileset_spec(
                    self.profile.included,
                    self.config.filesets@,
                    Set::empty(),
                ) is Ok && resolve_fileset_spec(
                    self.profile.exclude,
                    self.config.filesets@,
                    Set::empty(),
                ) == Err::<Seq<Seq<char>>, _>(e)),
            },
    {
        let included = match resolve(&self.profile.included, &self.config.filesets) {
            Err(e) => {
                return Err(e);
            },
            Ok(v) => v,
        };
        let excluded = match resolve(&self.profile.exclude, &self.config.filesets) {
            Err(e) => {
                return Err(e);
            },
            Ok(v) => v,
        };
        Ok((included, excluded))
    }

    /// The backup invocations to run, in order. `repository_exists` is
    /// the existence probe's interpreted outcome; `files_from_path` and
    /// `exclude_file_path` are where the caller wrote the resolved
    /// pattern lists.
    ///
    /// When the repository does not exist and the profile forbids
    /// auto-initialization, fails with `RepositoryNotInitialized` and
    /// yields no invocation at all. Otherwise the initialization, exactly
    /// when the repository does not exist yet, comes first, and the
    /// backup itself second — never the reverse.
    pub fn backup(
        &self,
        repository_exists: bool,
        files_from_path: &String,
        exclude_file_path: &String,
    ) -> (r: Result<Vec<Invocation>, ResolveError>)
        ensures
            !repository_exists && !self.profile.auto_init ==> (r matches Err(e) && e
                == ResolveError::RepositoryNotInitialized),
            repository_exists || self.profile.auto_init ==> (r matches Ok(v) && {
                let extra = backup_extra_args(
                    *self.profile,
                    files_from_path@,
                    exclude_file_path@,
                );
                if repository_exists {
                    v@.len() == 1 && self.is_base_invocation(v@[0], extra, false)
                } else {
                    v@.len() == 2 && self.is_base_invocation(v@[0], seq!["init"@], false)
                        && self.is_base_invocation(v@[1], extra, false)
                }
            }),
    {
        if !repository_exists && !self.profile.auto_init {
            return Err(ResolveError::RepositoryNotInitialized);
        }
        let mut c = self.new_command();
        let ghost base = views(c.args@);
        c.args.push(String::from_str("backup"));
        c.args.push(String::from_str("--files-from"));
        c.args.push(files_from_path.clone());
        c.args.push(String::from_str("--exclude-file"));
        c.args.push(exclude_file_path.clone());
        if self.profile.exclude_caches {
            c.args.push(String::from_str("--exclude-caches"));
        }
        if self.profile.one_file_system {
            c.args.push(String::from_str("--one-file-system"));
        }
        if self.profile.ignore_inode {
            c.args.push(String::from_str("--ignore-inode"));
        }
        proof {
            assert(views(c.args@) =~= base + backup_extra_args(
                *self.profile,
                files_from_path@,
                exclude_file_path@,
            ));
        }
        let mut v: Vec<Invocation> = Vec::new();
        if !repository_exists {
            v.push(self.init());
        }
        v.push(c);
        Ok(v)
    }

    /// The invocation that forgets snapshots per the profile's retention
    /// policy, with the prune toggle appended when the caller asks for
    /// combined forget-and-prune. An empty policy yields no invocation:
    /// the operation is a no-op, not an error, since forgetting with no
    /// retention criteria would drop every snapshot.
    pub fn forget(&self, prune: bool) -> (r: Option<Invocation>)
        ensures
            r is None <==> policy_is_empty(self.profile.retention),
            r matches Some(inv) ==> self.is_base_invocation(
                inv,
                seq!["forget"@] + flatten_pairs(retention_pairs(self.profile.retention)) + (
                if prune {
                    seq!["--prune"@]
                } else {
                    Seq::empty()
                }),
                false,
            ),
    {
        if self.profile.retention.is_empty() {
            return None;
        }
        let mut c = self.new_command();
        let ghost base = views(c.args@);
        c.args.push(String::from_str("forget"));
        proof {
            assert(views(c.args@) =~= base + seq!["forget"@]);
        }
        add_policy(&self.profile.retention, &mut c.args);
        let ghost with_policy = views(c.args@);
        if prune {
            c.args.push(String::from_str("--prune"));
            proof {
                assert(views(c.args@) =~= with_policy + seq!["--prune"@]);
                assert(views(c.args@) =~= base + (seq!["forget"@] + flatten_pairs(
                    retention_pairs(self.profile.retention),
                ) + seq!["--prune"@]));
            }
        } else {
            proof {
                assert(views(c.args@) =~= base + (seq!["forget"@] + flatten_pairs(
                    retention_pairs(self.profile.retention),
                ) + Seq::<Seq<char>>::empty()));
            }
        }
        Some(c)
    }

    /// The invocation that prunes unreferenced repository data.
    pub fn prune(&self) -> (r: Invocation)
        ensures
            self.is_base_invocation(r, seq!["prune"@], false),
    {
        let mut c = self.new_command();
        let ghost prev = views(c.args@);
        c.args.push(String::from_str("prune"));
        proof {
            assert(views(c.args@) =~= prev + seq!["prune"@]);
        }
        c
    }

    /// The snapshot-listing invocation: caller-supplied extra arguments
    /// are appended verbatim and unvalidated, as a deliberate escape
    /// hatch to the engine's full listing flag surface.
    pub fn dump_snapshots(&self, extra_args: &Vec<String>) -> (r: Invocation)
        ensures
            self.is_base_invocation(r, seq!["snapshots"@] + views(extra_args@), false),
    {
        let mut c = self.new_command();
        let ghost base = views(c.args@);
        c.args.push(String::from_str("snapshots"));
        let extras = clone_strings(extra_args);
        let mut extras = extras;
        c.args.append(&mut extras);
        proof {
            assert(views(c.args@) =~= base + (seq!["snapshots"@] + views(extra_args@)));
        }
        c
    }
}

/// The operation-specific arguments of a backup: the operation, the two
/// pattern-file flags, then one flag per selected profile toggle, in a
/// fixed order.
pub open spec fn backup_extra_args(p: Profile, files_from: Seq<char>, exclude_file: Seq<
    char,
>) -> Seq<Seq<char>> {
    seq!["backup"@, "--files-from"@, files_from, "--exclude-file"@, exclude_file] + (
    if p.exclude_caches {
        seq!["--exclude-caches"@]
    } else {
        Seq::empty()
    }) + (if p.one_file_system {
        seq!["--one-file-system"@]
    } else {
        Seq::empty()
    }) + (if p.ignore_inode {
        seq!["--ignore-inode"@]
    } else {
        Seq::empty()
    })
}

} // verus!
