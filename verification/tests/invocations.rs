//! Tests for the invocation builder: template construction and the
//! per-operation invocations.

use rustic::config::{default_restic_command, Configuration, Fileset, Profile, RetentionPolicy};
use rustic::error::ResolveError;
use rustic::invocation::Restic;

fn profile() -> Profile {
    Profile {
        repository: "local:/tmp/repo".to_string(),
        auto_init: false,
        base_directory: "/backups/home".to_string(),
        password: Some("secret".to_string()),
        password_file: None,
        password_command: None,
        environment: Vec::new(),
        environment_file: None,
        included: Fileset {
            inherits: Vec::new(),
            patterns: vec!["home/**".to_string()],
        },
        exclude: Fileset::default(),
        exclude_caches: false,
        one_file_system: false,
        ignore_inode: false,
        retention: RetentionPolicy::default(),
    }
}

fn config_with(p: Profile) -> Configuration {
    Configuration {
        profiles: vec![("home".to_string(), p)],
        filesets: Vec::new(),
        restic_command: default_restic_command(),
        cache_directory: None,
    }
}

#[test]
fn unknown_profile_fails() {
    let config = config_with(profile());
    let err = Restic::for_profile(&config, &"nope".to_string(), None).unwrap_err();
    assert_eq!(err, ResolveError::UnknownProfile("nope".to_string()));
}

#[test]
fn template_carries_repository_and_inline_password() {
    let config = config_with(profile());
    let t = Restic::for_profile(&config, &"home".to_string(), None).unwrap();
    let c = t.new_command();
    assert_eq!(c.program, "restic");
    assert_eq!(c.working_directory, "/backups/home");
    assert_eq!(c.args, vec!["--repo", "local:/tmp/repo"]);
    assert_eq!(c.env, vec![("RESTIC_PASSWORD".to_string(), "secret".to_string())]);
    assert!(!c.suppress_streams);
}

#[test]
fn password_file_becomes_flag_not_environment() {
    let mut p = profile();
    p.password = None;
    p.password_file = Some("pw.txt".to_string());
    let config = config_with(p);
    let t = Restic::for_profile(&config, &"home".to_string(), None).unwrap();
    let c = t.new_command();
    assert_eq!(c.args, vec!["--password-file", "pw.txt", "--repo", "local:/tmp/repo"]);
    assert!(c.env.is_empty());
}

#[test]
fn password_command_becomes_flag_not_environment() {
    let mut p = profile();
    p.password = None;
    p.password_command = Some("pass show repo".to_string());
    let config = config_with(p);
    let t = Restic::for_profile(&config, &"home".to_string(), None).unwrap();
    let c = t.new_command();
    assert_eq!(
        c.args,
        vec!["--password-command", "pass show repo", "--repo", "local:/tmp/repo"]
    );
    assert!(c.env.is_empty());
}

#[test]
fn conflicting_password_sources_fail_template_construction() {
    let mut p = profile();
    p.password_file = Some("pw.txt".to_string());
    let config = config_with(p);
    let err = Restic::for_profile(&config, &"home".to_string(), None).unwrap_err();
    assert_eq!(err, ResolveError::ConflictingPasswordSource);
}

#[test]
fn environment_file_entries_override_inline_environment() {
    let mut p = profile();
    p.environment = vec![("X".to_string(), "1".to_string())];
    p.environment_file = Some("env.toml".to_string());
    let config = config_with(p);
    let contents = "X = \"2\"\nY = \"3\"\n".to_string();
    let t = Restic::for_profile(&config, &"home".to_string(), Some(&contents)).unwrap();
    let mut env = t.new_command().env;
    env.sort();
    assert_eq!(
        env,
        vec![
            ("RESTIC_PASSWORD".to_string(), "secret".to_string()),
            ("X".to_string(), "2".to_string()),
            ("Y".to_string(), "3".to_string()),
        ]
    );
}

#[test]
fn inline_environment_overrides_inline_password_variable() {
    let mut p = profile();
    p.environment = vec![("RESTIC_PASSWORD".to_string(), "from-env".to_string())];
    let config = config_with(p);
    let t = Restic::for_profile(&config, &"home".to_string(), None).unwrap();
    let env = t.new_command().env;
    assert_eq!(env, vec![("RESTIC_PASSWORD".to_string(), "from-env".to_string())]);
}

#[test]
fn missing_environment_file_fails_template_construction() {
    let mut p = profile();
    p.environment_file = Some("env.toml".to_string());
    let config = config_with(p);
    let err = Restic::for_profile(&config, &"home".to_string(), None).unwrap_err();
    assert_eq!(
        err,
        ResolveError::EnvironmentFileUnreadable("/backups/home/env.toml".to_string())
    );
}

#[test]
fn existence_probe_asks_for_last_snapshot_with_streams_suppressed() {
    let config = config_with(profile());
    let t = Restic::for_profile(&config, &"home".to_string(), None).unwrap();
    let probe = t.existence_probe();
    assert_eq!(
        probe.args,
        vec!["--repo", "local:/tmp/repo", "snapshots", "--compact", "--last"]
    );
    assert!(probe.suppress_streams);
}

#[test]
fn init_appends_only_the_operation() {
    let config = config_with(profile());
    let t = Restic::for_profile(&config, &"home".to_string(), None).unwrap();
    let init = t.init();
    assert_eq!(init.args, vec!["--repo", "local:/tmp/repo", "init"]);
    assert!(!init.suppress_streams);
}

#[test]
fn backup_without_repository_and_without_auto_init_fails() {
    let config = config_with(profile());
    let t = Restic::for_profile(&config, &"home".to_string(), None).unwrap();
    let err = t
        .backup(false, &"/tmp/inc".to_string(), &"/tmp/exc".to_string())
        .unwrap_err();
    assert_eq!(err, ResolveError::RepositoryNotInitialized);
}

#[test]
fn backup_with_auto_init_yields_init_then_backup() {
    let mut p = profile();
    p.auto_init = true;
    let config = config_with(p);
    let t = Restic::for_profile(&config, &"home".to_string(), None).unwrap();
    let invocations = t
        .backup(false, &"/tmp/inc".to_string(), &"/tmp/exc".to_string())
        .unwrap();
    assert_eq!(invocations.len(), 2);
    assert_eq!(invocations[0].args, vec!["--repo", "local:/tmp/repo", "init"]);
    assert_eq!(
        invocations[1].args,
        vec![
            "--repo",
            "local:/tmp/repo",
            "backup",
            "--files-from",
            "/tmp/inc",
            "--exclude-file",
            "/tmp/exc",
        ]
    );
}

#[test]
fn backup_on_existing_repository_skips_init() {
    let config = config_with(profile());
    let t = Restic::for_profile(&config, &"home".to_string(), None).unwrap();
    let invocations = t
        .backup(true, &"/tmp/inc".to_string(), &"/tmp/exc".to_string())
        .unwrap();
    assert_eq!(invocations.len(), 1);
    assert_eq!(invocations[0].args[2], "backup");
}

#[test]
fn backup_appends_profile_toggles_in_order() {
    let mut p = profile();
    p.exclude_caches = true;
    p.one_file_system = true;
    p.ignore_inode = true;
    let config = config_with(p);
    let t = Restic::for_profile(&config, &"home".to_string(), None).unwrap();
    let invocations = t
        .backup(true, &"/tmp/inc".to_string(), &"/tmp/exc".to_string())
        .unwrap();
    assert_eq!(
        invocations[0].args,
        vec![
            "--repo",
            "local:/tmp/repo",
            "backup",
            "--files-from",
            "/tmp/inc",
            "--exclude-file",
            "/tmp/exc",
            "--exclude-caches",
            "--one-file-system",
            "--ignore-inode",
        ]
    );
}

#[test]
fn backup_patterns_resolve_both_filesets() {
    let mut p = profile();
    p.included = Fileset {
        inherits: vec!["shared".to_string()],
        patterns: vec!["own/**".to_string()],
    };
    p.exclude = Fileset {
        inherits: Vec::new(),
        patterns: vec!["*.tmp".to_string()],
    };
    let mut config = config_with(p);
    config.filesets = vec![(
        "shared".to_string(),
        Fileset {
            inherits: Vec::new(),
            patterns: vec!["shared/**".to_string()],
        },
    )];
    let t = Restic::for_profile(&config, &"home".to_string(), None).unwrap();
    let (included, excluded) = t.backup_patterns().unwrap();
    assert_eq!(included, vec!["own/**", "shared/**"]);
    assert_eq!(excluded, vec!["*.tmp"]);
}

#[test]
fn backup_patterns_surface_fileset_errors() {
    let mut p = profile();
    p.included = Fileset {
        inherits: vec!["missing".to_string()],
        patterns: Vec::new(),
    };
    let config = config_with(p);
    let t = Restic::for_profile(&config, &"home".to_string(), None).unwrap();
    let err = t.backup_patterns().unwrap_err();
    assert_eq!(err, ResolveError::UnknownFileset("missing".to_string()));
}

#[test]
fn forget_with_empty_policy_is_a_no_op() {
    let config = config_with(profile());
    let t = Restic::for_profile(&config, &"home".to_string(), None).unwrap();
    assert!(t.forget(false).is_none());
    assert!(t.forget(true).is_none());
}

#[test]
fn forget_appends_policy_flags_and_prune_toggle() {
    let mut p = profile();
    p.retention.keep_last = Some(5);
    let config = config_with(p);
    let t = Restic::for_profile(&config, &"home".to_string(), None).unwrap();
    let forget = t.forget(false).unwrap();
    assert_eq!(
        forget.args,
        vec!["--repo", "local:/tmp/repo", "forget", "--keep-last", "5"]
    );
    let forget_prune = t.forget(true).unwrap();
    assert_eq!(
        forget_prune.args,
        vec!["--repo", "local:/tmp/repo", "forget", "--keep-last", "5", "--prune"]
    );
}

#[test]
fn prune_appends_only_the_operation() {
    let config = config_with(profile());
    let t = Restic::for_profile(&config, &"home".to_string(), None).unwrap();
    assert_eq!(t.prune().args, vec!["--repo", "local:/tmp/repo", "prune"]);
}

#[test]
fn dump_snapshots_passes_extra_arguments_verbatim() {
    let config = config_with(profile());
    let t = Restic::for_profile(&config, &"home".to_string(), None).unwrap();
    let extra = vec!["--json".to_string(), "--latest".to_string(), "3".to_string()];
    let inv = t.dump_snapshots(&extra);
    assert_eq!(
        inv.args,
        vec!["--repo", "local:/tmp/repo", "snapshots", "--json", "--latest", "3"]
    );
}

#[test]
fn accessors_hand_back_the_resolved_profile() {
    let config = config_with(profile());
    let t = Restic::for_profile(&config, &"home".to_string(), None).unwrap();
    assert_eq!(t.profile().repository, "local:/tmp/repo");
    assert_eq!(t.config().restic_command, "restic");
}
