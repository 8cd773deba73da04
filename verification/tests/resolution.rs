//! Tests for fileset flattening, credential resolution, and retention
//! translation.

use rustic::config::{Fileset, Profile, RetentionPolicy};
use rustic::credentials::{merge_environment, resolve_environment, resolve_password,
    PasswordSource};
use rustic::error::ResolveError;
use rustic::filesets::{resolve, write_fileset};
use rustic::retention::translate;

fn fileset(inherits: &[&str], patterns: &[&str]) -> Fileset {
    Fileset {
        inherits: inherits.iter().map(|s| s.to_string()).collect(),
        patterns: patterns.iter().map(|s| s.to_string()).collect(),
    }
}

fn base_profile() -> Profile {
    Profile {
        repository: "local:/tmp/repo".to_string(),
        auto_init: false,
        base_directory: "/base".to_string(),
        password: Some("secret".to_string()),
        password_file: None,
        password_command: None,
        environment: Vec::new(),
        environment_file: None,
        included: Fileset::default(),
        exclude: Fileset::default(),
        exclude_caches: false,
        one_file_system: false,
        ignore_inode: false,
        retention: RetentionPolicy::default(),
    }
}

#[test]
fn resolve_no_inheritance_returns_own_patterns_in_order() {
    let fs = fileset(&[], &["a/**", "b.txt", "a/**"]);
    let named: Vec<(String, Fileset)> = Vec::new();
    let resolved = resolve(&fs, &named).unwrap();
    assert_eq!(resolved, vec!["a/**", "b.txt", "a/**"]);
}

#[test]
fn resolve_chain_is_depth_first_preorder() {
    let a = fileset(&["B"], &["a.txt"]);
    let named = vec![
        ("B".to_string(), fileset(&["C"], &["b.txt"])),
        ("C".to_string(), fileset(&[], &["c.txt"])),
    ];
    let resolved = resolve(&a, &named).unwrap();
    assert_eq!(resolved, vec!["a.txt", "b.txt", "c.txt"]);
}

#[test]
fn resolve_repeated_inheritance_is_not_deduplicated() {
    let a = fileset(&["B", "B"], &["a.txt"]);
    let named = vec![("B".to_string(), fileset(&[], &["b.txt"]))];
    let resolved = resolve(&a, &named).unwrap();
    assert_eq!(resolved, vec!["a.txt", "b.txt", "b.txt"]);
}

#[test]
fn resolve_unknown_fileset_fails() {
    let a = fileset(&["missing"], &["a.txt"]);
    let named: Vec<(String, Fileset)> = Vec::new();
    let err = resolve(&a, &named).unwrap_err();
    assert_eq!(err, ResolveError::UnknownFileset("missing".to_string()));
}

#[test]
fn write_fileset_makes_no_partial_writes_on_failure() {
    let a = fileset(&["missing"], &["a.txt"]);
    let named: Vec<(String, Fileset)> = Vec::new();
    let mut out = vec!["untouched".to_string()];
    let err = write_fileset(&mut out, &a, &named).unwrap_err();
    assert_eq!(err, ResolveError::UnknownFileset("missing".to_string()));
    assert_eq!(out, vec!["untouched"]);
}

#[test]
fn write_fileset_appends_all_patterns_on_success() {
    let a = fileset(&["B"], &["a.txt"]);
    let named = vec![("B".to_string(), fileset(&[], &["b.txt"]))];
    let mut out = vec!["first".to_string()];
    write_fileset(&mut out, &a, &named).unwrap();
    assert_eq!(out, vec!["first", "a.txt", "b.txt"]);
}

#[test]
fn resolve_direct_cycle_fails() {
    let a = fileset(&["A"], &["a.txt"]);
    let named = vec![("A".to_string(), fileset(&["A"], &["a.txt"]))];
    let err = resolve(&a, &named).unwrap_err();
    assert_eq!(err, ResolveError::CyclicFileset("A".to_string()));
}

#[test]
fn resolve_transitive_cycle_fails() {
    let a = fileset(&["B"], &[]);
    let named = vec![
        ("B".to_string(), fileset(&["C"], &[])),
        ("C".to_string(), fileset(&["B"], &[])),
    ];
    let err = resolve(&a, &named).unwrap_err();
    assert_eq!(err, ResolveError::CyclicFileset("B".to_string()));
}

#[test]
fn password_alone_resolves_inline() {
    let p = base_profile();
    let source = resolve_password(&p).unwrap();
    assert_eq!(source, PasswordSource::Inline("secret".to_string()));
}

#[test]
fn password_file_alone_resolves_from_file() {
    let mut p = base_profile();
    p.password = None;
    p.password_file = Some("pw.txt".to_string());
    let source = resolve_password(&p).unwrap();
    assert_eq!(source, PasswordSource::FromFile("pw.txt".to_string()));
}

#[test]
fn password_command_alone_resolves_from_command() {
    let mut p = base_profile();
    p.password = None;
    p.password_command = Some("pass show repo".to_string());
    let source = resolve_password(&p).unwrap();
    assert_eq!(source, PasswordSource::FromCommand("pass show repo".to_string()));
}

#[test]
fn two_password_sources_conflict() {
    let mut p = base_profile();
    p.password_file = Some("pw.txt".to_string());
    assert_eq!(resolve_password(&p).unwrap_err(), ResolveError::ConflictingPasswordSource);

    let mut p = base_profile();
    p.password_command = Some("cmd".to_string());
    assert_eq!(resolve_password(&p).unwrap_err(), ResolveError::ConflictingPasswordSource);

    let mut p = base_profile();
    p.password = None;
    p.password_file = Some("pw.txt".to_string());
    p.password_command = Some("cmd".to_string());
    assert_eq!(resolve_password(&p).unwrap_err(), ResolveError::ConflictingPasswordSource);
}

#[test]
fn no_password_source_is_missing() {
    let mut p = base_profile();
    p.password = None;
    assert_eq!(resolve_password(&p).unwrap_err(), ResolveError::MissingPasswordSource);
}

#[test]
fn default_retention_policy_is_empty() {
    assert!(RetentionPolicy::default().is_empty());
}

#[test]
fn any_single_retention_field_makes_policy_non_empty() {
    let mut p = RetentionPolicy::default();
    p.keep_last = Some(1);
    assert!(!p.is_empty());
    let mut p = RetentionPolicy::default();
    p.keep_hourly = Some(1);
    assert!(!p.is_empty());
    let mut p = RetentionPolicy::default();
    p.keep_daily = Some(1);
    assert!(!p.is_empty());
    let mut p = RetentionPolicy::default();
    p.keep_weekly = Some(1);
    assert!(!p.is_empty());
    let mut p = RetentionPolicy::default();
    p.keep_monthly = Some(1);
    assert!(!p.is_empty());
    let mut p = RetentionPolicy::default();
    p.keep_yearly = Some(1);
    assert!(!p.is_empty());
    let mut p = RetentionPolicy::default();
    p.keep_within = Some("1y".to_string());
    assert!(!p.is_empty());
    let mut p = RetentionPolicy::default();
    p.keep_tags = vec![vec!["t".to_string()]];
    assert!(!p.is_empty());
}

#[test]
fn translate_keep_last_and_tags_in_order() {
    let mut p = RetentionPolicy::default();
    p.keep_last = Some(5);
    p.keep_tags = vec![
        vec!["a".to_string(), "b".to_string()],
        vec!["c".to_string()],
    ];
    let pairs = translate(&p);
    assert_eq!(
        pairs,
        vec![
            ("--keep-last".to_string(), "5".to_string()),
            ("--keep-tag".to_string(), "a,b".to_string()),
            ("--keep-tag".to_string(), "c".to_string()),
        ]
    );
}

#[test]
fn translate_orders_every_counter_and_renders_decimals() {
    let p = RetentionPolicy {
        keep_last: Some(12345),
        keep_hourly: Some(0),
        keep_daily: Some(7),
        keep_weekly: Some(4),
        keep_monthly: Some(12),
        keep_yearly: Some(100),
        keep_within: Some("1y3m10d2h".to_string()),
        keep_tags: Vec::new(),
    };
    let pairs = translate(&p);
    assert_eq!(
        pairs,
        vec![
            ("--keep-last".to_string(), "12345".to_string()),
            ("--keep-hourly".to_string(), "0".to_string()),
            ("--keep-daily".to_string(), "7".to_string()),
            ("--keep-weekly".to_string(), "4".to_string()),
            ("--keep-monthly".to_string(), "12".to_string()),
            ("--keep-yearly".to_string(), "100".to_string()),
            ("--keep-within".to_string(), "1y3m10d2h".to_string()),
        ]
    );
}

#[test]
fn translate_empty_policy_yields_no_pairs() {
    assert!(translate(&RetentionPolicy::default()).is_empty());
}

#[test]
fn merge_environment_file_entries_win() {
    let base = vec![("X".to_string(), "1".to_string())];
    let updates = vec![
        ("X".to_string(), "2".to_string()),
        ("Y".to_string(), "3".to_string()),
    ];
    let merged = merge_environment(&base, &updates);
    assert_eq!(
        merged,
        vec![
            ("X".to_string(), "2".to_string()),
            ("Y".to_string(), "3".to_string()),
        ]
    );
}

#[test]
fn resolve_environment_without_file_copies_inline_entries() {
    let mut p = base_profile();
    p.environment = vec![("A".to_string(), "1".to_string())];
    let env = resolve_environment(&p, None).unwrap();
    assert_eq!(env, vec![("A".to_string(), "1".to_string())]);
}

#[test]
fn resolve_environment_merges_parsed_file_over_inline() {
    let mut p = base_profile();
    p.environment = vec![("X".to_string(), "1".to_string())];
    p.environment_file = Some("env.toml".to_string());
    let contents = "X = \"2\"\nY = \"3\"\n".to_string();
    let mut env = resolve_environment(&p, Some(&contents)).unwrap();
    env.sort();
    assert_eq!(
        env,
        vec![
            ("X".to_string(), "2".to_string()),
            ("Y".to_string(), "3".to_string()),
        ]
    );
}

#[test]
fn resolve_environment_unreadable_file_reports_resolved_path() {
    let mut p = base_profile();
    p.environment_file = Some("env.toml".to_string());
    let err = resolve_environment(&p, None).unwrap_err();
    assert_eq!(err, ResolveError::EnvironmentFileUnreadable("/base/env.toml".to_string()));
}

#[test]
fn resolve_environment_absolute_file_path_is_kept() {
    let mut p = base_profile();
    p.environment_file = Some("/etc/backup-env.toml".to_string());
    let err = resolve_environment(&p, None).unwrap_err();
    assert_eq!(
        err,
        ResolveError::EnvironmentFileUnreadable("/etc/backup-env.toml".to_string())
    );
}

#[test]
fn resolve_environment_malformed_file_fails() {
    let mut p = base_profile();
    p.environment_file = Some("env.toml".to_string());
    let contents = "this is not a toml table".to_string();
    let err = resolve_environment(&p, Some(&contents)).unwrap_err();
    assert_eq!(err, ResolveError::EnvironmentFileMalformed("/base/env.toml".to_string()));
}

#[test]
fn resolve_environment_rejects_nested_tables() {
    let mut p = base_profile();
    p.environment_file = Some("env.toml".to_string());
    let contents = "[section]\nkey = \"v\"\n".to_string();
    let err = resolve_environment(&p, Some(&contents)).unwrap_err();
    assert_eq!(err, ResolveError::EnvironmentFileMalformed("/base/env.toml".to_string()));
}
