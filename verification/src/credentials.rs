//! Credential resolution: password-source precedence and environment
//! merging.

use vstd::prelude::*;

use crate::config::Profile;
use crate::error::ResolveError;
use crate::model::{distinct_keys, env_map, pair_views, has_key, lemma_env_map_update};
use crate::strutil::{join_path, joined_path};

verus! {

/// Where the repository password comes from. Exactly one source may be
/// configured.
///
/// An inline password becomes an environment variable assignment; a file
/// or command source becomes a command-line flag, so that the secret value
/// itself never appears in process listings.
#[derive(Debug, PartialEq, Eq)]
pub enum PasswordSource {
    /// The password itself, configured inline.
    Inline(String),
    /// Path of a file holding the password.
    FromFile(String),
    /// Command that prints the password.
    FromCommand(String),
}

/// Picks the profile's password source, enforcing that exactly one of
/// `password`, `password_file`, `password_command` is set.
pub fn resolve_password(profile: &Profile) -> (r: Result<PasswordSource, ResolveError>)
    ensures
        match (profile.password, profile.password_file, profile.password_command) {
            (Some(p), None, None) => r matches Ok(PasswordSource::Inline(s)) && s@ == p@,
            (None, Some(f), None) => r matches Ok(PasswordSource::FromFile(s)) && s@ == f@,
            (None, None, Some(c)) => r matches Ok(PasswordSource::FromCommand(s)) && s@ == c@,
            (None, None, None) => r matches Err(e) && e == ResolveError::MissingPasswordSource,
            _ => r matches Err(e) && e == ResolveError::ConflictingPasswordSource,
        },
{
    match (&profile.password, &profile.password_file, &profile.password_command) {
        (Some(p), None, None) => Ok(PasswordSource::Inline(p.clone())),
        (None, Some(f), None) => Ok(PasswordSource::FromFile(f.clone())),
        (None, None, Some(c)) => Ok(PasswordSource::FromCommand(c.clone())),
        (None, None, None) => Err(ResolveError::MissingPasswordSource),
        _ => Err(ResolveError::ConflictingPasswordSource),
    }
}

/// Index of the entry carrying `key`, if any.
fn env_find_index(v: &Vec<(String, String)>, key: &String) -> (r: Option<usize>)
    ensures
        match r {
            Some(i) => i < v@.len() && v@[i as int].0@ == key@,
            None => !has_key(pair_views(v@), key@),
        },
{
    let mut i: usize = 0;
    while i < v.len()
        invariant
            i <= v@.len(),
            forall|j: int| 0 <= j < i ==> pair_views(v@)[j].0 != key@,
        decreases v@.len() - i,
    {
        if v[i].0 == *key {
            return Some(i);
        }
        i += 1;
    }
    None
}

/// Merges `updates` into `base`: an update for a key already present
/// replaces that entry's value in place; a new key is appended. Entries
/// from `updates` win, as `Map::union_prefer_right` describes.
pub fn merge_environment(base: &Vec<(String, String)>, updates: &Vec<(String, String)>) -> (r:
    Vec<(String, String)>)
    requires
        distinct_keys(pair_views(base@)),
    ensures
        distinct_keys(pair_views(r@)),
        env_map(pair_views(r@)) == env_map(pair_views(base@)).union_prefer_right(
            env_map(pair_views(updates@)),
        ),
{
    let mut r = crate::model::clone_env(base);
    proof {
        assert(pair_views(updates@).take(0) =~= Seq::<(Seq<char>, Seq<char>)>::empty());
        assert(env_map(pair_views(r@)).union_prefer_right(Map::empty()) =~= env_map(
            pair_views(r@),
        ));
    }
    let mut j: usize = 0;
    while j < updates.len()
        invariant
            j <= updates@.len(),
            distinct_keys(pair_views(r@)),
            env_map(pair_views(r@)) == env_map(pair_views(base@)).union_prefer_right(
                env_map(pair_views(updates@).take(j as int)),
            ),
        decreases updates@.len() - j,
    {
        let key = updates[j].0.clone();
        let val = updates[j].1.clone();
        let ghost prev = pair_views(r@);
        let ghost upt = pair_views(updates@).take(j as int);
        match env_find_index(&r, &key) {
            Some(i) => {
                proof {
                    lemma_env_map_update(prev, i as int, val@);
                }
                r.set(i, (key, val));
                proof {
                    assert(pair_views(r@) =~= prev.update(i as int, (prev[i as int].0, val@)));
                    assert(distinct_keys(pair_views(r@)));
                }
            },
            None => {
                r.push((key, val));
                proof {
                    assert(pair_views(r@) =~= prev.push((updates@[j as int].0@,
                        updates@[j as int].1@)));
                    assert(pair_views(r@).drop_last() =~= prev);
                    assert forall|a: int, b: int|
                        0 <= a < b < pair_views(r@).len() implies pair_views(r@)[a].0
                        != pair_views(r@)[b].0 by {
                        if b == pair_views(r@).len() - 1 {
                            assert(!has_key(prev, pair_views(r@)[b].0));
                        }
                    }
                }
            },
        }
        proof {
            assert(pair_views(updates@).take(j as int + 1).drop_last() =~= upt);
            assert(pair_views(updates@).take(j as int + 1).last() == (updates@[j as int].0@,
                updates@[j as int].1@));
            assert(env_map(pair_views(base@)).union_prefer_right(
                env_map(upt).insert(updates@[j as int].0@, updates@[j as int].1@),
            ) =~= env_map(pair_views(base@)).union_prefer_right(env_map(upt)).insert(
                updates@[j as int].0@,
                updates@[j as int].1@,
            ));
        }
        j += 1;
    }
    proof {
        assert(pair_views(updates@).take(updates@.len() as int) =~= pair_views(updates@));
    }
    r
}

/// What parsing a piece of text as a flat string-to-string TOML table
/// yields: the table, or nothing when the text is not such a table. The
/// result depends on the text alone.
pub uninterp spec fn toml_env_table(s: Seq<char>) -> Option<Map<Seq<char>, Seq<char>>>;

/// Declares `toml::de::Error`, the parse error `toml::from_str` returns,
/// so that it can appear in the parsing wrapper's signature. Opaque: the
/// library only maps it to its own error.
#[verifier::external_type_specification]
#[verifier::external_body]
pub struct ExTomlDeError(toml::de::Error);

/// Relies on `toml::from_str`: parses TOML text as a flat
/// string-to-string table, whose entries (keys unique, in no promised
/// order) it hands back.
#[verifier::external_body]
fn parse_env_file(contents: &str) -> (r: Result<Vec<(String, String)>, toml::de::Error>)
    ensures
        match r {
            Ok(v) => toml_env_table(contents@) == Some(env_map(pair_views(v@))) && distinct_keys(
                pair_views(v@),
            ),
            Err(_) => toml_env_table(contents@) is None,
        },
{
    let table: std::collections::HashMap<String, String> = toml::from_str(contents)?;
    Ok(table.into_iter().collect())
}

/// The merged engine environment a profile asks for: its inline
/// `environment` entries, overridden by the entries of its environment
/// file when it names one. The file's path resolves against the
/// profile's base directory.
///
/// `file_contents` is the text of the environment file, read by the
/// caller; `None` means the file could not be read. When the profile
/// names no environment file, `file_contents` is ignored.
pub fn resolve_environment(profile: &Profile, file_contents: Option<&String>) -> (r: Result<
    Vec<(String, String)>,
    ResolveError,
>)
    requires
        distinct_keys(pair_views(profile.environment@)),
    ensures
        match profile.environment_file {
            None => r matches Ok(v) && v@ == profile.environment@,
            Some(path) => {
                let resolved = joined_path(profile.base_directory@, path@);
                match file_contents {
                    None => r matches Err(e) && e matches ResolveError::EnvironmentFileUnreadable(p)
                        && p@ == resolved,
                    Some(c) => match toml_env_table(c@) {
                        None => r matches Err(e) && e matches ResolveError::EnvironmentFileMalformed(p)
                            && p@ == resolved,
                        Some(tbl) => r matches Ok(v) && distinct_keys(pair_views(v@)) && env_map(
                            pair_views(v@),
                        ) == env_map(pair_views(profile.environment@)).union_prefer_right(tbl),
                    },
                }
            },
        },
{
    match &profile.environment_file {
        None => Ok(crate::model::clone_env(&profile.environment)),
        Some(path) => {
            let resolved = join_path(profile.base_directory.as_str(), path.as_str());
            match file_contents {
                None => Err(ResolveError::EnvironmentFileUnreadable(resolved)),
                Some(c) => match parse_env_file(c.as_str()) {
                    Err(_) => Err(ResolveError::EnvironmentFileMalformed(resolved)),
                    Ok(entries) => Ok(merge_environment(&profile.environment, &entries)),
                },
            }
        },
    }
}

} // verus!
