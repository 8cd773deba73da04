//! Fileset inheritance flattening.
//!
//! A fileset's patterns come first, then the patterns of each inherited
//! fileset in the order listed, recursively. Nothing is deduplicated: the
//! engine tolerates repeated patterns, and a fileset inherited twice is
//! emitted twice. A name that the configuration does not define fails the
//! resolution, and a name that reappears on the current inheritance path
//! fails it too, instead of recursing forever.

use vstd::prelude::*;

use crate::config::Fileset;
use crate::error::ResolveError;
use crate::model::{clone_strings, find_entry, lookup, views};

verus! {

/// The set of fileset names a configuration defines.
pub open spec fn fileset_names(m: Seq<(String, Fileset)>) -> Set<Seq<char>> {
    m.map_values(|p: (String, Fileset)| p.0@).to_set()
}

/// How many defined fileset names are not yet on the inheritance path:
/// the measure that bounds the traversal.
pub open spec fn remaining(m: Seq<(String, Fileset)>, path: Set<Seq<char>>) -> nat {
    fileset_names(m).difference(path).len()
}

/// The inheritance path as a set of names.
pub open spec fn path_set(path: Seq<String>) -> Set<Seq<char>> {
    views(path).to_set()
}

/// A name that resolves is among the defined fileset names.
pub proof fn lemma_lookup_in_names(m: Seq<(String, Fileset)>, name: Seq<char>)
    requires
        lookup(m, name) is Some,
    ensures
        fileset_names(m).contains(name),
    decreases m.len(),
{
    if m.len() == 0 {
    } else if m[0].0@ == name {
        assert(m.map_values(|p: (String, Fileset)| p.0@)[0] == name);
        assert(m.map_values(|p: (String, Fileset)| p.0@).contains(name));
    } else {
        lemma_lookup_in_names(m.drop_first(), name);
        let f = |p: (String, Fileset)| p.0@;
        assert(m.drop_first().map_values(f) =~= m.map_values(f).drop_first());
        let i = choose|i: int|
            0 <= i < m.map_values(f).drop_first().len() && m.map_values(f).drop_first()[i] == name;
        assert(m.map_values(f)[i + 1] == name);
        assert(m.map_values(f).contains(name));
    }
}

/// Stepping onto a defined name that is not yet on the path shrinks the
/// measure.
pub proof fn lemma_remaining_decreases(m: Seq<(String, Fileset)>, path: Set<Seq<char>>, name: Seq<
    char,
>)
    requires
        lookup(m, name) is Some,
        !path.contains(name),
    ensures
        remaining(m, path.insert(name)) < remaining(m, path),
{
    broadcast use vstd::seq_lib::seq_to_set_is_finite;

    lemma_lookup_in_names(m, name);
    fileset_names(m).lemma_set_insert_diff_decreases(path, name);
}

/// What resolving the filesets behind a list of inherited names yields:
/// their flattened patterns, concatenated in the order the names are
/// listed. A name on the current path fails as cyclic, an undefined one
/// as unknown, and a failure anywhere is the whole resolution's failure.
pub open spec fn resolve_names_spec(
    names: Seq<String>,
    m: Seq<(String, Fileset)>,
    path: Set<Seq<char>>,
) -> Result<Seq<Seq<char>>, ResolveError>
    decreases remaining(m, path), 0nat, names.len(),
{
    if names.len() == 0 {
        Ok(Seq::empty())
    } else if path.contains(names[0]@) {
        Err(ResolveError::CyclicFileset(names[0]))
    } else {
        match lookup(m, names[0]@) {
            None => Err(ResolveError::UnknownFileset(names[0])),
            Some(fs) => {
                proof {
                    lemma_remaining_decreases(m, path, names[0]@);
                }
                match resolve_fileset_spec(fs, m, path.insert(names[0]@)) {
                    Err(e) => Err(e),
                    Ok(ps) => match resolve_names_spec(names.drop_first(), m, path) {
                        Err(e) => Err(e),
                        Ok(rest) => Ok(ps + rest),
                    },
                }
            },
        }
    }
}

/// What resolving a fileset yields: its own patterns first, then the
/// flattened patterns of everything it inherits.
pub open spec fn resolve_fileset_spec(
    fs: Fileset,
    m: Seq<(String, Fileset)>,
    path: Set<Seq<char>>,
) -> Result<Seq<Seq<char>>, ResolveError>
    decreases remaining(m, path), 1nat, 0nat,
{
    match resolve_names_spec(fs.inherits@, m, path) {
        Err(e) => Err(e),
        Ok(inherited) => Ok(views(fs.patterns@) + inherited),
    }
}

/// Whether `name` is on the inheritance path.
fn path_contains(path: &Vec<String>, name: &String) -> (b: bool)
    ensures
        b == path_set(path@).contains(name@),
{
    let mut i: usize = 0;
    while i < path.len()
        invariant
            i <= path@.len(),
            forall|j: int| 0 <= j < i ==> views(path@)[j] != name@,
        decreases path@.len() - i,
    {
        if path[i] == *name {
            assert(views(path@)[i as int] == name@);
            return true;
        }
        i += 1;
    }
    assert(!views(path@).contains(name@));
    false
}

/// Resolves `fileset` with `path` as the names already being expanded,
/// as `resolve_fileset_spec` describes.
fn resolve_into(
    fileset: &Fileset,
    named_filesets: &Vec<(String, Fileset)>,
    path: &Vec<String>,
) -> (r: Result<Vec<String>, ResolveError>)
    ensures
        match r {
            Ok(v) => resolve_fileset_spec(*fileset, named_filesets@, path_set(path@)) == Ok::<
                _,
                ResolveError,
            >(views(v@)),
            Err(e) => resolve_fileset_spec(*fileset, named_filesets@, path_set(path@)) == Err::<
                Seq<Seq<char>>,
                _,
            >(e),
        },
    decreases remaining(named_filesets@, path_set(path@)),
{
    let ghost m = named_filesets@;
    let ghost pset = path_set(path@);
    let ghost full = fileset.inherits@;
    let mut out = clone_strings(&fileset.patterns);
    let ghost mut done: Seq<Seq<char>> = Seq::empty();
    proof {
        assert(full.skip(0) =~= full);
        if let Ok(rest) = resolve_names_spec(full, m, pset) {
            assert(done + rest =~= rest);
        }
    }
    let mut i: usize = 0;
    while i < fileset.inherits.len()
        invariant
            i <= full.len(),
            m == named_filesets@,
            pset == path_set(path@),
            full == fileset.inherits@,
            views(out@) == views(fileset.patterns@) + done,
            match resolve_names_spec(full.skip(i as int), m, pset) {
                Ok(rest) => resolve_names_spec(full, m, pset) == Ok::<_, ResolveError>(
                    done + rest,
                ),
                Err(e) => resolve_names_spec(full, m, pset) == Err::<Seq<Seq<char>>, _>(e),
            },
        decreases full.len() - i,
    {
        let name = &fileset.inherits[i];
        proof {
            assert(full.skip(i as int)[0] == full[i as int]);
            assert(full.skip(i as int).drop_first() =~= full.skip(i as int + 1));
        }
        if path_contains(path, name) {
            return Err(ResolveError::CyclicFileset(name.clone()));
        }
        match find_entry(named_filesets, name) {
            None => {
                return Err(ResolveError::UnknownFileset(name.clone()));
            },
            Some(child) => {
                let mut path2 = clone_strings(path);
                path2.push(name.clone());
                proof {
                    assert(views(path2@) =~= views(path@).push(name@));
                    assert forall|x: Seq<char>| path_set(path2@).contains(x) <==> (pset.contains(
                        x,
                    ) || x == name@) by {
                        if views(path2@).contains(x) {
                            let k = choose|k: int|
                                0 <= k < views(path2@).len() && views(path2@)[k] == x;
                            if k < views(path@).len() {
                                assert(views(path@)[k] == x);
                            }
                        }
                        if views(path@).contains(x) {
                            let k = choose|k: int|
                                0 <= k < views(path@).len() && views(path@)[k] == x;
                            assert(views(path2@)[k] == x);
                        }
                        if x == name@ {
                            assert(views(path2@)[views(path2@).len() - 1] == x);
                        }
                    }
                    assert(path_set(path2@) =~= pset.insert(name@));
                    lemma_remaining_decreases(m, pset, name@);
                }
                match resolve_into(child, named_filesets, &path2) {
                    Err(e) => {
                        return Err(e);
                    },
                    Ok(mut ps) => {
                        let ghost ps_view = views(ps@);
                        out.append(&mut ps);
                        proof {
                            assert(views(out@) =~= views(fileset.patterns@) + done + ps_view);
                            assert(views(fileset.patterns@) + done + ps_view =~= views(
                                fileset.patterns@,
                            ) + (done + ps_view));
                            match resolve_names_spec(full.skip(i as int + 1), m, pset) {
                                Ok(rest) => {
                                    assert(resolve_names_spec(full.skip(i as int), m, pset)
                                        == Ok::<_, ResolveError>(ps_view + rest));
                                    assert(done + (ps_view + rest) =~= (done + ps_view) + rest);
                                },
                                Err(e) => {},
                            }
                            done = done + ps_view;
                        }
                    },
                }
            },
        }
        i += 1;
    }
    proof {
        assert(full.skip(full.len() as int) =~= Seq::<String>::empty());
        assert(done + Seq::<Seq<char>>::empty() =~= done);
    }
    Ok(out)
}

/// Flattens a fileset's own patterns and everything it (transitively)
/// inherits into one ordered pattern list, as `resolve_fileset_spec`
/// (started on an empty path) describes. Pure: nothing is written
/// anywhere, so a failure leaves no partial output behind.
pub fn resolve(fileset: &Fileset, named_filesets: &Vec<(String, Fileset)>) -> (r: Result<
    Vec<String>,
    ResolveError,
>)
    ensures
        match r {
            Ok(v) => resolve_fileset_spec(*fileset, named_filesets@, Set::empty()) == Ok::<
                _,
                ResolveError,
            >(views(v@)),
            Err(e) => resolve_fileset_spec(*fileset, named_filesets@, Set::empty()) == Err::<
                Seq<Seq<char>>,
                _,
            >(e),
        },
{
    let path: Vec<String> = Vec::new();
    proof {
        assert(views(path@).to_set() =~= Set::<Seq<char>>::empty());
    }
    resolve_into(fileset, named_filesets, &path)
}

/// Appends a fileset's flattened patterns to `out`, one pattern per
/// line-to-be. On failure nothing at all is appended: no partial writes.
pub fn write_fileset(
    out: &mut Vec<String>,
    fileset: &Fileset,
    named_filesets: &Vec<(String, Fileset)>,
) -> (r: Result<(), ResolveError>)
    ensures
        match r {
            Ok(_) => resolve_fileset_spec(*fileset, named_filesets@, Set::empty()) matches Ok(ps)
                && views(final(out)@) == views(old(out)@) + ps,
            Err(e) => resolve_fileset_spec(*fileset, named_filesets@, Set::empty()) == Err::<
                Seq<Seq<char>>,
                _,
            >(e) && final(out)@ == old(out)@,
        },
{
    match resolve(fileset, named_filesets) {
        Ok(mut v) => {
            let ghost v_view = views(v@);
            out.append(&mut v);
            proof {
                assert(views(out@) =~= views(old(out)@) + v_view);
            }
            Ok(())
        },
        Err(e) => Err(e),
    }
}

/// A fileset that inherits nothing resolves to exactly its own patterns,
/// in their original order.
pub proof fn lemma_resolve_own_patterns(
    fs: Fileset,
    m: Seq<(String, Fileset)>,
    path: Set<Seq<char>>,
)
    requires
        fs.inherits@.len() == 0,
    ensures
        resolve_fileset_spec(fs, m, path) == Ok::<_, ResolveError>(views(fs.patterns@)),
{
    assert(views(fs.patterns@) + Seq::<Seq<char>>::empty() =~= views(fs.patterns@));
}

/// A three-link inheritance chain flattens depth-first: the first
/// fileset's patterns, then the second's, then the third's.
pub proof fn lemma_resolve_chain(
    a: Fileset,
    b_name: String,
    b: Fileset,
    c_name: String,
    c: Fileset,
    m: Seq<(String, Fileset)>,
)
    requires
        a.inherits@ =~= seq![b_name],
        b.inherits@ =~= seq![c_name],
        c.inherits@.len() == 0,
        lookup(m, b_name@) == Some(b),
        lookup(m, c_name@) == Some(c),
        b_name@ != c_name@,
    ensures
        resolve_fileset_spec(a, m, Set::empty()) == Ok::<_, ResolveError>(
            views(a.patterns@) + views(b.patterns@) + views(c.patterns@),
        ),
{
    let p0 = Set::<Seq<char>>::empty();
    let p1 = p0.insert(b_name@);
    let p2 = p1.insert(c_name@);
    lemma_resolve_own_patterns(c, m, p2);
    assert(!p1.contains(c_name@));
    assert(b.inherits@[0] == c_name);
    assert(b.inherits@.drop_first() =~= Seq::<String>::empty());
    assert(a.inherits@[0] == b_name);
    assert(a.inherits@.drop_first() =~= Seq::<String>::empty());
    assert(resolve_names_spec(Seq::<String>::empty(), m, p1) == Ok::<_, ResolveError>(
        Seq::<Seq<char>>::empty(),
    ));
    assert(resolve_names_spec(Seq::<String>::empty(), m, p0) == Ok::<_, ResolveError>(
        Seq::<Seq<char>>::empty(),
    ));
    assert(resolve_names_spec(b.inherits@, m, p1) == Ok::<_, ResolveError>(
        views(c.patterns@) + Seq::<Seq<char>>::empty(),
    ));
    assert(views(c.patterns@) + Seq::<Seq<char>>::empty() =~= views(c.patterns@));
    assert(resolve_fileset_spec(b, m, p1) == Ok::<_, ResolveError>(
        views(b.patterns@) + views(c.patterns@),
    ));
    assert(!p0.contains(b_name@));
    assert(seq![b_name].drop_first() =~= Seq::<String>::empty());
    assert(resolve_names_spec(a.inherits@, m, p0) == Ok::<_, ResolveError>(
        (views(b.patterns@) + views(c.patterns@)) + Seq::<Seq<char>>::empty(),
    ));
    assert((views(b.patterns@) + views(c.patterns@)) + Seq::<Seq<char>>::empty() =~= views(
        b.patterns@,
    ) + views(c.patterns@));
    assert(views(a.patterns@) + (views(b.patterns@) + views(c.patterns@)) =~= views(a.patterns@)
        + views(b.patterns@) + views(c.patterns@));
}

} // verus!
