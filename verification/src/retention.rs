//! Translation of a retention policy into the engine's flag vocabulary.

use vstd::prelude::*;
use vstd::string::StringExecFns;

use crate::config::{policy_is_empty, RetentionPolicy};
use crate::model::{pair_views, views};
use crate::strutil::{dec_digits, join_comma, join_comma_spec, usize_to_string};

verus! {

/// The flag pair an optional counter contributes: none when absent.
pub open spec fn opt_count_pair(flag: Seq<char>, v: Option<usize>) -> Seq<(Seq<char>, Seq<char>)> {
    match v {
        Some(n) => seq![(flag, dec_digits(n as nat))],
        None => Seq::empty(),
    }
}

/// The flag pair an optional string value contributes: none when absent.
pub open spec fn opt_text_pair(flag: Seq<char>, v: Option<String>) -> Seq<(Seq<char>, Seq<char>)> {
    match v {
        Some(s) => seq![(flag, s@)],
        None => Seq::empty(),
    }
}

/// One flag pair per tag group, its value the group's tags joined with
/// commas.
pub open spec fn tag_pairs(tags: Seq<Vec<String>>) -> Seq<(Seq<char>, Seq<char>)> {
    tags.map_values(|g: Vec<String>| ("--keep-tag"@, join_comma_spec(views(g@))))
}

/// The ordered flag pairs a retention policy translates to: the counters
/// in a fixed order, then the duration window, then one pair per tag
/// group. Absent fields contribute no pair.
pub open spec fn retention_pairs(p: RetentionPolicy) -> Seq<(Seq<char>, Seq<char>)> {
    opt_count_pair("--keep-last"@, p.keep_last) + opt_count_pair("--keep-hourly"@, p.keep_hourly)
        + opt_count_pair("--keep-daily"@, p.keep_daily) + opt_count_pair(
        "--keep-weekly"@,
        p.keep_weekly,
    ) + opt_count_pair("--keep-monthly"@, p.keep_monthly) + opt_count_pair(
        "--keep-yearly"@,
        p.keep_yearly,
    ) + opt_text_pair("--keep-within"@, p.keep_within) + tag_pairs(p.keep_tags@)
}

fn push_count(out: &mut Vec<(String, String)>, flag: &str, v: &Option<usize>)
    ensures
        pair_views(final(out)@) == pair_views(old(out)@) + opt_count_pair(flag@, *v),
{
    match v {
        Some(n) => {
            let ghost prev = pair_views(out@);
            out.push((String::from_str(flag), usize_to_string(*n)));
            proof {
                assert(pair_views(out@) =~= prev + opt_count_pair(flag@, Some(*n)));
            }
        },
        None => {
            proof {
                assert(pair_views(out@) =~= pair_views(out@) + Seq::<(Seq<char>,
                    Seq<char>)>::empty());
            }
        },
    }
}

fn push_text(out: &mut Vec<(String, String)>, flag: &str, v: &Option<String>)
    ensures
        pair_views(final(out)@) == pair_views(old(out)@) + opt_text_pair(flag@, *v),
{
    match v {
        Some(s) => {
            let ghost prev = pair_views(out@);
            out.push((String::from_str(flag), s.clone()));
            proof {
                assert(pair_views(out@) =~= prev + opt_text_pair(flag@, Some(*s)));
            }
        },
        None => {
            proof {
                assert(pair_views(out@) =~= pair_views(out@) + Seq::<(Seq<char>,
                    Seq<char>)>::empty());
            }
        },
    }
}

/// Translates a retention policy into its ordered flag pairs, as
/// `retention_pairs` describes.
pub fn translate(policy: &RetentionPolicy) -> (r: Vec<(String, String)>)
    ensures
        pair_views(r@) == retention_pairs(*policy),
{
    let mut r: Vec<(String, String)> = Vec::new();
    push_count(&mut r, "--keep-last", &policy.keep_last);
    push_count(&mut r, "--keep-hourly", &policy.keep_hourly);
    push_count(&mut r, "--keep-daily", &policy.keep_daily);
    push_count(&mut r, "--keep-weekly", &policy.keep_weekly);
    push_count(&mut r, "--keep-monthly", &policy.keep_monthly);
    push_count(&mut r, "--keep-yearly", &policy.keep_yearly);
    push_text(&mut r, "--keep-within", &policy.keep_within);
    let ghost base = pair_views(r@);
    let mut i: usize = 0;
    proof {
        assert(tag_pairs(policy.keep_tags@.take(0)) =~= Seq::<(Seq<char>, Seq<char>)>::empty());
        assert(base + tag_pairs(policy.keep_tags@.take(0)) =~= base);
    }
    while i < policy.keep_tags.len()
        invariant
            i <= policy.keep_tags@.len(),
            pair_views(r@) == base + tag_pairs(policy.keep_tags@.take(i as int)),
        decreases policy.keep_tags@.len() - i,
    {
        let ghost prev = pair_views(r@);
        let value = join_comma(&policy.keep_tags[i]);
        r.push((String::from_str("--keep-tag"), value));
        proof {
            assert(pair_views(r@) =~= prev.push(("--keep-tag"@, join_comma_spec(views(
                policy.keep_tags@[i as int]@,
            )))));
            assert(tag_pairs(policy.keep_tags@.take(i as int + 1)) =~= tag_pairs(
                policy.keep_tags@.take(i as int),
            ).push(("--keep-tag"@, join_comma_spec(views(policy.keep_tags@[i as int]@)))));
            assert(pair_views(r@) =~= base + tag_pairs(policy.keep_tags@.take(i as int + 1)));
        }
        i += 1;
    }
    proof {
        assert(policy.keep_tags@.take(policy.keep_tags@.len() as int) =~= policy.keep_tags@);
    }
    r
}

/// Flag pairs flattened into a single argument stream: each pair
/// contributes its flag and then its value.
pub open spec fn flatten_pairs(pairs: Seq<(Seq<char>, Seq<char>)>) -> Seq<Seq<char>>
    decreases pairs.len(),
{
    if pairs.len() == 0 {
        Seq::empty()
    } else {
        flatten_pairs(pairs.drop_last()) + seq![pairs.last().0, pairs.last().1]
    }
}

/// Appends a policy's translated flags and values, in order, to an
/// argument list.
pub fn add_policy(policy: &RetentionPolicy, args: &mut Vec<String>)
    ensures
        views(final(args)@) == views(old(args)@) + flatten_pairs(retention_pairs(*policy)),
{
    let pairs = translate(policy);
    let ghost pv = pair_views(pairs@);
    proof {
        assert(pv.take(0) =~= Seq::<(Seq<char>, Seq<char>)>::empty());
        assert(views(args@) + flatten_pairs(pv.take(0)) =~= views(args@));
    }
    let mut i: usize = 0;
    while i < pairs.len()
        invariant
            i <= pairs@.len(),
            pv == pair_views(pairs@),
            views(args@) == views(old(args)@) + flatten_pairs(pv.take(i as int)),
        decreases pairs@.len() - i,
    {
        let ghost prev = views(args@);
        args.push(pairs[i].0.clone());
        args.push(pairs[i].1.clone());
        proof {
            assert(views(args@) =~= prev + seq![pv[i as int].0, pv[i as int].1]);
            assert(pv.take(i as int + 1).drop_last() =~= pv.take(i as int));
            assert(views(old(args)@) + (flatten_pairs(pv.take(i as int)) + seq![pv[i as int].0,
                pv[i as int].1]) =~= (views(old(args)@) + flatten_pairs(pv.take(i as int)))
                + seq![pv[i as int].0, pv[i as int].1]);
        }
        i += 1;
    }
    proof {
        assert(pv.take(pairs@.len() as int) =~= pv);
    }
}

/// An empty policy translates to no flag pairs at all, and a non-empty
/// one to at least one: forgetting with an empty policy would drop every
/// snapshot, so its translation must visibly be a no-op.
pub proof fn lemma_policy_empty_iff_no_pairs(p: RetentionPolicy)
    ensures
        policy_is_empty(p) <==> retention_pairs(p).len() == 0,
{
}

} // verus!
