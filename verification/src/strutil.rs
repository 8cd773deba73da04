//! Small verified string utilities: decimal rendering of counters,
//! comma-joining of tag groups, and base-relative path joining.

use vstd::prelude::*;
use vstd::string::StrSliceExecFns;
use vstd::string::StringExecFns;

verus! {

/// The character for one decimal digit.
pub open spec fn digit_char(d: nat) -> char {
    if d == 0 {
        '0'
    } else if d == 1 {
        '1'
    } else if d == 2 {
        '2'
    } else if d == 3 {
        '3'
    } else if d == 4 {
        '4'
    } else if d == 5 {
        '5'
    } else if d == 6 {
        '6'
    } else if d == 7 {
        '7'
    } else if d == 8 {
        '8'
    } else {
        '9'
    }
}

/// The decimal rendering of a natural number, most significant digit
/// first, with no leading zeros (except for zero itself).
pub open spec fn dec_digits(n: nat) -> Seq<char>
    decreases n,
{
    if n < 10 {
        seq![digit_char(n)]
    } else {
        dec_digits(n / 10).push(digit_char(n % 10))
    }
}

fn digit_str(d: usize) -> (s: &'static str)
    requires
        d < 10,
    ensures
        s@ =~= seq![digit_char(d as nat)],
{
    proof {
        reveal_strlit("0");
        reveal_strlit("1");
        reveal_strlit("2");
        reveal_strlit("3");
        reveal_strlit("4");
        reveal_strlit("5");
        reveal_strlit("6");
        reveal_strlit("7");
        reveal_strlit("8");
        reveal_strlit("9");
    }
    if d == 0 {
        "0"
    } else if d == 1 {
        "1"
    } else if d == 2 {
        "2"
    } else if d == 3 {
        "3"
    } else if d == 4 {
        "4"
    } else if d == 5 {
        "5"
    } else if d == 6 {
        "6"
    } else if d == 7 {
        "7"
    } else if d == 8 {
        "8"
    } else {
        "9"
    }
}

/// Renders a counter in decimal, as `dec_digits` describes.
pub fn usize_to_string(n: usize) -> (r: String)
    ensures
        r@ == dec_digits(n as nat),
    decreases n,
{
    let d: usize = n % 10;
    let ds: &str = digit_str(d);
    if n < 10 {
        String::from_str(ds)
    } else {
        let mut s = usize_to_string(n / 10);
        s.append(ds);
        proof {
            assert(dec_digits((n / 10) as nat) + seq![digit_char((n % 10) as nat)] =~= dec_digits(
                (n / 10) as nat,
            ).push(digit_char((n % 10) as nat)));
        }
        s
    }
}

/// The members of `parts` joined with a single comma between neighbours.
pub open spec fn join_comma_spec(parts: Seq<Seq<char>>) -> Seq<char>
    decreases parts.len(),
{
    if parts.len() == 0 {
        Seq::empty()
    } else if parts.len() == 1 {
        parts[0]
    } else {
        join_comma_spec(parts.drop_last()) + seq![','] + parts.last()
    }
}

/// Joins strings with commas, as `join_comma_spec` describes.
pub fn join_comma(parts: &Vec<String>) -> (r: String)
    ensures
        r@ == join_comma_spec(crate::model::views(parts@)),
{
    let mut s = String::new();
    let mut i: usize = 0;
    while i < parts.len()
        invariant
            i <= parts@.len(),
            s@ == join_comma_spec(crate::model::views(parts@).take(i as int)),
        decreases parts@.len() - i,
    {
        if i > 0 {
            s.append(",");
        }
        s.append(parts[i].as_str());
        proof {
            reveal_strlit(",");
            let vp = crate::model::views(parts@);
            assert(vp.take(i as int + 1).drop_last() =~= vp.take(i as int));
            assert(vp.take(i as int + 1).last() == parts@[i as int]@);
            if i == 0 {
                assert(s@ =~= join_comma_spec(vp.take(1)));
            } else {
                assert(s@ =~= join_comma_spec(vp.take(i as int)) + seq![','] + parts@[i as int]@);
            }
        }
        i += 1;
    }
    proof {
        assert(crate::model::views(parts@).take(parts@.len() as int) =~= crate::model::views(
            parts@,
        ));
    }
    s
}

/// A path resolved against a base directory: a path beginning with `/` is
/// treated as absolute and kept as it is; any other path is appended to
/// the base with a `/` separator.
pub open spec fn joined_path(base: Seq<char>, rel: Seq<char>) -> Seq<char> {
    if rel.len() > 0 && rel[0] == '/' {
        rel
    } else {
        base + seq!['/'] + rel
    }
}

/// Joins a path to a base directory, as `joined_path` describes.
pub fn join_path(base: &str, rel: &str) -> (r: String)
    ensures
        r@ == joined_path(base@, rel@),
{
    if !rel.is_empty() && rel.get_char(0) == '/' {
        String::from_str(rel)
    } else {
        let mut s = String::from_str(base);
        s.append("/");
        s.append(rel);
        proof {
            reveal_strlit("/");
            assert(s@ =~= base@ + seq!['/'] + rel@);
        }
        s
    }
}

} // verus!
