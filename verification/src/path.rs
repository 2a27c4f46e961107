//! Candidate paths: a candidate name joined to a base directory.
//!
//! Paths are joined as on Unix, with `/` between directory and name.

use vstd::prelude::*;
use crate::name::{candidate_name, name_first_char, name_injective, name_text};

verus! {

/// Whether a name stands for itself wherever it is joined: it begins with `/`.
pub open spec fn is_absolute(name: Seq<char>) -> bool {
    name.len() > 0 && name[0] == '/'
}

/// The path of `name` under the directory `base`.
///
/// An absolute name replaces the base. Otherwise the name follows the base,
/// after a `/` unless the base is empty or already ends with one.
pub open spec fn joined(base: Seq<char>, name: Seq<char>) -> Seq<char> {
    if is_absolute(name) {
        name
    } else if base.len() > 0 && base.last() != '/' {
        base + seq!['/'] + name
    } else {
        base + name
    }
}

/// The candidate path for a timestamp: the candidate name under `dir`.
pub open spec fn path_text(
    dir: Seq<char>,
    prefix: Seq<char>,
    micros: nat,
    suffix: Seq<char>,
) -> Seq<char> {
    joined(dir, name_text(prefix, micros, suffix))
}

/// Joins `name` to the directory `base`.
pub fn join(base: &str, name: &str) -> (path: String)
    ensures
        path@ == joined(base@, name@),
{
    if !name.is_empty() && name.get_char(0) == '/' {
        return String::from_str(name);
    }
    let mut path = String::from_str(base);
    let base_len: usize = base.unicode_len();
    if base_len > 0 && base.get_char(base_len - 1) != '/' {
        proof {
            reveal_strlit("/");
        }
        path.append("/");
    }
    path.append(name);
    path
}

/// Builds the candidate path for the timestamp `micros`.
pub fn candidate_path(dir: &str, prefix: &str, micros: u128, suffix: &str) -> (path: String)
    ensures
        path@ == path_text(dir@, prefix@, micros as nat, suffix@),
{
    let name = candidate_name(prefix, micros, suffix);
    join(dir, name.as_str())
}

/// A joined path ends with the name, whatever the base.
pub proof fn joined_ends_with_name(base: Seq<char>, name: Seq<char>)
    ensures
        name.is_suffix_of(joined(base, name)),
{
}

/// A name that is not absolute lands under the base: the joined path begins
/// with it.
pub proof fn joined_starts_with_base(base: Seq<char>, name: Seq<char>)
    requires
        !is_absolute(name),
    ensures
        base.is_prefix_of(joined(base, name)),
{
}

/// Under one base, two names that are both absolute or both not are joined
/// to the same path only if they are the same name.
pub proof fn joined_injective(base: Seq<char>, a: Seq<char>, b: Seq<char>)
    requires
        is_absolute(a) == is_absolute(b),
        joined(base, a) == joined(base, b),
    ensures
        a == b,
{
    if !is_absolute(a) {
        let lead = joined(base, Seq::<char>::empty());
        assert(joined(base, a) =~= lead + a);
        assert(joined(base, b) =~= lead + b);
        assert(a.len() == b.len());
        assert forall|i: int| 0 <= i < a.len() implies a[i] == b[i] by {
            assert((lead + a)[lead.len() + i] == a[i]);
            assert((lead + b)[lead.len() + i] == b[i]);
        }
        assert(a =~= b);
    }
}

/// With directory, prefix and suffix fixed, two timestamps that differ give
/// two candidate paths that differ.
pub proof fn distinct_stamps_distinct_paths(
    dir: Seq<char>,
    prefix: Seq<char>,
    suffix: Seq<char>,
    a: nat,
    b: nat,
)
    requires
        a != b,
    ensures
        path_text(dir, prefix, a, suffix) != path_text(dir, prefix, b, suffix),
{
    let left = name_text(prefix, a, suffix);
    let right = name_text(prefix, b, suffix);
    name_first_char(prefix, a, suffix);
    name_first_char(prefix, b, suffix);
    assert(is_absolute(left) == is_absolute(right));
    if joined(dir, left) == joined(dir, right) {
        joined_injective(dir, left, right);
        name_injective(prefix, suffix, a, b);
    }
}

/// Where the prefix does not begin with `/`, the candidate path begins with
/// the directory and ends with the prefix, the numeral and the suffix.
pub proof fn path_under_dir(dir: Seq<char>, prefix: Seq<char>, micros: nat, suffix: Seq<char>)
    requires
        !is_absolute(prefix),
    ensures
        dir.is_prefix_of(path_text(dir, prefix, micros, suffix)),
        name_text(prefix, micros, suffix).is_suffix_of(path_text(dir, prefix, micros, suffix)),
{
    let name = name_text(prefix, micros, suffix);
    name_first_char(prefix, micros, suffix);
    assert(!is_absolute(name));
}

} // verus!
