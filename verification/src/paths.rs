//! Simple path joining.
//!
//! Resolved directories are built by appending path components to a base
//! path as plain text. No normalization happens beyond inserting the
//! platform's separator where one is needed.

use vstd::prelude::*;
use vstd::string::*;

verus! {

/// The separator-aware join of one path component onto a base path: the
/// base, then a separator unless the base is empty or already ends with one,
/// then the component.
pub open spec fn join_spec(base: Seq<char>, comp: Seq<char>, sep: char) -> Seq<char> {
    if base.len() == 0 {
        comp
    } else if base.last() == sep {
        base + comp
    } else {
        base + seq![sep] + comp
    }
}

/// Appends `comp` to `base` as one further path component, separated by the
/// single-character separator `sep`.
pub fn join_component(base: &str, sep: &str, comp: &str) -> (r: String)
    requires
        sep@.len() == 1,
    ensures
        r@ == join_spec(base@, comp@, sep@[0]),
{
    let n = base.unicode_len();
    if n == 0 {
        return comp.to_owned();
    }
    let mut r = base.to_owned();
    let last = base.get_char(n - 1);
    let s = sep.get_char(0);
    if last == s {
        r.append(comp);
        proof {
            assert(base@.last() == sep@[0]);
        }
    } else {
        r.append(sep);
        r.append(comp);
        proof {
            assert(base@ + sep@ + comp@ =~= base@ + seq![sep@[0]] + comp@);
        }
    }
    r
}

} // verus!
