//! What a whole scan produces, seen abstractly: the filter applied to
//! every entry the traversal discovered, in whatever order the workers
//! happened to visit them.

use crate::path_check::Check;
use vstd::prelude::*;

verus! {

/// The paths among the discovered entries that the filter accepts.
/// An entry is the path's text paired with the entry's byte length,
/// when metadata was available.
pub open spec fn match_set(c: Check, entries: Seq<(Seq<char>, Option<u64>)>) -> Set<Seq<char>> {
    Set::new(
        |p: Seq<char>|
            exists|j: int|
                0 <= j < entries.len() && (#[trigger] entries[j]).0 == p && c.accepts(
                    entries[j].0,
                    entries[j].1,
                ),
    )
}

/// Workers may discover the entries in any order and interleaving:
/// two traversals that visit the same set of entries yield the same
/// set of matching paths, because the filter is a pure function of
/// each entry alone. Only the order of output may differ, never its
/// membership.
pub proof fn lemma_match_set_order_independent(
    c: Check,
    e1: Seq<(Seq<char>, Option<u64>)>,
    e2: Seq<(Seq<char>, Option<u64>)>,
)
    requires
        e1.to_set() == e2.to_set(),
    ensures
        match_set(c, e1) == match_set(c, e2),
{
    assert forall|p: Seq<char>| match_set(c, e1).contains(p) implies match_set(
        c,
        e2,
    ).contains(p) by {
        lemma_match_is_kept(c, e1, e2, p);
    };
    assert forall|p: Seq<char>| match_set(c, e2).contains(p) implies match_set(
        c,
        e1,
    ).contains(p) by {
        lemma_match_is_kept(c, e2, e1, p);
    };
    assert(match_set(c, e1) =~= match_set(c, e2));
}

/// A path matched among one traversal's entries still matches among
/// another's, as long as the second visited every entry the first did.
proof fn lemma_match_is_kept(
    c: Check,
    e1: Seq<(Seq<char>, Option<u64>)>,
    e2: Seq<(Seq<char>, Option<u64>)>,
    p: Seq<char>,
)
    requires
        forall|x: (Seq<char>, Option<u64>)| e1.to_set().contains(x) ==> e2.to_set().contains(x),
        match_set(c, e1).contains(p),
    ensures
        match_set(c, e2).contains(p),
{
    let j = choose|j: int|
        0 <= j < e1.len() && (#[trigger] e1[j]).0 == p && c.accepts(e1[j].0, e1[j].1);
    assert(e1.to_set().contains(e1[j]));
    assert(e2.contains(e1[j]));
    let k = choose|k: int| 0 <= k < e2.len() && e2[k] == e1[j];
    assert((e2[k]).0 == p && c.accepts(e2[k].0, e2[k].1));
}

} // verus!
