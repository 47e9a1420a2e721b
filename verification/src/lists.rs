//! Lists with identifiers: the first position of an identifier, lists
//! without repeated identifiers, and the positions that a filter picks.

use vstd::prelude::*;

verus! {

/// Whether no identifier occurs twice.
pub open spec fn distinct(ids: Seq<Seq<char>>) -> bool {
    forall|i: int, j: int| 0 <= i < j < ids.len() ==> ids[i] != ids[j]
}

/// The first position of `id` among `ids`, if it occurs.
pub open spec fn index_in(ids: Seq<Seq<char>>, id: Seq<char>) -> Option<int>
    decreases ids.len(),
{
    if ids.len() == 0 {
        None
    } else {
        match index_in(ids.drop_last(), id) {
            Some(i) => Some(i),
            None => if ids.last() == id {
                Some(ids.len() - 1)
            } else {
                None
            },
        }
    }
}

/// The first position of an identifier is a position where it stands, with
/// none before it; an identifier without a position stands nowhere.
pub proof fn lemma_index_in(ids: Seq<Seq<char>>, id: Seq<char>)
    ensures
        match index_in(ids, id) {
            Some(i) => 0 <= i < ids.len() && ids[i] == id && forall|j: int|
                0 <= j < i ==> ids[j] != id,
            None => forall|j: int| 0 <= j < ids.len() ==> ids[j] != id,
        },
    decreases ids.len(),
{
    if ids.len() > 0 {
        lemma_index_in(ids.drop_last(), id);
        match index_in(ids.drop_last(), id) {
            Some(i) => {
                assert(ids.drop_last()[i] == ids[i]);
                assert forall|j: int| 0 <= j < i implies ids[j] != id by {
                    assert(ids.drop_last()[j] == ids[j]);
                }
            },
            None => {
                assert forall|j: int| 0 <= j < ids.len() - 1 implies ids[j] != id by {
                    assert(ids.drop_last()[j] == ids[j]);
                }
            },
        }
    }
}

/// A position where an identifier stands, with none before it, is its first
/// position.
pub proof fn lemma_index_in_is(ids: Seq<Seq<char>>, id: Seq<char>, at: int)
    requires
        0 <= at < ids.len(),
        ids[at] == id,
        forall|j: int| 0 <= j < at ==> ids[j] != id,
    ensures
        index_in(ids, id) == Some(at),
{
    lemma_index_in(ids, id);
}

/// The positions below `n` whose flag is set, in order.
pub open spec fn picked(flags: Seq<bool>, n: int) -> Seq<int>
    decreases n,
{
    if n <= 0 {
        Seq::empty()
    } else if flags[n - 1] {
        picked(flags, n - 1).push(n - 1)
    } else {
        picked(flags, n - 1)
    }
}

/// No more positions are picked than there are.
pub proof fn lemma_picked_length(flags: Seq<bool>, n: int)
    requires
        0 <= n,
    ensures
        picked(flags, n).len() <= n,
    decreases n,
{
    if n > 0 {
        lemma_picked_length(flags, n - 1);
    }
}

} // verus!
