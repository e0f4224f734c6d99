//! The guarantees that hold across operations, stated over the table's
//! abstract contents — the `Map<i32, UserView>` that every operation's
//! contract speaks of.

use vstd::prelude::*;
use crate::user::UserView;

verus! {

/// Round trip: once a create has stored the row `v` under a fresh `id` —
/// `create` ensures the contents became exactly `t.insert(id, v)`, with
/// `v` holding the payload's username and email and the assigned creation
/// time — a read of that `id` finds the row, and finds exactly `v`.
pub proof fn lemma_create_then_read(t: Map<i32, UserView>, id: i32, v: UserView)
    ensures
        t.insert(id, v).contains_key(id),
        t.insert(id, v)[id] == v,
{
}

/// Update overwrites: an update of `id` to `v2` — `update_by_id` ensures
/// the contents became exactly `t.insert(id, v2)` with `v2` carrying the
/// new username and email — fully replaces whatever row `v1` an earlier
/// write left there; a later read sees `v2` alone, nothing merged.
pub proof fn lemma_update_overwrites(t: Map<i32, UserView>, id: i32, v1: UserView, v2: UserView)
    ensures
        t.insert(id, v1).insert(id, v2).contains_key(id),
        t.insert(id, v1).insert(id, v2)[id] == v2,
        t.insert(id, v1).insert(id, v2) == t.insert(id, v2),
{
    assert(t.insert(id, v1).insert(id, v2) =~= t.insert(id, v2));
}

/// Delete then delete: after a delete removed `id` — `delete_by_id`
/// ensures the contents became `t.remove(id)` — the id is gone, so a
/// second delete of the same id affects no row and must answer not-found,
/// never success.
pub proof fn lemma_delete_then_delete(t: Map<i32, UserView>, id: i32)
    ensures
        !t.remove(id).contains_key(id),
{
}

/// Distinct identities: every create returns an id absent from its
/// pre-state and present afterwards, so two creates, in whichever order
/// the store serializes them, never assign the same id.
pub proof fn lemma_creates_assign_distinct_ids(
    t: Map<i32, UserView>,
    id1: i32,
    v1: UserView,
    id2: i32,
    v2: UserView,
)
    requires
        !t.contains_key(id1),
        !t.insert(id1, v1).contains_key(id2),
    ensures
        id1 != id2,
{
}

/// Distinct identities under any interleaving: a create returns the serial
/// counter's value and moves it past the assigned id, and every other
/// operation's contract keeps the counter where it was — it never goes
/// down. So whatever ran in between, an id assigned later is strictly
/// larger than one assigned earlier, hence never a duplicate.
pub proof fn lemma_later_creates_assign_larger_ids(
    id1: int,
    counter_after_first: int,
    counter_before_second: int,
    id2: int,
)
    requires
        counter_after_first == id1 + 1,
        counter_before_second >= counter_after_first,
        id2 == counter_before_second,
    ensures
        id2 > id1,
{
}

} // verus!
