use vstd::prelude::*;

use crate::instance::Instance;

verus! {

/// Law: no handle returned by create is ever returned again by a later
/// create while the original instance is still live.
///
/// `Ruffle::new` guarantees that the handle it returns is absent from the
/// pool it was handed, and every operation's contract shows membership of
/// untouched handles preserved. Instantiating this lemma with the pool state
/// at the later create shows its handle distinct from every handle whose
/// instance is still live — in particular from the earlier one.
pub proof fn lemma_handle_unique_while_live(entries: Map<int, Instance>, live_id: int, fresh_id: int)
    requires
        entries.dom().contains(live_id),
        !entries.dom().contains(fresh_id),
    ensures
        fresh_id != live_id,
{
}

/// Law: destroying the same handle twice is a no-op the second time, and
/// never an error.
///
/// After the first destroy the pool is the old pool with the handle's entry
/// removed, so the handle is no longer live; `Ruffle::destroy` of a handle
/// that is not live returns None and leaves the pool exactly as it was.
pub proof fn lemma_destroy_idempotent(entries: Map<int, Instance>, id: int)
    ensures
        !entries.remove(id).dom().contains(id),
        entries.remove(id).remove(id) == entries.remove(id),
{
    assert(entries.remove(id).remove(id) =~= entries.remove(id));
}

/// Law: an operation on one handle never touches any other instance.
///
/// Every handler's contract leaves the pool unchanged for a stale handle and
/// otherwise rewrites the pool as an insert or remove at that handle's own
/// key; this lemma shows that such a rewrite preserves both the liveness and
/// the state of every other handle.
pub proof fn lemma_other_instances_untouched(entries: Map<int, Instance>, id: int, value: Instance, other: int)
    requires
        other != id,
    ensures
        entries.insert(id, value).dom().contains(other) == entries.dom().contains(other),
        entries.dom().contains(other) ==> entries.insert(id, value)[other] == entries[other],
        entries.remove(id).dom().contains(other) == entries.dom().contains(other),
        entries.dom().contains(other) ==> entries.remove(id)[other] == entries[other],
{
}

} // verus!
