use vstd::prelude::*;

use crate::instance::Instance;
use generational_arena::Arena;
use generational_arena::Index;

verus! {

/// Declares generational_arena's arena type to the verifier. Values of it are
/// opaque; everything the crate knows about them is stated on the wrappers
/// below, over `arena_entries` and `index_id`.
#[verifier::external_type_specification]
#[verifier::external_body]
#[verifier::reject_recursive_types(T)]
pub struct ExArena<T>(Arena<T>);

/// Declares generational_arena's index type to the verifier.
#[verifier::external_type_specification]
#[verifier::external_body]
pub struct ExIndex(Index);

/// The live entries of an arena of instances, keyed by the abstract identity
/// of the index each entry was inserted under.
pub uninterp spec fn arena_entries(a: Arena<Instance>) -> Map<int, Instance>;

/// Abstract identity of an arena index: one value for each distinct pair of
/// slot and generation tag, so two indices share an identity exactly when the
/// arena treats them as the same key.
pub uninterp spec fn index_id(i: Index) -> int;

/// A pool state with no live instances.
pub open spec fn no_entries() -> Map<int, Instance> {
    Map::empty()
}

/// Relies on generational_arena::Arena::new: the new arena has no entries.
#[verifier::external_body]
fn arena_new() -> (r: Arena<Instance>)
    ensures
        arena_entries(r) == no_entries(),
{
    generational_arena::Arena::new()
}

/// Relies on generational_arena::Arena::insert: the value is stored in a free
/// slot stamped with the arena's current generation tag, so the returned
/// index aliases no live entry (every live entry occupies a different slot,
/// and removal bumps the generation before a slot is handed out again).
#[verifier::external_body]
fn arena_insert(a: &mut Arena<Instance>, value: Instance) -> (i: Index)
    ensures
        !arena_entries(*old(a)).dom().contains(index_id(i)),
        arena_entries(*final(a)) == arena_entries(*old(a)).insert(index_id(i), value),
{
    a.insert(value)
}

/// Relies on generational_arena::Arena::get: Some exactly when the index's
/// slot is occupied and its generation tag matches, i.e. when the entry the
/// index was issued for is still live.
#[verifier::external_body]
fn arena_get(a: &Arena<Instance>, i: Index) -> (r: Option<Instance>)
    ensures
        r == (if arena_entries(*a).dom().contains(index_id(i)) {
            Some(arena_entries(*a)[index_id(i)])
        } else {
            None::<Instance>
        }),
{
    a.get(i).copied()
}

/// Relies on generational_arena::Arena::get_mut: returns the live entry for
/// the index, or None for a stale index; writing through the returned
/// reference replaces that entry alone.
#[verifier::external_body]
fn arena_set(a: &mut Arena<Instance>, i: generational_arena::Index, value: Instance)
    ensures
        arena_entries(*final(a)) == (if arena_entries(*old(a)).dom().contains(index_id(i)) {
            arena_entries(*old(a)).insert(index_id(i), value)
        } else {
            arena_entries(*old(a))
        }),
{
    if let Some(slot) = a.get_mut(i) {
        *slot = value;
    }
}

/// Relies on generational_arena::Arena::remove: returns and frees the live
/// entry for the index; a stale or unknown index leaves the arena unchanged
/// and returns None.
#[verifier::external_body]
fn arena_remove(a: &mut Arena<Instance>, i: Index) -> (r: Option<Instance>)
    ensures
        r == (if arena_entries(*old(a)).dom().contains(index_id(i)) {
            Some(arena_entries(*old(a))[index_id(i)])
        } else {
            None::<Instance>
        }),
        arena_entries(*final(a)) == (if arena_entries(*old(a)).dom().contains(index_id(i)) {
            arena_entries(*old(a)).remove(index_id(i))
        } else {
            arena_entries(*old(a))
        }),
{
    a.remove(i)
}

/// An opaque handle to an instance inside the pool.
///
/// This is the value handed across the embedding boundary to host code: it is
/// copyable, stays valid from creation until destroy, and a stale copy held
/// across an asynchronous callback is harmless, since every lookup with it is
/// a defined no-op.
#[derive(Clone, Copy, PartialEq, Eq)]
pub struct Ruffle(Index);

impl Ruffle {
    /// Abstract identity of this handle: the key its instance is stored under.
    pub closed spec fn id(&self) -> int {
        index_id(self.0)
    }
}

/// The pool of live instances, keyed by opaque handle.
///
/// Slots are reused only under a fresh generation tag, so a handle never
/// aliases an instance allocated after its own was removed.
pub struct Pool {
    arena: Arena<Instance>,
}

impl Pool {
    /// The live instances, keyed by handle identity.
    pub closed spec fn entries(&self) -> Map<int, Instance> {
        arena_entries(self.arena)
    }

    /// Whether the handle refers to a live instance.
    pub open spec fn live(&self, h: Ruffle) -> bool {
        self.entries().dom().contains(h.id())
    }

    /// Creates an empty pool.
    pub fn new() -> (p: Pool)
        ensures
            p.entries() == no_entries(),
    {
        Pool { arena: arena_new() }
    }

    /// Inserts an instance and returns a fresh handle: one that aliases no
    /// instance currently live in the pool.
    pub fn allocate(&mut self, instance: Instance) -> (h: Ruffle)
        ensures
            !old(self).entries().dom().contains(h.id()),
            final(self).entries() == old(self).entries().insert(h.id(), instance),
    {
        Ruffle(arena_insert(&mut self.arena, instance))
    }

    /// Looks up the instance for a handle; None for a stale or unknown handle.
    pub fn get(&self, h: &Ruffle) -> (r: Option<Instance>)
        ensures
            r == (if self.live(*h) {
                Some(self.entries()[h.id()])
            } else {
                None::<Instance>
            }),
    {
        arena_get(&self.arena, h.0)
    }

    /// Overwrites the live instance for a handle; a stale or unknown handle
    /// changes nothing.
    pub fn put(&mut self, h: &Ruffle, instance: Instance)
        ensures
            final(self).entries() == (if old(self).live(*h) {
                old(self).entries().insert(h.id(), instance)
            } else {
                old(self).entries()
            }),
    {
        arena_set(&mut self.arena, h.0, instance);
    }

    /// Detaches and returns the instance for a handle; a stale or unknown
    /// handle changes nothing and returns None.
    pub fn remove(&mut self, h: &Ruffle) -> (r: Option<Instance>)
        ensures
            r == (if old(self).live(*h) {
                Some(old(self).entries()[h.id()])
            } else {
                None::<Instance>
            }),
            final(self).entries() == (if old(self).live(*h) {
                old(self).entries().remove(h.id())
            } else {
                old(self).entries()
            }),
    {
        arena_remove(&mut self.arena, h.0)
    }
}

} // verus!
