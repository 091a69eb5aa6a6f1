//! The session table: a slot allocator whose keys are local channel numbers.
use vstd::prelude::*;

use crate::session::ChannelState;

verus! {

#[verifier::external_type_specification]
#[verifier::external_body]
#[verifier::reject_recursive_types(T)]
pub struct ExSlab<T>(slab::Slab<T>);

/// The occupied slots of a table, by key.
pub uninterp spec fn slab_slots(s: slab::Slab<ChannelState>) -> Map<usize, ChannelState>;

/// The key that the table's next insertion will use.
pub uninterp spec fn slab_next(s: slab::Slab<ChannelState>) -> usize;

/// Relies on slab::Slab::with_capacity: a new table holds nothing and
/// fills key 0 first.
#[verifier::external_body]
pub(crate) fn table_new() -> (r: slab::Slab<ChannelState>)
    ensures
        slab_slots(r).dom() == Set::<usize>::empty(),
        slab_next(r) == 0,
{
    slab::Slab::with_capacity(8)
}

/// Relies on slab::Slab::vacant_key: the key of the vacant entry that the
/// next insertion fills.
#[verifier::external_body]
pub(crate) fn table_vacant_key(s: &slab::Slab<ChannelState>) -> (r: usize)
    ensures
        r == slab_next(*s),
        !slab_slots(*s).contains_key(r),
{
    s.vacant_key()
}

/// Relies on slab::Slab::insert: the value goes in at `vacant_key()`, which
/// is returned, and no other slot changes.
#[verifier::external_body]
pub(crate) fn table_insert(s: &mut slab::Slab<ChannelState>, v: ChannelState) -> (r: usize)
    ensures
        r == slab_next(*old(s)),
        !slab_slots(*old(s)).contains_key(r),
        slab_slots(*final(s)) == slab_slots(*old(s)).insert(r, v),
        !slab_slots(*final(s)).contains_key(slab_next(*final(s))),
{
    s.insert(v)
}

/// Relies on slab::Slab::get: the value at an occupied key, `None` at a
/// vacant one.
#[verifier::external_body]
pub(crate) fn table_get(s: &slab::Slab<ChannelState>, key: usize) -> (r: Option<&ChannelState>)
    ensures
        match r {
            Some(v) => slab_slots(*s).contains_key(key) && *v == slab_slots(*s)[key],
            None => !slab_slots(*s).contains_key(key),
        },
{
    s.get(key)
}

/// Relies on slab::Slab's `IndexMut`: replaces the value at an occupied key
/// (it panics at a vacant one, which `requires` leaves out).
#[verifier::external_body]
pub(crate) fn table_set(s: &mut slab::Slab<ChannelState>, key: usize, v: ChannelState)
    requires
        slab_slots(*old(s)).contains_key(key),
    ensures
        slab_slots(*final(s)) == slab_slots(*old(s)).insert(key, v),
        slab_next(*final(s)) == slab_next(*old(s)),
{
    s[key] = v;
}

/// Relies on slab::Slab::try_remove: takes the value out of an occupied
/// key and frees it; a vacant key leaves the table as it was.
#[verifier::external_body]
pub(crate) fn table_remove(s: &mut slab::Slab<ChannelState>, key: usize) -> (r: Option<ChannelState>)
    ensures
        slab_slots(*final(s)) == slab_slots(*old(s)).remove(key),
        !slab_slots(*final(s)).contains_key(slab_next(*final(s))),
        match r {
            Some(v) => slab_slots(*old(s)).contains_key(key) && v == slab_slots(*old(s))[key],
            None => !slab_slots(*old(s)).contains_key(key),
        },
{
    s.try_remove(key)
}

/// Relies on slab::Slab::clear: every slot is freed.
#[verifier::external_body]
pub(crate) fn table_clear(s: &mut slab::Slab<ChannelState>)
    ensures
        slab_slots(*final(s)).dom() == Set::<usize>::empty(),
        !slab_slots(*final(s)).contains_key(slab_next(*final(s))),
{
    s.clear()
}

/// Relies on slab::Slab::iter: each occupied key once.
#[verifier::external_body]
pub(crate) fn table_keys(s: &slab::Slab<ChannelState>) -> (r: Vec<usize>)
    ensures
        r@.no_duplicates(),
        forall|k: usize| r@.contains(k) <==> slab_slots(*s).contains_key(k),
{
    s.iter().map(|(k, _)| k).collect()
}

} // verus!
