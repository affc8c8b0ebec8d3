//! The slab of in-flight operations, keyed by slot index.

use vstd::prelude::*;

use super::engine::Slot;

verus! {

#[verifier::external_type_specification]
#[verifier::external_body]
#[verifier::reject_recursive_types(T)]
pub struct ExSlab<T>(slab::Slab<T>);

/// The operations a slab holds, by key.
pub uninterp spec fn slab_entries(s: slab::Slab<Slot>) -> Map<usize, Slot>;

/// Nothing at any key.
pub open spec fn no_slots() -> Map<usize, Slot> {
    Map::empty()
}

/// Relies on `slab::Slab::with_capacity`: a new slab holds nothing.
#[verifier::external_body]
pub(crate) fn slab_with_capacity(capacity: usize) -> (r: slab::Slab<Slot>)
    ensures
        slab_entries(r) == no_slots(),
{
    slab::Slab::with_capacity(capacity)
}

/// Relies on `slab::Slab::insert`: the value is stored under a key that was vacant, which
/// is returned.
#[verifier::external_body]
pub(crate) fn slab_insert(s: &mut slab::Slab<Slot>, val: Slot) -> (key: usize)
    ensures
        !slab_entries(*old(s)).contains_key(key),
        slab_entries(*final(s)) == slab_entries(*old(s)).insert(key, val),
{
    s.insert(val)
}

/// Relies on `slab::Slab::try_remove`: the value under `key` is taken out, if there is one.
#[verifier::external_body]
pub(crate) fn slab_try_remove(s: &mut slab::Slab<Slot>, key: usize) -> (r: Option<
    Slot,
>)
    ensures
        slab_entries(*old(s)).contains_key(key) ==> r == Some(slab_entries(*old(s))[key])
            && slab_entries(*final(s)) == slab_entries(*old(s)).remove(key),
        !slab_entries(*old(s)).contains_key(key) ==> r is None && slab_entries(*final(s))
            == slab_entries(*old(s)),
{
    s.try_remove(key)
}

/// Relies on `slab::Slab::contains`: whether a value is stored under `key`.
#[verifier::external_body]
pub(crate) fn slab_contains(s: &slab::Slab<Slot>, key: usize) -> (r: bool)
    ensures
        r == slab_entries(*s).contains_key(key),
{
    s.contains(key)
}

/// Relies on indexing a `slab::Slab` mutably: the value under `key`, to be changed in place.
#[verifier::external_body]
pub(crate) fn slab_get_mut(s: &mut slab::Slab<Slot>, key: usize) -> (r: &mut Slot)
    requires
        slab_entries(*old(s)).contains_key(key),
    ensures
        *r == slab_entries(*old(s))[key],
        slab_entries(*final(s)) == slab_entries(*old(s)).insert(key, *final(r)),
{
    &mut s[key]
}

/// Relies on indexing a `slab::Slab`: the value under `key`.
#[verifier::external_body]
pub(crate) fn slab_get(s: &slab::Slab<Slot>, key: usize) -> (r: &Slot)
    requires
        slab_entries(*s).contains_key(key),
    ensures
        *r == slab_entries(*s)[key],
{
    &s[key]
}

/// Relies on `slab::Slab::len`: the number of stored values.
#[verifier::external_body]
pub(crate) fn slab_len(s: &slab::Slab<Slot>) -> (r: usize)
    ensures
        r == slab_entries(*s).len(),
{
    s.len()
}

} // verus!
