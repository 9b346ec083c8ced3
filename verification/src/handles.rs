//! Handle tables: registries mapping small non-negative integers to owned
//! native resource values.
//!
//! A handle is an opaque capability reference: the guest never dereferences
//! it, it only presents it back to the host. Within one table a handle is
//! unique among the currently-live entries, and allocation always assigns
//! the lowest integer not currently in use.

use vstd::prelude::*;

verus! {

/// A registry of owned resources addressed by small integer handles.
///
/// Handle `h` is live exactly when slot `h` holds a value. Allocation scans
/// upward from zero for the first free slot, which is O(n) in the number of
/// live entries -- a deliberate scalability ceiling, acceptable for the tiny
/// cardinalities this bridge targets.
pub struct HandleTable<T> {
    pub slots: Vec<Option<T>>,
}

impl<T> View for HandleTable<T> {
    type V = Map<u32, T>;

    open spec fn view(&self) -> Map<u32, T> {
        Map::new(
            |h: u32| h < self.slots.len() && self.slots[h as int] is Some,
            |h: u32| self.slots[h as int]->0,
        )
    }
}

impl<T> HandleTable<T> {
    /// An empty table: no handle is live.
    pub fn new() -> (table: Self)
        ensures
            table@ == Map::<u32, T>::empty(),
            table.slots.len() == 0,
    {
        let table = HandleTable { slots: Vec::new() };
        proof {
            assert(table@ =~= Map::<u32, T>::empty());
        }
        table
    }

    /// Looks a handle up, yielding the registered resource while it is
    /// live. An unknown handle yields nothing -- never a default value.
    pub fn resolve(&self, handle: u32) -> (r: Option<&T>)
        ensures
            r is Some <==> self@.dom().contains(handle),
            r matches Some(item) ==> *item == self@[handle],
    {
        if (handle as usize) < self.slots.len() {
            self.slots[handle as usize].as_ref()
        } else {
            None
        }
    }

    /// Replaces the resource behind a live handle; an unknown handle leaves
    /// the table untouched.
    pub fn replace(&mut self, handle: u32, item: T) -> (ok: bool)
        ensures
            ok <==> old(self)@.dom().contains(handle),
            ok ==> final(self)@ == old(self)@.insert(handle, item),
            !ok ==> *final(self) == *old(self),
            final(self).slots.len() == old(self).slots.len(),
    {
        if (handle as usize) < self.slots.len() && self.slots[handle as usize].is_some() {
            self.slots[handle as usize] = Some(item);
            proof {
                assert(self@ =~= old(self)@.insert(handle, item));
            }
            true
        } else {
            false
        }
    }

    /// Releases a handle, freeing its slot for a later registration to
    /// reuse. The bridge itself never calls this -- its tables grow for the
    /// life of the process -- but the operation pins what reuse would mean.
    pub fn release(&mut self, handle: u32) -> (was_live: bool)
        ensures
            was_live <==> old(self)@.dom().contains(handle),
            final(self)@ == old(self)@.remove(handle),
            final(self).slots.len() == old(self).slots.len(),
    {
        if (handle as usize) < self.slots.len() {
            let was_live = self.slots[handle as usize].is_some();
            self.slots[handle as usize] = None;
            proof {
                assert(self@ =~= old(self)@.remove(handle));
            }
            was_live
        } else {
            proof {
                assert(self@ =~= old(self)@.remove(handle));
            }
            false
        }
    }
}

/// Registers a resource, assigning the lowest handle not currently in use:
/// the table alone decides the handle, and a freed slot is reused before a
/// fresh one is opened.
pub fn register_at_index<T>(table: &mut HandleTable<T>, item: T) -> (handle: u32)
    requires
        old(table).slots.len() < u32::MAX as usize,
    ensures
        !old(table)@.dom().contains(handle),
        forall|g: u32| g < handle ==> old(table)@.dom().contains(g),
        final(table)@ == old(table)@.insert(handle, item),
        final(table).slots.len() <= old(table).slots.len() + 1,
{
    let mut new_id: usize = 0;
    loop
        invariant
            new_id <= table.slots.len(),
            table.slots.len() < u32::MAX as usize,
            *table == *old(table),
            forall|j: int| 0 <= j < new_id ==> table.slots[j] is Some,
        decreases table.slots.len() - new_id,
    {
        if new_id == table.slots.len() {
            table.slots.push(Some(item));
            proof {
                assert(table@ =~= old(table)@.insert(new_id as u32, item));
            }
            return new_id as u32;
        }
        if table.slots[new_id].is_none() {
            table.slots[new_id] = Some(item);
            proof {
                assert(table@ =~= old(table)@.insert(new_id as u32, item));
            }
            return new_id as u32;
        }
        new_id = new_id + 1;
    }
}

/// Law: a handle issued by registration is unique among the entries that
/// were live when it was issued, and afterwards resolves to the very
/// resource that was registered. The first two premises are exactly what
/// registration ensures of the handle it returns.
pub proof fn lemma_register_resolve<T>(table: Map<u32, T>, handle: u32, item: T)
    requires
        !table.dom().contains(handle),
        forall|g: u32| g < handle ==> table.dom().contains(g),
    ensures
        forall|g: u32| table.dom().contains(g) ==> g != handle,
        table.insert(handle, item).dom().contains(handle),
        table.insert(handle, item)[handle] == item,
{
}

/// Law: allocation is deterministic -- the set of live handles alone decides
/// the handle assigned next, the lowest integer not currently in use.
pub proof fn lemma_allocation_deterministic<T>(table: Map<u32, T>, h1: u32, h2: u32)
    requires
        !table.dom().contains(h1),
        forall|g: u32| g < h1 ==> table.dom().contains(g),
        !table.dom().contains(h2),
        forall|g: u32| g < h2 ==> table.dom().contains(g),
    ensures
        h1 == h2,
{
    if h1 < h2 {
        assert(table.dom().contains(h1));
    }
    if h2 < h1 {
        assert(table.dom().contains(h2));
    }
}

} // verus!
