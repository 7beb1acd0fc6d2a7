//! The ownership bridge: every value handed to the foreign caller lives in a
//! `ValueRegistry`, and the caller holds only a `Handle` naming its slot.
//!
//! The registry guarantees single ownership: a slot is filled by `create`,
//! read by `get`, overwritten in place by `replace`, and emptied by `take` or
//! `release`. Slots are never reused, so a handle whose slot was emptied is
//! dead forever: no later `create` can make it point at a different value.
//! Every operation given a dead or out-of-range handle returns its safe
//! default and leaves the registry unchanged.

use vstd::prelude::*;

verus! {

/// An opaque name for one slot of a `ValueRegistry`. The foreign caller sees
/// this where the native binding layer would hand out a raw pointer.
#[derive(Debug, Clone, Copy, PartialEq, Eq, Structural)]
pub struct Handle {
    /// Position of the slot inside the registry that issued this handle.
    pub index: usize,
}

/// Owns the values behind the opaque handles of one value type.
pub struct ValueRegistry<T> {
    slots: Vec<Option<T>>,
}

impl<T> View for ValueRegistry<T> {
    type V = Seq<Option<T>>;

    closed spec fn view(&self) -> Seq<Option<T>> {
        self.slots@
    }
}

impl<T> ValueRegistry<T> {
    /// A handle is live when its slot exists and still holds a value.
    pub open spec fn live(&self, h: Handle) -> bool {
        h.index < self@.len() && self@[h.index as int] is Some
    }

    /// The value owned by a live handle's slot.
    pub open spec fn value_of(&self, h: Handle) -> T
        recommends
            self.live(h),
    {
        self@[h.index as int]->0
    }

    /// A possibly-null handle is live when it is non-null and its slot still
    /// holds a value. `None` stands for a null pointer of the foreign caller.
    pub open spec fn live_opt(&self, h: Option<Handle>) -> bool {
        h matches Some(h) && self.live(h)
    }

    /// The value owned by a live possibly-null handle's slot.
    pub open spec fn value_opt(&self, h: Option<Handle>) -> T
        recommends
            self.live_opt(h),
    {
        self.value_of(h->Some_0)
    }

    /// An empty registry: no handle is live.
    pub fn new() -> (r: Self)
        ensures
            r@.len() == 0,
    {
        ValueRegistry { slots: Vec::new() }
    }

    /// Moves `value` into a fresh slot and returns the handle that owns it.
    /// The new handle is distinct from every handle issued before, and no
    /// existing slot changes.
    pub fn create(&mut self, value: T) -> (h: Handle)
        ensures
            h.index == old(self)@.len(),
            final(self)@ == old(self)@.push(Some(value)),
            final(self).live(h),
            final(self).value_of(h) == value,
    {
        let h = Handle { index: self.slots.len() };
        self.slots.push(Some(value));
        h
    }

    /// Dereferences a handle without consuming it: `Some` with the owned
    /// value when the handle is live, `None` otherwise. The registry never
    /// changes.
    pub fn get(&self, h: Handle) -> (r: Option<&T>)
        ensures
            self.live(h) ==> (r matches Some(v) && *v == self.value_of(h)),
            !self.live(h) ==> r is None,
    {
        if h.index < self.slots.len() {
            match &self.slots[h.index] {
                Some(v) => Some(v),
                None => None,
            }
        } else {
            None
        }
    }

    /// Reports whether a handle is live, without touching the value.
    pub fn is_live(&self, h: Handle) -> (r: bool)
        ensures
            r == self.live(h),
    {
        if h.index < self.slots.len() {
            self.slots[h.index].is_some()
        } else {
            false
        }
    }

    /// Overwrites the value owned by a live handle, returning the previous
    /// value; the handle keeps owning the slot. A dead handle leaves the
    /// registry unchanged and returns `None`.
    pub fn replace(&mut self, h: Handle, value: T) -> (r: Option<T>)
        ensures
            old(self).live(h) ==> {
                &&& r matches Some(v) && v == old(self).value_of(h)
                &&& final(self)@ == old(self)@.update(h.index as int, Some(value))
            },
            !old(self).live(h) ==> r is None && final(self)@ == old(self)@,
    {
        if h.index < self.slots.len() && self.slots[h.index].is_some() {
            let slot = &mut self.slots[h.index];
            let previous = slot.take();
            *slot = Some(value);
            assert(final(self)@ =~= old(self)@.update(h.index as int, Some(value)));
            previous
        } else {
            assert(final(self)@ =~= old(self)@);
            None
        }
    }

    /// Consumes the handle's slot, returning ownership of the value to the
    /// caller. Afterwards the handle is dead: `get`, `take` and `release` on
    /// it all see an empty slot. A dead handle returns `None` and changes
    /// nothing.
    pub fn take(&mut self, h: Handle) -> (r: Option<T>)
        ensures
            old(self).live(h) ==> {
                &&& r matches Some(v) && v == old(self).value_of(h)
                &&& final(self)@ == old(self)@.update(h.index as int, None)
            },
            !old(self).live(h) ==> r is None && final(self)@ == old(self)@,
    {
        if h.index < self.slots.len() {
            let r = self.slots[h.index].take();
            assert(!old(self).live(h) ==> final(self)@ =~= old(self)@);
            r
        } else {
            None
        }
    }

    /// Consumes and drops the handle's value; reports whether the handle was
    /// live. Used by the explicit destroy entry points.
    pub fn release(&mut self, h: Handle) -> (r: bool)
        ensures
            old(self).live(h) ==> r && final(self)@ == old(self)@.update(
                h.index as int,
                None,
            ),
            !old(self).live(h) ==> !r && final(self)@ == old(self)@,
    {
        self.take(h).is_some()
    }
}

/// Single-ownership of the bridge: once `take` has consumed a handle, the
/// handle is dead, and no operation short of overwriting the registry can
/// revive it — in particular a later `create` hands out a different handle
/// and leaves the dead slot empty.
pub proof fn lemma_taken_handle_stays_dead<T>(
    before: ValueRegistry<T>,
    after: ValueRegistry<T>,
    h: Handle,
    later: ValueRegistry<T>,
    value: T,
    fresh: Handle,
)
    requires
        before.live(h),
        after@ == before@.update(h.index as int, None::<T>),
        later@ == after@.push(Some(value)),
        fresh.index == after@.len(),
    ensures
        !after.live(h),
        !later.live(h),
        fresh != h,
        later.live(fresh),
{
    assert(later@[h.index as int] is None);
}

} // verus!
