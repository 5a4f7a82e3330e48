//! Owned values and the handles derived from them. A store holds every owned
//! value in a slot tagged with a generation; a handle names a slot and the
//! generation it saw. Replacing or releasing a value advances the generation,
//! so every handle taken before is stale from then on, and each access through
//! a handle checks this first.
use vstd::prelude::*;
use crate::error::ConfChangeError;

verus! {

/// One owned value, or none once released, and its generation.
pub struct Slot<T> {
    pub value: Option<T>,
    pub generation: u64,
}

/// The storage behind owners and handles.
pub struct RefStore<T> {
    slots: Vec<Slot<T>>,
}

/// The sole owner of one slot of a store.
pub struct Owner {
    index: usize,
}

/// A non-owning handle: a slot and the generation it was taken at.
#[derive(Clone, Copy, Debug)]
pub struct Handle {
    index: usize,
    generation: u64,
}

impl Owner {
    pub closed spec fn slot(&self) -> int {
        self.index as int
    }
}

impl Handle {
    pub closed spec fn slot(&self) -> int {
        self.index as int
    }

    pub closed spec fn generation(&self) -> u64 {
        self.generation
    }
}

impl<T> View for RefStore<T> {
    type V = Seq<Slot<T>>;

    closed spec fn view(&self) -> Seq<Slot<T>> {
        self.slots@
    }
}

/// `new` is `old` with the value in slot `i` now viewed as `v`, its
/// generation kept.
pub open spec fn updated_at<T: View>(old: Seq<Slot<T>>, new: Seq<Slot<T>>, i: int, v: T::V) -> bool {
    &&& new.len() == old.len()
    &&& 0 <= i < old.len()
    &&& forall|j: int| 0 <= j < old.len() && j != i ==> new[j] == old[j]
    &&& new[i].generation == old[i].generation
    &&& new[i].value is Some
    &&& new[i].value->Some_0@ == v
}

/// `new` is `old` with one more slot, of generation zero, whose value is
/// viewed as `v`.
pub open spec fn pushed_view<T: View>(old: Seq<Slot<T>>, new: Seq<Slot<T>>, v: T::V) -> bool {
    &&& new.len() == old.len() + 1
    &&& forall|j: int| 0 <= j < old.len() ==> new[j] == old[j]
    &&& new[old.len() as int].generation == 0
    &&& new[old.len() as int].value is Some
    &&& new[old.len() as int].value->Some_0@ == v
}

impl<T> RefStore<T> {
    /// The owner `o` holds a value here.
    pub open spec fn owns(&self, o: &Owner) -> bool {
        0 <= o.slot() < self@.len() && self@[o.slot()].value is Some
    }

    /// The handle `h` still sees the current value of its slot.
    pub open spec fn live(&self, h: &Handle) -> bool {
        &&& 0 <= h.slot() < self@.len()
        &&& self@[h.slot()].generation == h.generation()
        &&& self@[h.slot()].value is Some
    }

    /// The value in slot `i`.
    pub open spec fn value_at(&self, i: int) -> T {
        self@[i].value->Some_0
    }

    /// No slot went away and no generation went back from `self` to `later`.
    pub open spec fn advanced(&self, later: &RefStore<T>) -> bool {
        &&& self@.len() <= later@.len()
        &&& forall|i: int| 0 <= i < self@.len() ==> self@[i].generation <= later@[i].generation
    }

    /// Whether the generation of slot `i` can still advance.
    pub open spec fn can_advance(&self, i: int) -> bool {
        self@[i].generation < u64::MAX
    }

    pub fn new() -> (r: RefStore<T>)
        ensures
            r@ == Seq::<Slot<T>>::empty(),
    {
        RefStore { slots: Vec::new() }
    }

    /// Takes ownership of `value` in a new slot.
    pub fn own(&mut self, value: T) -> (o: Owner)
        ensures
            final(self)@ == old(self)@.push(Slot { value: Some(value), generation: 0 }),
            o.slot() == old(self)@.len(),
            final(self).owns(&o),
            old(self).advanced(final(self)),
    {
        let index = self.slots.len();
        self.slots.push(Slot { value: Some(value), generation: 0 });
        Owner { index }
    }

    /// A handle to the value of `o`, at its current generation.
    pub fn derive_handle(&self, o: &Owner) -> (h: Handle)
        requires
            self.owns(o),
        ensures
            h.slot() == o.slot(),
            h.generation() == self@[o.slot()].generation,
            self.live(&h),
    {
        Handle { index: o.index, generation: self.slots[o.index].generation }
    }

    /// The current generation of the slot of `o`.
    pub fn generation(&self, o: &Owner) -> (r: u64)
        requires
            self.owns(o),
        ensures
            r == self@[o.slot()].generation,
    {
        self.slots[o.index].generation
    }

    /// Whether `h` is live.
    pub fn is_live(&self, h: &Handle) -> (r: bool)
        ensures
            r == self.live(h),
    {
        h.index < self.slots.len() && self.slots[h.index].generation == h.generation
            && self.slots[h.index].value.is_some()
    }

    /// Read access to the value behind `h`, if it is live.
    pub fn get(&self, h: &Handle) -> (r: Result<&T, ConfChangeError>)
        ensures
            self.live(h) ==> r is Ok && *r->Ok_0 == self.value_at(h.slot()),
            !self.live(h) ==> r == Err::<&T, ConfChangeError>(ConfChangeError::StaleReference),
    {
        if !self.is_live(h) {
            return Err(ConfChangeError::StaleReference);
        }
        match &self.slots[h.index].value {
            Some(v) => Ok(v),
            None => vstd::pervasive::unreached(),
        }
    }

    /// Read access to the value of its owner.
    pub fn owned(&self, o: &Owner) -> (r: &T)
        requires
            self.owns(o),
        ensures
            *r == self.value_at(o.slot()),
    {
        match &self.slots[o.index].value {
            Some(v) => v,
            None => vstd::pervasive::unreached(),
        }
    }

    /// Write access to the value behind a live handle. Writes through it are
    /// seen through every live handle on the slot.
    pub(crate) fn value_mut(&mut self, h: &Handle) -> (r: &mut T)
        requires
            old(self).live(h),
        ensures
            *r == old(self).value_at(h.slot()),
            final(self)@ == old(self)@.update(
                h.slot(),
                Slot { value: Some(*final(r)), generation: old(self)@[h.slot()].generation },
            ),
    {
        let slot = &mut self.slots[h.index];
        match &mut slot.value {
            Some(v) => v,
            None => vstd::pervasive::unreached(),
        }
    }

    /// Stores `v` behind `h` in place, if `h` is live; the generation stays,
    /// so the other live handles see `v`.
    pub fn write(&mut self, h: &Handle, v: T) -> (r: Result<(), ConfChangeError>)
        ensures
            old(self).live(h) ==> r is Ok && final(self)@ == old(self)@.update(
                h.slot(),
                Slot { value: Some(v), generation: old(self)@[h.slot()].generation },
            ),
            !old(self).live(h) ==> r == Err::<(), ConfChangeError>(ConfChangeError::StaleReference)
                && final(self)@ == old(self)@,
            old(self).advanced(final(self)),
    {
        if !self.is_live(h) {
            return Err(ConfChangeError::StaleReference);
        }
        let slot = self.value_mut(h);
        *slot = v;
        Ok(())
    }

    /// Replaces the value of `o`; every handle taken before is stale.
    pub fn replace(&mut self, o: &Owner, v: T)
        requires
            old(self).owns(o),
            old(self).can_advance(o.slot()),
        ensures
            final(self)@ == old(self)@.update(
                o.slot(),
                Slot { value: Some(v), generation: (old(self)@[o.slot()].generation + 1) as u64 },
            ),
            final(self).owns(o),
            old(self).advanced(final(self)),
    {
        let g = self.slots[o.index].generation;
        self.slots[o.index] = Slot { value: Some(v), generation: g + 1 };
    }

    /// Gives up the value of `o`; every handle taken before is stale.
    pub fn release(&mut self, o: Owner) -> (r: T)
        requires
            old(self).owns(&o),
            old(self).can_advance(o.slot()),
        ensures
            r == old(self).value_at(o.slot()),
            final(self)@ == old(self)@.update(
                o.slot(),
                Slot { value: None, generation: (old(self)@[o.slot()].generation + 1) as u64 },
            ),
            old(self).advanced(final(self)),
    {
        let g = self.slots[o.index].generation;
        let mut slot = Slot { value: None, generation: g + 1 };
        std::mem::swap(&mut self.slots[o.index], &mut slot);
        match slot.value {
            Some(v) => v,
            None => vstd::pervasive::unreached(),
        }
    }
}

/// Once the generation of a handle's slot has moved past the one the handle
/// saw, the handle is stale in that state and in every later one: each access
/// through it fails with `StaleReference` and never yields a value.
pub proof fn lemma_stale_after_replace<T>(
    taken: &RefStore<T>,
    replaced: &RefStore<T>,
    later: &RefStore<T>,
    h: &Handle,
)
    requires
        taken.live(h),
        taken.advanced(replaced),
        replaced@[h.slot()].generation > taken@[h.slot()].generation,
        replaced.advanced(later),
    ensures
        !replaced.live(h),
        !later.live(h),
{
}

/// Two handles taken from the same owner see the same storage: what is
/// written through one is read through the other, while no replace
/// intervenes.
pub proof fn lemma_alias_visible<T>(before: &RefStore<T>, after: &RefStore<T>, h1: &Handle, h2: &Handle, v: T)
    requires
        before.live(h1),
        before.live(h2),
        h1.slot() == h2.slot(),
        after@ == before@.update(
            h1.slot(),
            Slot { value: Some(v), generation: before@[h1.slot()].generation },
        ),
    ensures
        after.live(h2),
        after.value_at(h2.slot()) == v,
{
}

/// The same, for a change to the value seen through its view.
pub proof fn lemma_alias_visible_view<T: View>(
    before: &RefStore<T>,
    after: &RefStore<T>,
    h1: &Handle,
    h2: &Handle,
    w: T::V,
)
    requires
        before.live(h1),
        before.live(h2),
        h1.slot() == h2.slot(),
        updated_at(before@, after@, h1.slot(), w),
    ensures
        after.live(h2),
        after.value_at(h2.slot())@ == w,
{
}

/// A change in place keeps every slot and every generation, so the store
/// has only advanced.
pub proof fn lemma_update_advances<T: View>(before: &RefStore<T>, after: &RefStore<T>, i: int, v: T::V)
    requires
        updated_at(before@, after@, i, v),
    ensures
        before.advanced(after),
{
}

/// A new slot keeps every other slot and generation, so the store has only
/// advanced.
pub proof fn lemma_push_advances<T: View>(before: &RefStore<T>, after: &RefStore<T>, v: T::V)
    requires
        pushed_view(before@, after@, v),
    ensures
        before.advanced(after),
{
}

} // verus!
