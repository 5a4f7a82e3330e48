//! Single and joint configuration changes behind owners and handles. Every
//! access through a handle checks first that it is live, and fails with
//! `StaleReference` otherwise.
use vstd::prelude::*;
use crate::bridge::{pushed_view, updated_at, Handle, Owner, RefStore};
use crate::change::{
    change_type_of, default_conf_change, default_conf_change_v2, ConfChange, ConfChangeType,
    ConfChangeV2, ConfChangeView,
};
use crate::codec::{
    decode_conf_change, decode_conf_change_v2, encode_conf_change, encode_conf_change_v2,
    merge_conf_change,
};
use crate::convert::{joint_of, single_of, to_joint, to_single};
use crate::error::ConfChangeError;
use crate::format::{conf_change_text, format_confchange};
use crate::wire::{conf_change_v2_wire, conf_change_wire, parse_conf_change, parse_conf_change_v2};

verus! {

/// The owner of a single change.
pub struct PyConfChange {
    pub owner: Owner,
}

/// A handle to a single change.
#[derive(Clone, Copy, Debug)]
pub struct PyConfChangeRef {
    pub handle: Handle,
}

/// The owner of a joint change.
pub struct PyConfChangeV2 {
    pub owner: Owner,
}

/// The error of an access through a handle that is not live.
pub open spec fn stale<A>() -> Result<A, ConfChangeError> {
    Err(ConfChangeError::StaleReference)
}

impl PyConfChange {
    /// Owns a new change with every field at its default.
    pub fn new(store: &mut RefStore<ConfChange>) -> (r: PyConfChange)
        ensures
            pushed_view(old(store)@, final(store)@, default_conf_change()),
            r.owner.slot() == old(store)@.len(),
            final(store).owns(&r.owner),
    {
        PyConfChange { owner: store.own(ConfChange::new()) }
    }

    /// The same as `new`.
    pub fn default(store: &mut RefStore<ConfChange>) -> (r: PyConfChange)
        ensures
            pushed_view(old(store)@, final(store)@, default_conf_change()),
            r.owner.slot() == old(store)@.len(),
            final(store).owns(&r.owner),
    {
        PyConfChange::new(store)
    }

    /// Owns the change decoded from `v`.
    pub fn decode(store: &mut RefStore<ConfChange>, v: &[u8]) -> (r: Result<PyConfChange, ConfChangeError>)
        ensures
            match parse_conf_change(v@, 0, v@.len() as int, default_conf_change()) {
                Some(c) => r is Ok && pushed_view(old(store)@, final(store)@, c)
                    && r->Ok_0.owner.slot() == old(store)@.len() && final(store).owns(
                    &r->Ok_0.owner,
                ),
                None => r is Err && r->Err_0 == ConfChangeError::DecodeError && final(store)@ == old(
                    store,
                )@,
            },
    {
        match decode_conf_change(v) {
            Ok(c) => Ok(PyConfChange { owner: store.own(c) }),
            Err(e) => Err(e),
        }
    }

    /// A handle to the owned change.
    pub fn make_ref(&self, store: &RefStore<ConfChange>) -> (r: PyConfChangeRef)
        requires
            store.owns(&self.owner),
        ensures
            r.handle.slot() == self.owner.slot(),
            store.live(&r.handle),
    {
        PyConfChangeRef { handle: store.derive_handle(&self.owner) }
    }

    /// Whether the owned change equals `rhs`, field by field.
    pub fn equals(&self, store: &RefStore<ConfChange>, rhs: &ConfChange) -> (r: bool)
        requires
            store.owns(&self.owner),
        ensures
            r == (store.value_at(self.owner.slot())@ == rhs@),
    {
        store.owned(&self.owner).equals(rhs)
    }

    /// Replaces the owned change; every handle taken before is stale.
    pub fn replace(&self, store: &mut RefStore<ConfChange>, v: ConfChange)
        requires
            old(store).owns(&self.owner),
            old(store).can_advance(self.owner.slot()),
        ensures
            final(store)@.len() == old(store)@.len(),
            final(store).owns(&self.owner),
            final(store).value_at(self.owner.slot()) == v,
            final(store)@[self.owner.slot()].generation == old(store)@[self.owner.slot()].generation
                + 1,
            forall|j: int|
                0 <= j < old(store)@.len() && j != self.owner.slot() ==> final(store)@[j] == old(
                    store,
                )@[j],
            old(store).advanced(final(store)),
    {
        store.replace(&self.owner, v);
    }

    /// Gives up the owned change; every handle taken before is stale.
    pub fn release(self, store: &mut RefStore<ConfChange>) -> (r: ConfChange)
        requires
            old(store).owns(&self.owner),
            old(store).can_advance(self.owner.slot()),
        ensures
            r == old(store).value_at(self.owner.slot()),
            final(store)@.len() == old(store)@.len(),
            final(store)@[self.owner.slot()].value is None,
            final(store)@[self.owner.slot()].generation == old(store)@[self.owner.slot()].generation
                + 1,
            forall|j: int|
                0 <= j < old(store)@.len() && j != self.owner.slot() ==> final(store)@[j] == old(
                    store,
                )@[j],
            old(store).advanced(final(store)),
    {
        store.release(self.owner)
    }
}


impl PyConfChangeRef {
    /// The change seen through this handle.
    pub open spec fn current(&self, store: &RefStore<ConfChange>) -> ConfChangeView {
        store.value_at(self.handle.slot())@
    }

    /// `after` is `before` with the change behind this handle now `v`.
    pub open spec fn changed_to(
        &self,
        before: &RefStore<ConfChange>,
        after: &RefStore<ConfChange>,
        v: ConfChangeView,
    ) -> bool {
        updated_at(before@, after@, self.handle.slot(), v)
    }

    /// The contract of a setter: on a live handle the change becomes `v`;
    /// otherwise `StaleReference` and nothing changes.
    pub open spec fn sets(
        &self,
        before: &RefStore<ConfChange>,
        after: &RefStore<ConfChange>,
        v: ConfChangeView,
        r: Result<(), ConfChangeError>,
    ) -> bool {
        &&& before.live(&self.handle) ==> r is Ok && self.changed_to(before, after, v)
        &&& !before.live(&self.handle) ==> r == stale::<()>() && after@ == before@
    }

    /// Whether the handle is live.
    pub fn is_live(&self, store: &RefStore<ConfChange>) -> (r: bool)
        ensures
            r == store.live(&self.handle),
    {
        store.is_live(&self.handle)
    }

    /// Whether the change equals `rhs`, field by field.
    pub fn equals(&self, store: &RefStore<ConfChange>, rhs: &ConfChange) -> (r: Result<bool, ConfChangeError>)
        ensures
            store.live(&self.handle) ==> r == Ok::<bool, ConfChangeError>(self.current(store) == rhs@),
            !store.live(&self.handle) ==> r == stale::<bool>(),
    {
        match store.get(&self.handle) {
            Ok(c) => Ok(c.equals(rhs)),
            Err(e) => Err(e),
        }
    }

    /// The rendering of the change, with `context` standing for its context.
    pub fn repr(&self, store: &RefStore<ConfChange>, context: &str) -> (r: Result<String, ConfChangeError>)
        ensures
            store.live(&self.handle) ==> r is Ok && r->Ok_0@ == conf_change_text(
                self.current(store),
                context@,
            ),
            !store.live(&self.handle) ==> r is Err && r->Err_0 == ConfChangeError::StaleReference,
    {
        match store.get(&self.handle) {
            Ok(c) => Ok(format_confchange(c, context)),
            Err(e) => Err(e),
        }
    }

    /// A new owner of a copy of the change.
    pub fn clone(&self, store: &mut RefStore<ConfChange>) -> (r: Result<PyConfChange, ConfChangeError>)
        ensures
            old(store).live(&self.handle) ==> r is Ok && pushed_view(
                old(store)@,
                final(store)@,
                self.current(old(store)),
            ) && r->Ok_0.owner.slot() == old(store)@.len() && final(store).owns(&r->Ok_0.owner),
            !old(store).live(&self.handle) ==> r is Err && r->Err_0 == ConfChangeError::StaleReference
                && final(store)@ == old(store)@,
    {
        let copy = match store.get(&self.handle) {
            Ok(c) => c.duplicate(),
            Err(e) => return Err(e),
        };
        Ok(PyConfChange { owner: store.own(copy) })
    }

    /// The wire bytes of the change.
    pub fn encode(&self, store: &RefStore<ConfChange>) -> (r: Result<Vec<u8>, ConfChangeError>)
        ensures
            store.live(&self.handle) ==> r is Ok && r->Ok_0@ == conf_change_wire(self.current(store)),
            !store.live(&self.handle) ==> r is Err && r->Err_0 == ConfChangeError::StaleReference,
    {
        match store.get(&self.handle) {
            Ok(c) => Ok(encode_conf_change(c)),
            Err(e) => Err(e),
        }
    }

    pub fn get_id(&self, store: &RefStore<ConfChange>) -> (r: Result<u64, ConfChangeError>)
        ensures
            store.live(&self.handle) ==> r == Ok::<u64, ConfChangeError>(self.current(store).id),
            !store.live(&self.handle) ==> r == stale::<u64>(),
    {
        match store.get(&self.handle) {
            Ok(c) => Ok(c.id),
            Err(e) => Err(e),
        }
    }

    pub fn set_id(&self, store: &mut RefStore<ConfChange>, v: u64) -> (r: Result<(), ConfChangeError>)
        ensures
            self.sets(old(store), final(store), ConfChangeView { id: v, ..self.current(old(store)) }, r),
    {
        if !store.is_live(&self.handle) {
            return Err(ConfChangeError::StaleReference);
        }
        let c = store.value_mut(&self.handle);
        c.id = v;
        Ok(())
    }

    pub fn clear_id(&self, store: &mut RefStore<ConfChange>) -> (r: Result<(), ConfChangeError>)
        ensures
            self.sets(old(store), final(store), ConfChangeView { id: 0, ..self.current(old(store)) }, r),
    {
        self.set_id(store, 0)
    }

    pub fn get_node_id(&self, store: &RefStore<ConfChange>) -> (r: Result<u64, ConfChangeError>)
        ensures
            store.live(&self.handle) ==> r == Ok::<u64, ConfChangeError>(self.current(store).node_id),
            !store.live(&self.handle) ==> r == stale::<u64>(),
    {
        match store.get(&self.handle) {
            Ok(c) => Ok(c.node_id),
            Err(e) => Err(e),
        }
    }

    pub fn set_node_id(&self, store: &mut RefStore<ConfChange>, v: u64) -> (r: Result<(), ConfChangeError>)
        ensures
            self.sets(
                old(store),
                final(store),
                ConfChangeView { node_id: v, ..self.current(old(store)) },
                r,
            ),
    {
        if !store.is_live(&self.handle) {
            return Err(ConfChangeError::StaleReference);
        }
        let c = store.value_mut(&self.handle);
        c.node_id = v;
        Ok(())
    }

    pub fn clear_node_id(&self, store: &mut RefStore<ConfChange>) -> (r: Result<(), ConfChangeError>)
        ensures
            self.sets(
                old(store),
                final(store),
                ConfChangeView { node_id: 0, ..self.current(old(store)) },
                r,
            ),
    {
        self.set_node_id(store, 0)
    }

    pub fn get_change_type(&self, store: &RefStore<ConfChange>) -> (r: Result<ConfChangeType, ConfChangeError>)
        ensures
            store.live(&self.handle) ==> r == Ok::<ConfChangeType, ConfChangeError>(
                self.current(store).change_type,
            ),
            !store.live(&self.handle) ==> r == stale::<ConfChangeType>(),
    {
        match store.get(&self.handle) {
            Ok(c) => Ok(c.change_type),
            Err(e) => Err(e),
        }
    }

    /// Sets the change type from its wire number. A number outside the
    /// closed set fails with `InvalidEnumValue`, and nothing changes.
    pub fn set_change_type(&self, store: &mut RefStore<ConfChange>, v: u64) -> (r: Result<(), ConfChangeError>)
        ensures
            old(store).live(&self.handle) && change_type_of(v as int) is Some ==> r is Ok
                && self.changed_to(
                old(store),
                final(store),
                ConfChangeView {
                    change_type: change_type_of(v as int)->Some_0,
                    ..self.current(old(store))
                },
            ),
            old(store).live(&self.handle) && change_type_of(v as int) is None ==> r == Err::<
                (),
                ConfChangeError,
            >(ConfChangeError::InvalidEnumValue) && final(store)@ == old(store)@,
            !old(store).live(&self.handle) ==> r == stale::<()>() && final(store)@ == old(store)@,
    {
        if !store.is_live(&self.handle) {
            return Err(ConfChangeError::StaleReference);
        }
        match ConfChangeType::from_code(v) {
            Some(t) => {
                let c = store.value_mut(&self.handle);
                c.change_type = t;
                Ok(())
            },
            None => Err(ConfChangeError::InvalidEnumValue),
        }
    }

    pub fn clear_change_type(&self, store: &mut RefStore<ConfChange>) -> (r: Result<(), ConfChangeError>)
        ensures
            self.sets(
                old(store),
                final(store),
                ConfChangeView { change_type: ConfChangeType::AddNode, ..self.current(old(store)) },
                r,
            ),
    {
        if !store.is_live(&self.handle) {
            return Err(ConfChangeError::StaleReference);
        }
        let c = store.value_mut(&self.handle);
        c.change_type = ConfChangeType::AddNode;
        Ok(())
    }

    /// A copy of the context bytes.
    pub fn get_context(&self, store: &RefStore<ConfChange>) -> (r: Result<Vec<u8>, ConfChangeError>)
        ensures
            store.live(&self.handle) ==> r is Ok && r->Ok_0@ == self.current(store).context,
            !store.live(&self.handle) ==> r is Err && r->Err_0 == ConfChangeError::StaleReference,
    {
        match store.get(&self.handle) {
            Ok(c) => Ok(crate::change::copy_bytes(&c.context)),
            Err(e) => Err(e),
        }
    }

    pub fn set_context(&self, store: &mut RefStore<ConfChange>, v: Vec<u8>) -> (r: Result<(), ConfChangeError>)
        ensures
            self.sets(
                old(store),
                final(store),
                ConfChangeView { context: v@, ..self.current(old(store)) },
                r,
            ),
    {
        if !store.is_live(&self.handle) {
            return Err(ConfChangeError::StaleReference);
        }
        let c = store.value_mut(&self.handle);
        c.context = v;
        Ok(())
    }

    pub fn clear_context(&self, store: &mut RefStore<ConfChange>) -> (r: Result<(), ConfChangeError>)
        ensures
            self.sets(
                old(store),
                final(store),
                ConfChangeView { context: seq![], ..self.current(old(store)) },
                r,
            ),
    {
        self.set_context(store, Vec::new())
    }

    /// Decodes `bytes` and merges the fields present there into the change;
    /// absent fields keep their values. Malformed bytes change nothing.
    pub fn merge_from_bytes(&self, store: &mut RefStore<ConfChange>, bytes: &[u8]) -> (r: Result<(), ConfChangeError>)
        ensures
            old(store).live(&self.handle) ==> match parse_conf_change(
                bytes@,
                0,
                bytes@.len() as int,
                self.current(old(store)),
            ) {
                Some(c) => r is Ok && self.changed_to(old(store), final(store), c),
                None => r == Err::<(), ConfChangeError>(ConfChangeError::DecodeError)
                    && self.changed_to(old(store), final(store), self.current(old(store))),
            },
            !old(store).live(&self.handle) ==> r == stale::<()>() && final(store)@ == old(store)@,
    {
        if !store.is_live(&self.handle) {
            return Err(ConfChangeError::StaleReference);
        }
        let c = store.value_mut(&self.handle);
        merge_conf_change(c, bytes)
    }

    /// This handle itself, while it is live.
    pub fn as_v1(&self, store: &RefStore<ConfChange>) -> (r: Result<Option<PyConfChangeRef>, ConfChangeError>)
        ensures
            store.live(&self.handle) ==> r == Ok::<Option<PyConfChangeRef>, ConfChangeError>(
                Some(*self),
            ),
            !store.live(&self.handle) ==> r == stale::<Option<PyConfChangeRef>>(),
    {
        if !store.is_live(&self.handle) {
            return Err(ConfChangeError::StaleReference);
        }
        Ok(Some(*self))
    }

    /// A new owner of the joint form of a copy of the change; the change
    /// itself is left as it is.
    pub fn as_v2(&self, store: &RefStore<ConfChange>, joint: &mut RefStore<ConfChangeV2>) -> (r: Result<PyConfChangeV2, ConfChangeError>)
        ensures
            store.live(&self.handle) ==> r is Ok && pushed_view(
                old(joint)@,
                final(joint)@,
                joint_of(self.current(store)),
            ) && r->Ok_0.owner.slot() == old(joint)@.len() && final(joint).owns(&r->Ok_0.owner),
            !store.live(&self.handle) ==> r is Err && r->Err_0 == ConfChangeError::StaleReference
                && final(joint)@ == old(joint)@,
    {
        let mut copy = match store.get(&self.handle) {
            Ok(c) => c.duplicate(),
            Err(e) => return Err(e),
        };
        let v2 = to_joint(&mut copy);
        Ok(PyConfChangeV2 { owner: joint.own(v2) })
    }

    /// A new owner of the joint form of the change. The context moves there
    /// and is left empty in the change.
    pub fn into_v2(&self, store: &mut RefStore<ConfChange>, joint: &mut RefStore<ConfChangeV2>) -> (r: Result<PyConfChangeV2, ConfChangeError>)
        ensures
            old(store).live(&self.handle) ==> r is Ok && pushed_view(
                old(joint)@,
                final(joint)@,
                joint_of(self.current(old(store))),
            ) && r->Ok_0.owner.slot() == old(joint)@.len() && final(joint).owns(&r->Ok_0.owner)
                && self.changed_to(
                old(store),
                final(store),
                ConfChangeView { context: seq![], ..self.current(old(store)) },
            ),
            !old(store).live(&self.handle) ==> r is Err && r->Err_0 == ConfChangeError::StaleReference
                && final(store)@ == old(store)@ && final(joint)@ == old(joint)@,
    {
        if !store.is_live(&self.handle) {
            return Err(ConfChangeError::StaleReference);
        }
        let c = store.value_mut(&self.handle);
        let v2 = to_joint(c);
        Ok(PyConfChangeV2 { owner: joint.own(v2) })
    }
}

impl PyConfChangeV2 {
    /// Owns the joint change decoded from `v`.
    pub fn decode(joint: &mut RefStore<ConfChangeV2>, v: &[u8]) -> (r: Result<PyConfChangeV2, ConfChangeError>)
        ensures
            match parse_conf_change_v2(v@, 0, v@.len() as int, default_conf_change_v2()) {
                Some(c) => r is Ok && pushed_view(old(joint)@, final(joint)@, c)
                    && r->Ok_0.owner.slot() == old(joint)@.len() && final(joint).owns(
                    &r->Ok_0.owner,
                ),
                None => r is Err && r->Err_0 == ConfChangeError::DecodeError && final(joint)@ == old(
                    joint,
                )@,
            },
    {
        match decode_conf_change_v2(v) {
            Ok(c) => Ok(PyConfChangeV2 { owner: joint.own(c) }),
            Err(e) => Err(e),
        }
    }

    /// A handle to the owned joint change.
    pub fn make_ref(&self, joint: &RefStore<ConfChangeV2>) -> (r: Handle)
        requires
            joint.owns(&self.owner),
        ensures
            r.slot() == self.owner.slot(),
            joint.live(&r),
    {
        joint.derive_handle(&self.owner)
    }

    /// The wire bytes of the owned joint change.
    pub fn encode(&self, joint: &RefStore<ConfChangeV2>) -> (r: Vec<u8>)
        requires
            joint.owns(&self.owner),
        ensures
            r@ == conf_change_v2_wire(joint.value_at(self.owner.slot())@),
    {
        encode_conf_change_v2(joint.owned(&self.owner))
    }

    /// A new owner of the single form of the joint change; fails with
    /// `UnsupportedConversion` unless it has exactly one entry and no
    /// transition mode.
    pub fn as_v1(&self, joint: &RefStore<ConfChangeV2>, store: &mut RefStore<ConfChange>) -> (r: Result<PyConfChange, ConfChangeError>)
        requires
            joint.owns(&self.owner),
        ensures
            match single_of(joint.value_at(self.owner.slot())@) {
                Some(c) => r is Ok && pushed_view(old(store)@, final(store)@, c)
                    && r->Ok_0.owner.slot() == old(store)@.len() && final(store).owns(
                    &r->Ok_0.owner,
                ),
                None => r is Err && r->Err_0 == ConfChangeError::UnsupportedConversion
                    && final(store)@ == old(store)@,
            },
    {
        match to_single(joint.owned(&self.owner)) {
            Ok(c) => Ok(PyConfChange { owner: store.own(c) }),
            Err(e) => Err(e),
        }
    }
}

} // verus!
