//! Conversion between a single change and the joint form.
use vstd::prelude::*;
use crate::change::{
    copy_bytes, ConfChange, ConfChangeSingle, ConfChangeType, ConfChangeV2, ConfChangeV2View,
    ConfChangeView,
};
use crate::error::ConfChangeError;

verus! {

/// The joint form of a single change: one entry with its node id and change
/// type, and its context. The id has no place in it.
pub open spec fn joint_of(c: ConfChangeView) -> ConfChangeV2View {
    ConfChangeV2View {
        changes: seq![ConfChangeSingle { node_id: c.node_id, change_type: c.change_type }],
        context: c.context,
        transition: None,
    }
}

/// The single form of a joint change, defined only for exactly one entry and
/// no transition mode; the id is zero.
pub open spec fn single_of(j: ConfChangeV2View) -> Option<ConfChangeView> {
    if j.changes.len() == 1 && j.transition is None {
        Some(
            ConfChangeView {
                id: 0,
                node_id: j.changes[0].node_id,
                change_type: j.changes[0].change_type,
                context: j.context,
            },
        )
    } else {
        None
    }
}

/// Creates a joint-change entry.
pub fn new_conf_change_single(node_id: u64, typ: ConfChangeType) -> (r: ConfChangeSingle)
    ensures
        r == (ConfChangeSingle { node_id, change_type: typ }),
{
    ConfChangeSingle { node_id, change_type: typ }
}

/// Converts `cc` to the joint form. The context moves to the result and is
/// left empty in `cc`.
pub fn to_joint(cc: &mut ConfChange) -> (r: ConfChangeV2)
    ensures
        r@ == joint_of(old(cc)@),
        final(cc)@ == (ConfChangeView { context: seq![], ..old(cc)@ }),
{
    let mut changes: Vec<ConfChangeSingle> = Vec::new();
    changes.push(new_conf_change_single(cc.node_id, cc.change_type));
    let mut context: Vec<u8> = Vec::new();
    std::mem::swap(&mut context, &mut cc.context);
    let r = ConfChangeV2 { changes, context, transition: None };
    assert(r@.changes =~= joint_of(old(cc)@).changes);
    assert(cc@.context =~= seq![]);
    r
}

/// Converts `j` to a single change; a joint change with other than one
/// entry, or with a transition mode, fails with `UnsupportedConversion`.
pub fn to_single(j: &ConfChangeV2) -> (r: Result<ConfChange, ConfChangeError>)
    ensures
        match single_of(j@) {
            Some(c) => r is Ok && r->Ok_0@ == c,
            None => r == Err::<ConfChange, ConfChangeError>(
                ConfChangeError::UnsupportedConversion,
            ),
        },
{
    if j.changes.len() != 1 || j.transition.is_some() {
        return Err(ConfChangeError::UnsupportedConversion);
    }
    let e = j.changes[0];
    Ok(ConfChange { id: 0, node_id: e.node_id, change_type: e.change_type, context: copy_bytes(&j.context) })
}

/// Going to the joint form and back keeps the node id, change type and
/// context but loses the id; so it is not the identity when the id is not
/// zero.
pub proof fn lemma_conversion_asymmetry(x: ConfChangeView)
    ensures
        single_of(joint_of(x)) is Some,
        single_of(joint_of(x))->Some_0.node_id == x.node_id,
        single_of(joint_of(x))->Some_0.change_type == x.change_type,
        single_of(joint_of(x))->Some_0.context == x.context,
        single_of(joint_of(x))->Some_0.id == 0,
        x.id != 0 ==> single_of(joint_of(x)) != Some(x),
{
}

} // verus!
