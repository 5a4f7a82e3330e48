//! Configuration-change messages: a single membership change and the joint
//! (multi-change) form, with their mathematical views.
use vstd::prelude::*;

verus! {

/// The kind of a membership change. The set is closed.
#[derive(Clone, Copy, Debug, PartialEq, Eq, Structural)]
pub enum ConfChangeType {
    AddNode,
    RemoveNode,
    AddLearnerNode,
    AddLearnerNodeV2,
}

/// How a joint configuration is left.
#[derive(Clone, Copy, Debug, PartialEq, Eq, Structural)]
pub enum ConfChangeTransition {
    Auto,
    Implicit,
    Explicit,
}

/// The wire number of a change type.
pub open spec fn change_type_code(t: ConfChangeType) -> nat {
    match t {
        ConfChangeType::AddNode => 0,
        ConfChangeType::RemoveNode => 1,
        ConfChangeType::AddLearnerNode => 2,
        ConfChangeType::AddLearnerNodeV2 => 3,
    }
}

/// The change type whose wire number is `v`, if there is one.
pub open spec fn change_type_of(v: int) -> Option<ConfChangeType> {
    if v == 0 {
        Some(ConfChangeType::AddNode)
    } else if v == 1 {
        Some(ConfChangeType::RemoveNode)
    } else if v == 2 {
        Some(ConfChangeType::AddLearnerNode)
    } else if v == 3 {
        Some(ConfChangeType::AddLearnerNodeV2)
    } else {
        None
    }
}

/// The wire number of a transition mode.
pub open spec fn transition_code(t: ConfChangeTransition) -> nat {
    match t {
        ConfChangeTransition::Auto => 0,
        ConfChangeTransition::Implicit => 1,
        ConfChangeTransition::Explicit => 2,
    }
}

/// The transition mode whose wire number is `v`, if there is one.
pub open spec fn transition_of(v: int) -> Option<ConfChangeTransition> {
    if v == 0 {
        Some(ConfChangeTransition::Auto)
    } else if v == 1 {
        Some(ConfChangeTransition::Implicit)
    } else if v == 2 {
        Some(ConfChangeTransition::Explicit)
    } else {
        None
    }
}

impl ConfChangeType {
    pub fn code(&self) -> (r: u64)
        ensures
            r as nat == change_type_code(*self),
    {
        match self {
            ConfChangeType::AddNode => 0,
            ConfChangeType::RemoveNode => 1,
            ConfChangeType::AddLearnerNode => 2,
            ConfChangeType::AddLearnerNodeV2 => 3,
        }
    }

    /// The change type with wire number `v`; `None` outside the closed set.
    pub fn from_code(v: u64) -> (r: Option<ConfChangeType>)
        ensures
            r == change_type_of(v as int),
    {
        if v == 0 {
            Some(ConfChangeType::AddNode)
        } else if v == 1 {
            Some(ConfChangeType::RemoveNode)
        } else if v == 2 {
            Some(ConfChangeType::AddLearnerNode)
        } else if v == 3 {
            Some(ConfChangeType::AddLearnerNodeV2)
        } else {
            None
        }
    }
}

impl ConfChangeTransition {
    pub fn code(&self) -> (r: u64)
        ensures
            r as nat == transition_code(*self),
    {
        match self {
            ConfChangeTransition::Auto => 0,
            ConfChangeTransition::Implicit => 1,
            ConfChangeTransition::Explicit => 2,
        }
    }

    /// The transition mode with wire number `v`; `None` outside the closed set.
    pub fn from_code(v: u64) -> (r: Option<ConfChangeTransition>)
        ensures
            r == transition_of(v as int),
    {
        if v == 0 {
            Some(ConfChangeTransition::Auto)
        } else if v == 1 {
            Some(ConfChangeTransition::Implicit)
        } else if v == 2 {
            Some(ConfChangeTransition::Explicit)
        } else {
            None
        }
    }
}

/// A single membership change.
#[derive(Clone, Debug, PartialEq, Eq)]
pub struct ConfChange {
    pub id: u64,
    pub node_id: u64,
    pub change_type: ConfChangeType,
    pub context: Vec<u8>,
}

/// The content of a `ConfChange`.
pub struct ConfChangeView {
    pub id: u64,
    pub node_id: u64,
    pub change_type: ConfChangeType,
    pub context: Seq<u8>,
}

impl View for ConfChange {
    type V = ConfChangeView;

    open spec fn view(&self) -> ConfChangeView {
        ConfChangeView {
            id: self.id,
            node_id: self.node_id,
            change_type: self.change_type,
            context: self.context@,
        }
    }
}

/// The default single change: every field zero or empty.
pub open spec fn default_conf_change() -> ConfChangeView {
    ConfChangeView { id: 0, node_id: 0, change_type: ConfChangeType::AddNode, context: seq![] }
}

/// One entry of a joint change.
#[derive(Clone, Copy, Debug, PartialEq, Eq, Structural)]
pub struct ConfChangeSingle {
    pub node_id: u64,
    pub change_type: ConfChangeType,
}

/// A joint change: an ordered list of membership changes.
#[derive(Clone, Debug, PartialEq, Eq)]
pub struct ConfChangeV2 {
    pub changes: Vec<ConfChangeSingle>,
    pub context: Vec<u8>,
    pub transition: Option<ConfChangeTransition>,
}

/// The content of a `ConfChangeV2`.
pub struct ConfChangeV2View {
    pub changes: Seq<ConfChangeSingle>,
    pub context: Seq<u8>,
    pub transition: Option<ConfChangeTransition>,
}

impl View for ConfChangeV2 {
    type V = ConfChangeV2View;

    open spec fn view(&self) -> ConfChangeV2View {
        ConfChangeV2View {
            changes: self.changes@,
            context: self.context@,
            transition: self.transition,
        }
    }
}

/// The default joint change: no entries, empty context, no transition mode.
pub open spec fn default_conf_change_v2() -> ConfChangeV2View {
    ConfChangeV2View { changes: seq![], context: seq![], transition: None }
}

/// The default single entry of a joint change.
pub open spec fn default_single() -> ConfChangeSingle {
    ConfChangeSingle { node_id: 0, change_type: ConfChangeType::AddNode }
}

impl ConfChange {
    /// A change with every field at its default.
    pub fn new() -> (r: ConfChange)
        ensures
            r@ == default_conf_change(),
    {
        ConfChange { id: 0, node_id: 0, change_type: ConfChangeType::AddNode, context: Vec::new() }
    }

    /// A copy of this change.
    pub fn duplicate(&self) -> (r: ConfChange)
        ensures
            r@ == self@,
    {
        ConfChange {
            id: self.id,
            node_id: self.node_id,
            change_type: self.change_type,
            context: copy_bytes(&self.context),
        }
    }

    /// Field-by-field structural equality.
    pub fn equals(&self, other: &ConfChange) -> (r: bool)
        ensures
            r == (self@ == other@),
    {
        self.id == other.id && self.node_id == other.node_id && self.change_type
            == other.change_type && bytes_equal(&self.context, &other.context)
    }
}

impl ConfChangeV2 {
    /// A joint change with every field at its default.
    pub fn new() -> (r: ConfChangeV2)
        ensures
            r@ == default_conf_change_v2(),
    {
        ConfChangeV2 { changes: Vec::new(), context: Vec::new(), transition: None }
    }

    /// Field-by-field structural equality.
    pub fn equals(&self, other: &ConfChangeV2) -> (r: bool)
        ensures
            r == (self@ == other@),
    {
        if self.transition != other.transition || !bytes_equal(&self.context, &other.context) {
            return false;
        }
        if self.changes.len() != other.changes.len() {
            return false;
        }
        let mut i: usize = 0;
        while i < self.changes.len()
            invariant
                self.changes@.len() == other.changes@.len(),
                0 <= i <= self.changes@.len(),
                forall|j: int| 0 <= j < i ==> self.changes@[j] == other.changes@[j],
            decreases self.changes@.len() - i,
        {
            if self.changes[i] != other.changes[i] {
                return false;
            }
            i = i + 1;
        }
        assert(self.changes@ =~= other.changes@);
        true
    }
}

/// A copy of a byte sequence.
pub fn copy_bytes(b: &Vec<u8>) -> (r: Vec<u8>)
    ensures
        r@ == b@,
{
    let mut r: Vec<u8> = Vec::with_capacity(b.len());
    let mut i: usize = 0;
    while i < b.len()
        invariant
            0 <= i <= b@.len(),
            r@ == b@.subrange(0, i as int),
        decreases b@.len() - i,
    {
        r.push(b[i]);
        i = i + 1;
        assert(r@ =~= b@.subrange(0, i as int));
    }
    assert(r@ =~= b@);
    r
}

/// Whether two byte sequences are equal.
pub fn bytes_equal(a: &Vec<u8>, b: &Vec<u8>) -> (r: bool)
    ensures
        r == (a@ == b@),
{
    if a.len() != b.len() {
        return false;
    }
    let mut i: usize = 0;
    while i < a.len()
        invariant
            a@.len() == b@.len(),
            0 <= i <= a@.len(),
            forall|j: int| 0 <= j < i ==> a@[j] == b@[j],
        decreases a@.len() - i,
    {
        if a[i] != b[i] {
            return false;
        }
        i = i + 1;
    }
    assert(a@ =~= b@);
    true
}

} // verus!
