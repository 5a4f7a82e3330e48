//! The binary wire format of configuration changes: each field is a key
//! (field number and wire type) followed by its payload. Fields at their
//! default value are left out; unknown fields are skipped on reading.
use vstd::prelude::*;
use crate::change::{
    change_type_code, change_type_of, default_single, transition_code, transition_of,
    ConfChangeSingle, ConfChangeTransition, ConfChangeV2View, ConfChangeView,
};
use crate::varint::{parse_varint, varint};

verus! {

// ---------------------------------------------------------------- encoding

/// A varint field, left out when the value is zero.
pub open spec fn opt_varint(key: u8, x: nat) -> Seq<u8> {
    if x == 0 {
        seq![]
    } else {
        seq![key] + varint(x)
    }
}

/// A length-delimited field.
pub open spec fn len_field(key: u8, b: Seq<u8>) -> Seq<u8> {
    seq![key] + varint(b.len()) + b
}

/// A length-delimited field, left out when empty.
pub open spec fn opt_bytes(key: u8, b: Seq<u8>) -> Seq<u8> {
    if b.len() == 0 {
        seq![]
    } else {
        len_field(key, b)
    }
}

/// Wire bytes of a single change: id (1), change type (2), node id (3),
/// context (4).
pub open spec fn conf_change_wire(c: ConfChangeView) -> Seq<u8> {
    opt_varint(0x08, c.id as nat) + opt_varint(0x10, change_type_code(c.change_type)) + opt_varint(
        0x18,
        c.node_id as nat,
    ) + opt_bytes(0x22, c.context)
}

/// Wire bytes of one entry of a joint change: change type (1), node id (2).
pub open spec fn single_wire(e: ConfChangeSingle) -> Seq<u8> {
    opt_varint(0x08, change_type_code(e.change_type)) + opt_varint(0x10, e.node_id as nat)
}

/// The entries of a joint change, each as a field 1.
pub open spec fn changes_wire(cs: Seq<ConfChangeSingle>) -> Seq<u8>
    decreases cs.len(),
{
    if cs.len() == 0 {
        seq![]
    } else {
        changes_wire(cs.drop_last()) + len_field(0x0A, single_wire(cs.last()))
    }
}

/// The transition mode as field 3, present whenever it is set.
pub open spec fn transition_wire(t: Option<ConfChangeTransition>) -> Seq<u8> {
    match t {
        Some(m) => seq![0x18u8] + varint(transition_code(m)),
        None => seq![],
    }
}

/// Wire bytes of a joint change: changes (1), context (2), transition (3).
pub open spec fn conf_change_v2_wire(c: ConfChangeV2View) -> Seq<u8> {
    changes_wire(c.changes) + opt_bytes(0x12, c.context) + transition_wire(c.transition)
}

// ---------------------------------------------------------------- decoding

/// Reads a key: field number and wire type, and the position after it.
/// Field number zero and keys beyond 32 bits are malformed.
pub open spec fn parse_key(s: Seq<u8>, pos: int, end: int) -> Option<(nat, nat, int)> {
    match parse_varint(s, pos, end, 0) {
        Some((k, p)) => if k > u32::MAX || k / 8 == 0 {
            None
        } else {
            Some((k / 8, k % 8, p))
        },
        None => None,
    }
}

/// Reads a length prefix: the bounds of the payload after it.
pub open spec fn parse_len(s: Seq<u8>, pos: int, end: int) -> Option<(int, int)> {
    match parse_varint(s, pos, end, 0) {
        Some((n, p)) => if p + n <= end {
            Some((p, p + n))
        } else {
            None
        },
        None => None,
    }
}

/// Skips the payload of an unknown field of wire type `wt`.
pub open spec fn skip_field(s: Seq<u8>, pos: int, end: int, wt: nat) -> Option<int> {
    if wt == 0 {
        match parse_varint(s, pos, end, 0) {
            Some((_, p)) => Some(p),
            None => None,
        }
    } else if wt == 1 {
        if pos + 8 <= end { Some(pos + 8) } else { None }
    } else if wt == 2 {
        match parse_len(s, pos, end) {
            Some((_, q)) => Some(q),
            None => None,
        }
    } else if wt == 5 {
        if pos + 4 <= end { Some(pos + 4) } else { None }
    } else {
        None
    }
}

/// Applies one field of a single change whose key (`f`, `wt`) ends at `p`.
pub open spec fn step_conf_change(
    s: Seq<u8>,
    p: int,
    end: int,
    f: nat,
    wt: nat,
    acc: ConfChangeView,
) -> Option<(int, ConfChangeView)> {
    if f == 1 || f == 2 || f == 3 {
        if wt != 0 {
            None
        } else {
            match parse_varint(s, p, end, 0) {
                Some((v, q)) => if f == 1 {
                    Some((q, ConfChangeView { id: v as u64, ..acc }))
                } else if f == 3 {
                    Some((q, ConfChangeView { node_id: v as u64, ..acc }))
                } else {
                    match change_type_of(v as int) {
                        Some(t) => Some((q, ConfChangeView { change_type: t, ..acc })),
                        None => None,
                    }
                },
                None => None,
            }
        }
    } else if f == 4 {
        if wt != 2 {
            None
        } else {
            match parse_len(s, p, end) {
                Some((a, b)) => Some((b, ConfChangeView { context: s.subrange(a, b), ..acc })),
                None => None,
            }
        }
    } else {
        match skip_field(s, p, end, wt) {
            Some(q) => Some((q, acc)),
            None => None,
        }
    }
}

/// Reads the fields of a single change in `s[pos..end]` into `acc`.
pub open spec fn parse_conf_change(s: Seq<u8>, pos: int, end: int, acc: ConfChangeView) -> Option<
    ConfChangeView,
>
    decreases end - pos,
{
    if pos >= end {
        Some(acc)
    } else {
        match parse_key(s, pos, end) {
            Some((f, wt, p)) => match step_conf_change(s, p, end, f, wt, acc) {
                Some((q, next)) => if pos < q <= end {
                    parse_conf_change(s, q, end, next)
                } else {
                    None
                },
                None => None,
            },
            None => None,
        }
    }
}

/// Applies one field of a joint-change entry whose key ends at `p`.
pub open spec fn step_single(s: Seq<u8>, p: int, end: int, f: nat, wt: nat, acc: ConfChangeSingle) -> Option<
    (int, ConfChangeSingle),
> {
    if f == 1 || f == 2 {
        if wt != 0 {
            None
        } else {
            match parse_varint(s, p, end, 0) {
                Some((v, q)) => if f == 2 {
                    Some((q, ConfChangeSingle { node_id: v as u64, ..acc }))
                } else {
                    match change_type_of(v as int) {
                        Some(t) => Some((q, ConfChangeSingle { change_type: t, ..acc })),
                        None => None,
                    }
                },
                None => None,
            }
        }
    } else {
        match skip_field(s, p, end, wt) {
            Some(q) => Some((q, acc)),
            None => None,
        }
    }
}

/// Reads the fields of a joint-change entry in `s[pos..end]` into `acc`.
pub open spec fn parse_single(s: Seq<u8>, pos: int, end: int, acc: ConfChangeSingle) -> Option<
    ConfChangeSingle,
>
    decreases end - pos,
{
    if pos >= end {
        Some(acc)
    } else {
        match parse_key(s, pos, end) {
            Some((f, wt, p)) => match step_single(s, p, end, f, wt, acc) {
                Some((q, next)) => if pos < q <= end {
                    parse_single(s, q, end, next)
                } else {
                    None
                },
                None => None,
            },
            None => None,
        }
    }
}

/// Applies one field of a joint change whose key ends at `p`.
pub open spec fn step_conf_change_v2(
    s: Seq<u8>,
    p: int,
    end: int,
    f: nat,
    wt: nat,
    acc: ConfChangeV2View,
) -> Option<(int, ConfChangeV2View)> {
    if f == 1 || f == 2 {
        if wt != 2 {
            None
        } else {
            match parse_len(s, p, end) {
                Some((a, b)) => if f == 2 {
                    Some((b, ConfChangeV2View { context: s.subrange(a, b), ..acc }))
                } else {
                    match parse_single(s, a, b, default_single()) {
                        Some(e) => Some((b, ConfChangeV2View { changes: acc.changes.push(e), ..acc })),
                        None => None,
                    }
                },
                None => None,
            }
        }
    } else if f == 3 {
        if wt != 0 {
            None
        } else {
            match parse_varint(s, p, end, 0) {
                Some((v, q)) => match transition_of(v as int) {
                    Some(t) => Some((q, ConfChangeV2View { transition: Some(t), ..acc })),
                    None => None,
                },
                None => None,
            }
        }
    } else {
        match skip_field(s, p, end, wt) {
            Some(q) => Some((q, acc)),
            None => None,
        }
    }
}

/// Reads the fields of a joint change in `s[pos..end]` into `acc`.
pub open spec fn parse_conf_change_v2(s: Seq<u8>, pos: int, end: int, acc: ConfChangeV2View) -> Option<
    ConfChangeV2View,
>
    decreases end - pos,
{
    if pos >= end {
        Some(acc)
    } else {
        match parse_key(s, pos, end) {
            Some((f, wt, p)) => match step_conf_change_v2(s, p, end, f, wt, acc) {
                Some((q, next)) => if pos < q <= end {
                    parse_conf_change_v2(s, q, end, next)
                } else {
                    None
                },
                None => None,
            },
            None => None,
        }
    }
}

} // verus!
