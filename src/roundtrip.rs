//! Decoding what was encoded gives the value back.
use vstd::prelude::*;
use crate::change::{
    change_type_code, transition_code, ConfChangeTransition, ConfChangeType, default_conf_change, default_conf_change_v2, default_single, ConfChange,
    ConfChangeSingle, ConfChangeV2, ConfChangeV2View, ConfChangeView,
};
use crate::varint::{lemma_parse_varint, lemma_varint_nonempty, parse_varint, pow128, varint};
use crate::wire::{
    changes_wire, conf_change_v2_wire, conf_change_wire, len_field, opt_bytes, opt_varint,
    parse_conf_change, parse_conf_change_v2, parse_key, parse_len, parse_single, single_wire,
    transition_wire,
};

verus! {

proof fn lemma_pow128_10()
    ensures
        pow128(10) > u64::MAX,
{
    assert(pow128(0) == 1);
    assert(pow128(1) == 128);
    assert(pow128(2) == 16384);
    assert(pow128(3) == 2097152);
    assert(pow128(4) == 268435456);
    assert(pow128(5) == 34359738368);
    assert(pow128(6) == 4398046511104);
    assert(pow128(7) == 562949953421312);
    assert(pow128(8) == 72057594037927936);
    assert(pow128(9) == 9223372036854775808);
    assert(pow128(10) == 1180591620717411303424);
}

proof fn lemma_varint_len(x: nat, k: nat)
    requires
        k >= 1,
        x < pow128(k),
    ensures
        varint(x).len() <= k,
    decreases x,
{
    if x >= 128 {
        if k == 1 {
            assert(pow128(1) == 128 * pow128(0));
            assert(pow128(0) == 1);
        } else {
            assert(pow128(k) == 128 * pow128((k - 1) as nat));
            assert(x / 128 < pow128((k - 1) as nat)) by (nonlinear_arith)
                requires
                    x < 128 * pow128((k - 1) as nat),
            ;
            lemma_varint_len(x / 128, (k - 1) as nat);
        }
    }
}

/// A 64-bit value has a varint of at most ten bytes.
proof fn lemma_varint_len_u64(x: nat)
    requires
        x <= u64::MAX,
    ensures
        1 <= varint(x).len() <= 10,
{
    lemma_pow128_10();
    lemma_varint_len(x, 10);
    lemma_varint_nonempty(x);
}

proof fn lemma_read_varint_at(s: Seq<u8>, pos: int, end: int, x: nat)
    requires
        x <= u64::MAX,
        0 <= pos,
        pos + varint(x).len() <= end <= s.len(),
        s.subrange(pos, pos + varint(x).len()) == varint(x),
    ensures
        parse_varint(s, pos, end, 0) == Some((x, pos + varint(x).len())),
{
    lemma_pow128_10();
    lemma_parse_varint(s, pos, end, 0, x);
}

/// A one-byte key at `pos`.
proof fn lemma_key_at(s: Seq<u8>, pos: int, end: int, key: u8)
    requires
        8 <= key < 128,
        0 <= pos < end <= s.len(),
        s[pos] == key,
    ensures
        parse_key(s, pos, end) == Some(((key / 8) as nat, (key % 8) as nat, pos + 1)),
{
    assert(varint(key as nat) == seq![key]);
    assert(s.subrange(pos, pos + 1) =~= seq![key]);
    lemma_read_varint_at(s, pos, end, key as nat);
}

/// A key followed by a varint at `pos`.
proof fn lemma_varint_field_at(s: Seq<u8>, pos: int, end: int, key: u8, x: nat)
    requires
        8 <= key < 128,
        x <= u64::MAX,
        0 <= pos,
        pos + 1 + varint(x).len() <= end <= s.len(),
        s.subrange(pos, pos + 1 + varint(x).len()) == seq![key] + varint(x),
    ensures
        parse_key(s, pos, end) == Some(((key / 8) as nat, (key % 8) as nat, pos + 1)),
        parse_varint(s, pos + 1, end, 0) == Some((x, pos + 1 + varint(x).len())),
{
    let piece = seq![key] + varint(x);
    assert(s[pos] == piece[0]);
    lemma_key_at(s, pos, end, key);
    assert(s.subrange(pos + 1, pos + 1 + varint(x).len()) =~= varint(x)) by {
        assert forall|i: int| 0 <= i < varint(x).len() implies s.subrange(
            pos + 1,
            pos + 1 + varint(x).len(),
        )[i] == varint(x)[i] by {
            assert(s.subrange(pos, pos + 1 + varint(x).len())[i + 1] == piece[i + 1]);
        }
    }
    lemma_read_varint_at(s, pos + 1, end, x);
}

/// A length-delimited field at `pos`.
proof fn lemma_len_field_at(s: Seq<u8>, pos: int, end: int, key: u8, b: Seq<u8>)
    requires
        8 <= key < 128,
        b.len() <= u64::MAX,
        0 <= pos,
        pos + len_field(key, b).len() <= end <= s.len(),
        s.subrange(pos, pos + len_field(key, b).len()) == len_field(key, b),
    ensures
        parse_key(s, pos, end) == Some(((key / 8) as nat, (key % 8) as nat, pos + 1)),
        parse_len(s, pos + 1, end) == Some(
            (pos + 1 + varint(b.len()).len(), pos + len_field(key, b).len()),
        ),
        s.subrange(pos + 1 + varint(b.len()).len(), pos + len_field(key, b).len()) == b,
{
    let piece = len_field(key, b);
    let n = varint(b.len());
    let a = pos + 1 + n.len();
    assert(s.subrange(pos, pos + 1 + n.len()) =~= seq![key] + n) by {
        assert forall|i: int| 0 <= i < 1 + n.len() implies s.subrange(pos, pos + 1 + n.len())[i]
            == (seq![key] + n)[i] by {
            assert(s.subrange(pos, pos + piece.len())[i] == piece[i]);
        }
    }
    lemma_varint_field_at(s, pos, end, key, b.len());
    assert(s.subrange(a, a + b.len()) =~= b) by {
        assert forall|i: int| 0 <= i < b.len() implies s.subrange(a, a + b.len())[i] == b[i] by {
            assert(s.subrange(pos, pos + piece.len())[1 + n.len() + i] == piece[1 + n.len() + i]);
        }
    }
}

/// The piece `p` of `s` that starts at `pos`, taken from a larger piece.
proof fn lemma_sub_piece(s: Seq<u8>, pos: int, whole: Seq<u8>, i: int, j: int)
    requires
        0 <= pos,
        pos + whole.len() <= s.len(),
        s.subrange(pos, pos + whole.len()) == whole,
        0 <= i <= j <= whole.len(),
    ensures
        s.subrange(pos + i, pos + j) == whole.subrange(i, j),
{
    assert forall|k: int| 0 <= k < j - i implies s.subrange(pos + i, pos + j)[k] == whole.subrange(
        i,
        j,
    )[k] by {
        assert(s.subrange(pos, pos + whole.len())[i + k] == whole[i + k]);
    }
    assert(s.subrange(pos + i, pos + j) =~= whole.subrange(i, j));
}

proof fn lemma_step_id(s: Seq<u8>, pos: int, end: int, acc: ConfChangeView, x: u64)
    requires
        0 <= pos,
        pos + opt_varint(0x08, x as nat).len() <= end <= s.len(),
        s.subrange(pos, pos + opt_varint(0x08, x as nat).len()) == opt_varint(0x08, x as nat),
        x == 0 ==> acc.id == 0,
    ensures
        parse_conf_change(s, pos, end, acc) == parse_conf_change(
            s,
            pos + opt_varint(0x08, x as nat).len(),
            end,
            ConfChangeView { id: x, ..acc },
        ),
{
    if x != 0 {
        lemma_varint_len_u64(x as nat);
        lemma_varint_field_at(s, pos, end, 0x08, x as nat);
    } else {
        assert(ConfChangeView { id: x, ..acc } == acc);
    }
}

proof fn lemma_step_node_id(s: Seq<u8>, pos: int, end: int, acc: ConfChangeView, x: u64)
    requires
        0 <= pos,
        pos + opt_varint(0x18, x as nat).len() <= end <= s.len(),
        s.subrange(pos, pos + opt_varint(0x18, x as nat).len()) == opt_varint(0x18, x as nat),
        x == 0 ==> acc.node_id == 0,
    ensures
        parse_conf_change(s, pos, end, acc) == parse_conf_change(
            s,
            pos + opt_varint(0x18, x as nat).len(),
            end,
            ConfChangeView { node_id: x, ..acc },
        ),
{
    if x != 0 {
        lemma_varint_len_u64(x as nat);
        lemma_varint_field_at(s, pos, end, 0x18, x as nat);
    } else {
        assert(ConfChangeView { node_id: x, ..acc } == acc);
    }
}

proof fn lemma_step_change_type(s: Seq<u8>, pos: int, end: int, acc: ConfChangeView, t: ConfChangeType)
    requires
        0 <= pos,
        pos + opt_varint(0x10, change_type_code(t)).len() <= end <= s.len(),
        s.subrange(pos, pos + opt_varint(0x10, change_type_code(t)).len()) == opt_varint(
            0x10,
            change_type_code(t),
        ),
        change_type_code(t) == 0 ==> acc.change_type == ConfChangeType::AddNode,
    ensures
        parse_conf_change(s, pos, end, acc) == parse_conf_change(
            s,
            pos + opt_varint(0x10, change_type_code(t)).len(),
            end,
            ConfChangeView { change_type: t, ..acc },
        ),
{
    if change_type_code(t) != 0 {
        lemma_varint_len_u64(change_type_code(t));
        lemma_varint_field_at(s, pos, end, 0x10, change_type_code(t));
    } else {
        assert(ConfChangeView { change_type: t, ..acc } == acc);
    }
}

proof fn lemma_step_context(s: Seq<u8>, pos: int, end: int, acc: ConfChangeView, b: Seq<u8>)
    requires
        b.len() <= u64::MAX,
        0 <= pos,
        pos + opt_bytes(0x22, b).len() <= end <= s.len(),
        s.subrange(pos, pos + opt_bytes(0x22, b).len()) == opt_bytes(0x22, b),
        b.len() == 0 ==> acc.context.len() == 0,
    ensures
        parse_conf_change(s, pos, end, acc) == parse_conf_change(
            s,
            pos + opt_bytes(0x22, b).len(),
            end,
            ConfChangeView { context: b, ..acc },
        ),
{
    if b.len() != 0 {
        lemma_len_field_at(s, pos, end, 0x22, b);
    } else {
        assert(acc.context =~= b);
        assert(ConfChangeView { context: b, ..acc } == acc);
    }
}

proof fn lemma_conf_change_at(s: Seq<u8>, c: ConfChangeView)
    requires
        s == conf_change_wire(c),
        c.context.len() <= u64::MAX,
    ensures
        parse_conf_change(s, 0, s.len() as int, default_conf_change()) == Some(c),
{
    let end = s.len() as int;
    let pa = opt_varint(0x08, c.id as nat);
    let pb = opt_varint(0x10, change_type_code(c.change_type));
    let pc = opt_varint(0x18, c.node_id as nat);
    let pd = opt_bytes(0x22, c.context);
    assert(s =~= pa + pb + pc + pd);
    let acc0 = default_conf_change();
    let acc1 = ConfChangeView { id: c.id, ..acc0 };
    let acc2 = ConfChangeView { change_type: c.change_type, ..acc1 };
    let acc3 = ConfChangeView { node_id: c.node_id, ..acc2 };
    let at1 = pa.len() as int;
    let at2 = at1 + pb.len();
    let at3 = at2 + pc.len();
    assert(s.subrange(0, at1) =~= pa);
    lemma_step_id(s, 0, end, acc0, c.id);
    assert(s.subrange(at1, at2) =~= pb);
    lemma_step_change_type(s, at1, end, acc1, c.change_type);
    assert(s.subrange(at2, at3) =~= pc);
    lemma_step_node_id(s, at2, end, acc2, c.node_id);
    assert(s.subrange(at3, end) =~= pd);
    lemma_step_context(s, at3, end, acc3, c.context);
    assert(ConfChangeView { context: c.context, ..acc3 } == c);
}

proof fn lemma_single_at(s: Seq<u8>, pos: int, end: int, e: ConfChangeSingle)
    requires
        0 <= pos <= end <= s.len(),
        s.subrange(pos, end) == single_wire(e),
    ensures
        parse_single(s, pos, end, default_single()) == Some(e),
{
    let pa = opt_varint(0x08, change_type_code(e.change_type));
    let pb = opt_varint(0x10, e.node_id as nat);
    let whole = single_wire(e);
    assert(whole =~= pa + pb);
    let acc0 = default_single();
    let acc1 = ConfChangeSingle { change_type: e.change_type, ..acc0 };
    let at1 = pos + pa.len();
    if change_type_code(e.change_type) != 0 {
        lemma_varint_len_u64(change_type_code(e.change_type));
        lemma_sub_piece(s, pos, whole, 0, pa.len() as int);
        assert(whole.subrange(0, pa.len() as int) =~= pa);
        lemma_varint_field_at(s, pos, end, 0x08, change_type_code(e.change_type));
    }
    assert(parse_single(s, pos, end, acc0) == parse_single(s, at1, end, acc1));
    if e.node_id != 0 {
        lemma_varint_len_u64(e.node_id as nat);
        lemma_sub_piece(s, pos, whole, pa.len() as int, whole.len() as int);
        assert(whole.subrange(pa.len() as int, whole.len() as int) =~= pb);
        lemma_varint_field_at(s, at1, end, 0x10, e.node_id as nat);
        assert(parse_single(s, at1, end, acc1) == parse_single(s, end, end, e));
    } else {
        assert(acc1 == e);
    }
}

proof fn lemma_single_wire_len(e: ConfChangeSingle)
    ensures
        single_wire(e).len() <= 22,
{
    lemma_varint_len_u64(change_type_code(e.change_type));
    lemma_varint_len_u64(e.node_id as nat);
}

proof fn lemma_changes_at(s: Seq<u8>, pos: int, end: int, acc: ConfChangeV2View, cs: Seq<ConfChangeSingle>)
    requires
        0 <= pos,
        pos + changes_wire(cs).len() <= end <= s.len(),
        s.subrange(pos, pos + changes_wire(cs).len()) == changes_wire(cs),
    ensures
        parse_conf_change_v2(s, pos, end, acc) == parse_conf_change_v2(
            s,
            pos + changes_wire(cs).len(),
            end,
            ConfChangeV2View { changes: acc.changes + cs, ..acc },
        ),
    decreases cs.len(),
{
    if cs.len() == 0 {
        assert(acc.changes + cs =~= acc.changes);
        assert(ConfChangeV2View { changes: acc.changes + cs, ..acc } == acc);
    } else {
        let init = cs.drop_last();
        let e = cs.last();
        let whole = changes_wire(cs);
        let head = changes_wire(init);
        let piece = len_field(0x0A, single_wire(e));
        assert(whole == head + piece);
        lemma_sub_piece(s, pos, whole, 0, head.len() as int);
        assert(whole.subrange(0, head.len() as int) =~= head);
        lemma_changes_at(s, pos, end, acc, init);
        let mid = ConfChangeV2View { changes: acc.changes + init, ..acc };
        let p = pos + head.len();
        lemma_sub_piece(s, pos, whole, head.len() as int, whole.len() as int);
        assert(whole.subrange(head.len() as int, whole.len() as int) =~= piece);
        lemma_single_wire_len(e);
        lemma_len_field_at(s, p, end, 0x0A, single_wire(e));
        let a = p + 1 + varint(single_wire(e).len()).len();
        let b = p + piece.len();
        lemma_single_at(s, a, b, e);
        assert(mid.changes.push(e) =~= acc.changes + cs);
        assert(parse_conf_change_v2(s, p, end, mid) == parse_conf_change_v2(
            s,
            b,
            end,
            ConfChangeV2View { changes: acc.changes + cs, ..acc },
        ));
    }
}

proof fn lemma_step_v2_context(s: Seq<u8>, pos: int, end: int, acc: ConfChangeV2View, b: Seq<u8>)
    requires
        b.len() <= u64::MAX,
        0 <= pos,
        pos + opt_bytes(0x12, b).len() <= end <= s.len(),
        s.subrange(pos, pos + opt_bytes(0x12, b).len()) == opt_bytes(0x12, b),
        b.len() == 0 ==> acc.context.len() == 0,
    ensures
        parse_conf_change_v2(s, pos, end, acc) == parse_conf_change_v2(
            s,
            pos + opt_bytes(0x12, b).len(),
            end,
            ConfChangeV2View { context: b, ..acc },
        ),
{
    if b.len() != 0 {
        lemma_len_field_at(s, pos, end, 0x12, b);
    } else {
        assert(acc.context =~= b);
        assert(ConfChangeV2View { context: b, ..acc } == acc);
    }
}

proof fn lemma_step_transition(
    s: Seq<u8>,
    pos: int,
    end: int,
    acc: ConfChangeV2View,
    t: Option<ConfChangeTransition>,
)
    requires
        0 <= pos,
        pos + transition_wire(t).len() <= end <= s.len(),
        s.subrange(pos, pos + transition_wire(t).len()) == transition_wire(t),
        acc.transition is None,
    ensures
        parse_conf_change_v2(s, pos, end, acc) == parse_conf_change_v2(
            s,
            pos + transition_wire(t).len(),
            end,
            ConfChangeV2View { transition: t, ..acc },
        ),
{
    match t {
        Some(m) => {
            let code = transition_code(m);
            lemma_varint_len_u64(code);
            lemma_varint_field_at(s, pos, end, 0x18, code);
        },
        None => {
            assert(ConfChangeV2View { transition: t, ..acc } == acc);
        },
    }
}

proof fn lemma_conf_change_v2_at(s: Seq<u8>, c: ConfChangeV2View)
    requires
        s == conf_change_v2_wire(c),
        c.context.len() <= u64::MAX,
    ensures
        parse_conf_change_v2(s, 0, s.len() as int, default_conf_change_v2()) == Some(c),
{
    let end = s.len() as int;
    let pa = changes_wire(c.changes);
    let pb = opt_bytes(0x12, c.context);
    let pc = transition_wire(c.transition);
    assert(s =~= pa + pb + pc);
    let acc0 = default_conf_change_v2();
    let acc1 = ConfChangeV2View { changes: acc0.changes + c.changes, ..acc0 };
    let acc2 = ConfChangeV2View { context: c.context, ..acc1 };
    let at1 = pa.len() as int;
    let at2 = at1 + pb.len();
    assert(s.subrange(0, at1) =~= pa);
    lemma_changes_at(s, 0, end, acc0, c.changes);
    assert(s.subrange(at1, at2) =~= pb);
    lemma_step_v2_context(s, at1, end, acc1, c.context);
    assert(s.subrange(at2, end) =~= pc);
    lemma_step_transition(s, at2, end, acc2, c.transition);
    assert(acc0.changes + c.changes =~= c.changes);
    assert(ConfChangeV2View { transition: c.transition, ..acc2 } == c);
}

/// Decoding the encoding of a single change gives the same change back.
pub proof fn lemma_round_trip_conf_change(v: ConfChange)
    ensures
        parse_conf_change(
            conf_change_wire(v@),
            0,
            conf_change_wire(v@).len() as int,
            default_conf_change(),
        ) == Some(v@),
{
    assert(v.context@.len() == v.context.len());
    lemma_conf_change_at(conf_change_wire(v@), v@);
}

/// Decoding the encoding of a joint change gives the same change back.
pub proof fn lemma_round_trip_conf_change_v2(v: ConfChangeV2)
    ensures
        parse_conf_change_v2(
            conf_change_v2_wire(v@),
            0,
            conf_change_v2_wire(v@).len() as int,
            default_conf_change_v2(),
        ) == Some(v@),
{
    assert(v.context@.len() == v.context.len());
    lemma_conf_change_v2_at(conf_change_v2_wire(v@), v@);
}

} // verus!
