//! Encoding and decoding of configuration changes, proved against the wire
//! format of `wire`.
use vstd::prelude::*;
use crate::change::{
    default_conf_change, default_conf_change_v2, default_single, ConfChange, ConfChangeSingle,
    ConfChangeTransition, ConfChangeType, ConfChangeV2,
};
use crate::error::ConfChangeError;
use crate::varint::{lemma_parse_varint_bounds, read_varint, write_varint};
use crate::wire::{
    changes_wire, conf_change_v2_wire, conf_change_wire, len_field, opt_bytes, parse_conf_change,
    parse_conf_change_v2, parse_key, parse_len, parse_single, single_wire, skip_field,
    step_conf_change, step_conf_change_v2, step_single,
};

verus! {

// ---------------------------------------------------------------- readers

fn read_key(s: &[u8], pos: usize, end: usize) -> (r: Option<(u64, u64, usize)>)
    ensures
        match parse_key(s@, pos as int, end as int) {
            Some((f, wt, p)) => r is Some && r->Some_0.0 as nat == f && r->Some_0.1 as nat == wt
                && r->Some_0.2 as int == p && pos < p <= end,
            None => r is None,
        },
{
    match read_varint(s, pos, end) {
        Some((k, p)) => {
            if k > 0xFFFF_FFFF || k / 8 == 0 {
                None
            } else {
                Some((k / 8, k % 8, p))
            }
        },
        None => None,
    }
}

fn read_len(s: &[u8], pos: usize, end: usize) -> (r: Option<(usize, usize)>)
    ensures
        match parse_len(s@, pos as int, end as int) {
            Some((a, b)) => r is Some && r->Some_0.0 as int == a && r->Some_0.1 as int == b && pos
                < a <= b <= end,
            None => r is None,
        },
{
    match read_varint(s, pos, end) {
        Some((n, p)) => {
            proof {
                lemma_parse_varint_bounds(s@, pos as int, end as int, 0);
            }
            if n > (end - p) as u64 {
                None
            } else {
                Some((p, p + n as usize))
            }
        },
        None => None,
    }
}

fn skip(s: &[u8], pos: usize, end: usize, wt: u64) -> (r: Option<usize>)
    ensures
        match skip_field(s@, pos as int, end as int, wt as nat) {
            Some(q) => r is Some && r->Some_0 as int == q && pos < q <= end,
            None => r is None,
        },
{
    if wt == 0 {
        match read_varint(s, pos, end) {
            Some((_, p)) => Some(p),
            None => None,
        }
    } else if wt == 1 {
        if pos <= end && end - pos >= 8 { Some(pos + 8) } else { None }
    } else if wt == 2 {
        match read_len(s, pos, end) {
            Some((_, q)) => Some(q),
            None => None,
        }
    } else if wt == 5 {
        if pos <= end && end - pos >= 4 { Some(pos + 4) } else { None }
    } else {
        None
    }
}

/// A copy of `s[a..b]`.
fn copy_range(s: &[u8], a: usize, b: usize) -> (r: Vec<u8>)
    requires
        a <= b <= s@.len(),
    ensures
        r@ == s@.subrange(a as int, b as int),
{
    let mut r: Vec<u8> = Vec::with_capacity(b - a);
    let mut i: usize = a;
    while i < b
        invariant
            a <= i <= b <= s@.len(),
            r@ == s@.subrange(a as int, i as int),
        decreases b - i,
    {
        r.push(s[i]);
        i = i + 1;
        assert(r@ =~= s@.subrange(a as int, i as int));
    }
    r
}

// ---------------------------------------------------------------- single change

fn apply_conf_change_field(s: &[u8], p: usize, end: usize, f: u64, wt: u64, acc: &mut ConfChange) -> (r: Option<usize>)
    ensures
        match step_conf_change(s@, p as int, end as int, f as nat, wt as nat, old(acc)@) {
            Some((q, next)) => r is Some && r->Some_0 as int == q && p < q <= end && final(acc)@
                == next,
            None => r is None,
        },
{
    if f == 1 || f == 2 || f == 3 {
        if wt != 0 {
            return None;
        }
        match read_varint(s, p, end) {
            Some((v, q)) => {
                if f == 1 {
                    acc.id = v;
                } else if f == 3 {
                    acc.node_id = v;
                } else {
                    match ConfChangeType::from_code(v) {
                        Some(t) => acc.change_type = t,
                        None => return None,
                    }
                }
                Some(q)
            },
            None => None,
        }
    } else if f == 4 {
        if wt != 2 {
            return None;
        }
        match read_len(s, p, end) {
            Some((a, b)) => {
                proof {
                    lemma_parse_varint_bounds(s@, p as int, end as int, 0);
                }
                acc.context = copy_range(s, a, b);
                Some(b)
            },
            None => None,
        }
    } else {
        skip(s, p, end, wt)
    }
}

/// Reads the fields of `s[start..end]` into `acc`: fields present overwrite,
/// absent fields are left as they are.
fn read_conf_change(s: &[u8], start: usize, end: usize, init: ConfChange) -> (r: Option<ConfChange>)
    ensures
        match parse_conf_change(s@, start as int, end as int, init@) {
            Some(c) => r is Some && r->Some_0@ == c,
            None => r is None,
        },
{
    let ghost goal = parse_conf_change(s@, start as int, end as int, init@);
    let mut acc = init;
    let mut pos: usize = start;
    while pos < end
        invariant
            goal == parse_conf_change(s@, start as int, end as int, init@),
            parse_conf_change(s@, pos as int, end as int, acc@) == goal,
        decreases end - pos,
    {
        match read_key(s, pos, end) {
            Some((f, wt, p)) => {
                match apply_conf_change_field(s, p, end, f, wt, &mut acc) {
                    Some(q) => {
                        pos = q;
                    },
                    None => return None,
                }
            },
            None => return None,
        }
    }
    Some(acc)
}

/// Encodes a single change.
pub fn encode_conf_change(c: &ConfChange) -> (r: Vec<u8>)
    ensures
        r@ == conf_change_wire(c@),
{
    let mut out: Vec<u8> = Vec::new();
    if c.id != 0 {
        out.push(0x08);
        write_varint(&mut out, c.id);
    }
    let code = c.change_type.code();
    if code != 0 {
        out.push(0x10);
        write_varint(&mut out, code);
    }
    if c.node_id != 0 {
        out.push(0x18);
        write_varint(&mut out, c.node_id);
    }
    write_bytes_field(&mut out, 0x22, &c.context);
    assert(out@ =~= conf_change_wire(c@));
    out
}

/// Appends a length-delimited field, left out when `b` is empty.
fn write_bytes_field(out: &mut Vec<u8>, key: u8, b: &Vec<u8>)
    ensures
        final(out)@ == old(out)@ + opt_bytes(key, b@),
{
    if b.len() != 0 {
        write_len_field(out, key, b);
    } else {
        assert(old(out)@ + opt_bytes(key, b@) =~= out@);
    }
}

/// Appends a length-delimited field.
fn write_len_field(out: &mut Vec<u8>, key: u8, b: &Vec<u8>)
    ensures
        final(out)@ == old(out)@ + len_field(key, b@),
{
    out.push(key);
    write_varint(out, b.len() as u64);
    let mut i: usize = 0;
    let ghost mid = out@;
    while i < b.len()
        invariant
            0 <= i <= b@.len(),
            out@ == mid + b@.subrange(0, i as int),
        decreases b@.len() - i,
    {
        out.push(b[i]);
        i = i + 1;
        assert(out@ =~= mid + b@.subrange(0, i as int));
    }
    assert(b@.subrange(0, b@.len() as int) =~= b@);
    assert(final(out)@ =~= old(out)@ + len_field(key, b@));
}


/// Decodes a single change; fields absent from `b` keep their defaults.
pub fn decode_conf_change(b: &[u8]) -> (r: Result<ConfChange, ConfChangeError>)
    ensures
        match parse_conf_change(b@, 0, b@.len() as int, default_conf_change()) {
            Some(c) => r is Ok && r->Ok_0@ == c,
            None => r == Err::<ConfChange, ConfChangeError>(ConfChangeError::DecodeError),
        },
{
    match read_conf_change(b, 0, b.len(), ConfChange::new()) {
        Some(c) => Ok(c),
        None => Err(ConfChangeError::DecodeError),
    }
}

/// Merges the fields present in `b` into `target`. On malformed bytes
/// `target` is left unchanged.
pub fn merge_conf_change(target: &mut ConfChange, b: &[u8]) -> (r: Result<(), ConfChangeError>)
    ensures
        match parse_conf_change(b@, 0, b@.len() as int, old(target)@) {
            Some(c) => r is Ok && final(target)@ == c,
            None => r == Err::<(), ConfChangeError>(ConfChangeError::DecodeError) && final(target)@
                == old(target)@,
        },
{
    match read_conf_change(b, 0, b.len(), target.duplicate()) {
        Some(c) => {
            *target = c;
            Ok(())
        },
        None => Err(ConfChangeError::DecodeError),
    }
}

// ---------------------------------------------------------------- joint change

fn apply_single_field(s: &[u8], p: usize, end: usize, f: u64, wt: u64, acc: &mut ConfChangeSingle) -> (r: Option<usize>)
    ensures
        match step_single(s@, p as int, end as int, f as nat, wt as nat, *old(acc)) {
            Some((q, next)) => r is Some && r->Some_0 as int == q && p < q <= end && *final(acc)
                == next,
            None => r is None,
        },
{
    if f == 1 || f == 2 {
        if wt != 0 {
            return None;
        }
        match read_varint(s, p, end) {
            Some((v, q)) => {
                if f == 2 {
                    acc.node_id = v;
                } else {
                    match ConfChangeType::from_code(v) {
                        Some(t) => acc.change_type = t,
                        None => return None,
                    }
                }
                Some(q)
            },
            None => None,
        }
    } else {
        skip(s, p, end, wt)
    }
}

fn read_single(s: &[u8], start: usize, end: usize) -> (r: Option<ConfChangeSingle>)
    ensures
        match parse_single(s@, start as int, end as int, default_single()) {
            Some(e) => r == Some(e),
            None => r is None,
        },
{
    let ghost goal = parse_single(s@, start as int, end as int, default_single());
    let mut acc = ConfChangeSingle { node_id: 0, change_type: ConfChangeType::AddNode };
    let mut pos: usize = start;
    while pos < end
        invariant
            goal == parse_single(s@, start as int, end as int, default_single()),
            parse_single(s@, pos as int, end as int, acc) == goal,
        decreases end - pos,
    {
        match read_key(s, pos, end) {
            Some((f, wt, p)) => {
                match apply_single_field(s, p, end, f, wt, &mut acc) {
                    Some(q) => {
                        pos = q;
                    },
                    None => return None,
                }
            },
            None => return None,
        }
    }
    Some(acc)
}

fn apply_conf_change_v2_field(s: &[u8], p: usize, end: usize, f: u64, wt: u64, acc: &mut ConfChangeV2) -> (r: Option<usize>)
    ensures
        match step_conf_change_v2(s@, p as int, end as int, f as nat, wt as nat, old(acc)@) {
            Some((q, next)) => r is Some && r->Some_0 as int == q && p < q <= end && final(acc)@
                == next,
            None => r is None,
        },
{
    if f == 1 || f == 2 {
        if wt != 2 {
            return None;
        }
        match read_len(s, p, end) {
            Some((a, b)) => {
                proof {
                    lemma_parse_varint_bounds(s@, p as int, end as int, 0);
                }
                if f == 2 {
                    acc.context = copy_range(s, a, b);
                } else {
                    match read_single(s, a, b) {
                        Some(e) => acc.changes.push(e),
                        None => return None,
                    }
                }
                Some(b)
            },
            None => None,
        }
    } else if f == 3 {
        if wt != 0 {
            return None;
        }
        match read_varint(s, p, end) {
            Some((v, q)) => {
                match ConfChangeTransition::from_code(v) {
                    Some(t) => {
                        acc.transition = Some(t);
                        Some(q)
                    },
                    None => None,
                }
            },
            None => None,
        }
    } else {
        skip(s, p, end, wt)
    }
}

fn read_conf_change_v2(s: &[u8], start: usize, end: usize, init: ConfChangeV2) -> (r: Option<ConfChangeV2>)
    ensures
        match parse_conf_change_v2(s@, start as int, end as int, init@) {
            Some(c) => r is Some && r->Some_0@ == c,
            None => r is None,
        },
{
    let ghost goal = parse_conf_change_v2(s@, start as int, end as int, init@);
    let mut acc = init;
    let mut pos: usize = start;
    while pos < end
        invariant
            goal == parse_conf_change_v2(s@, start as int, end as int, init@),
            parse_conf_change_v2(s@, pos as int, end as int, acc@) == goal,
        decreases end - pos,
    {
        match read_key(s, pos, end) {
            Some((f, wt, p)) => {
                match apply_conf_change_v2_field(s, p, end, f, wt, &mut acc) {
                    Some(q) => {
                        pos = q;
                    },
                    None => return None,
                }
            },
            None => return None,
        }
    }
    Some(acc)
}

/// Decodes a joint change; fields absent from `b` keep their defaults.
pub fn decode_conf_change_v2(b: &[u8]) -> (r: Result<ConfChangeV2, ConfChangeError>)
    ensures
        match parse_conf_change_v2(b@, 0, b@.len() as int, default_conf_change_v2()) {
            Some(c) => r is Ok && r->Ok_0@ == c,
            None => r == Err::<ConfChangeV2, ConfChangeError>(ConfChangeError::DecodeError),
        },
{
    match read_conf_change_v2(b, 0, b.len(), ConfChangeV2::new()) {
        Some(c) => Ok(c),
        None => Err(ConfChangeError::DecodeError),
    }
}

fn write_single(out: &mut Vec<u8>, e: &ConfChangeSingle)
    ensures
        final(out)@ == old(out)@ + len_field(0x0A, single_wire(*e)),
{
    let mut body: Vec<u8> = Vec::new();
    let code = e.change_type.code();
    if code != 0 {
        body.push(0x08);
        write_varint(&mut body, code);
    }
    if e.node_id != 0 {
        body.push(0x10);
        write_varint(&mut body, e.node_id);
    }
    assert(body@ =~= single_wire(*e));
    write_len_field(out, 0x0A, &body);
}

/// Encodes a joint change.
pub fn encode_conf_change_v2(c: &ConfChangeV2) -> (r: Vec<u8>)
    ensures
        r@ == conf_change_v2_wire(c@),
{
    let mut out: Vec<u8> = Vec::new();
    let mut i: usize = 0;
    while i < c.changes.len()
        invariant
            0 <= i <= c.changes@.len(),
            out@ == changes_wire(c.changes@.subrange(0, i as int)),
        decreases c.changes@.len() - i,
    {
        write_single(&mut out, &c.changes[i]);
        let ghost next = c.changes@.subrange(0, i + 1);
        assert(next.drop_last() =~= c.changes@.subrange(0, i as int));
        i = i + 1;
    }
    assert(c.changes@.subrange(0, c.changes@.len() as int) =~= c.changes@);
    write_bytes_field(&mut out, 0x12, &c.context);
    match c.transition {
        Some(t) => {
            out.push(0x18);
            write_varint(&mut out, t.code());
        },
        None => {},
    }
    assert(out@ =~= conf_change_v2_wire(c@));
    out
}

} // verus!
