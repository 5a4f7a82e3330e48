//! Base-128 variable-length integers, least significant group first.
use vstd::prelude::*;

verus! {

/// The varint encoding of `x`.
pub open spec fn varint(x: nat) -> Seq<u8>
    decreases x,
{
    if x < 128 {
        seq![x as u8]
    } else {
        seq![(x % 128 + 128) as u8] + varint(x / 128)
    }
}

/// Reads a varint at `pos`, not past `end`, where `n` bytes of it were read
/// already. A varint has at most ten bytes and must fit in 64 bits. Gives the
/// value and the position after it.
pub open spec fn parse_varint(s: Seq<u8>, pos: int, end: int, n: nat) -> Option<(nat, int)>
    decreases end - pos,
{
    if pos < 0 || pos >= end || end > s.len() || n >= 10 {
        None
    } else if s[pos] < 128 {
        Some((s[pos] as nat, pos + 1))
    } else {
        match parse_varint(s, pos + 1, end, n + 1) {
            Some((v, p)) => {
                let x = (s[pos] - 128) + 128 * v;
                if x <= u64::MAX {
                    Some((x as nat, p))
                } else {
                    None
                }
            },
            None => None,
        }
    }
}

pub open spec fn pow128(k: nat) -> nat
    decreases k,
{
    if k == 0 {
        1
    } else {
        128 * pow128((k - 1) as nat)
    }
}

pub proof fn lemma_varint_nonempty(x: nat)
    ensures
        varint(x).len() >= 1,
    decreases x,
{
    if x >= 128 {
        lemma_varint_nonempty(x / 128);
    }
}

/// A parsed varint fits in 64 bits and lies within the bounds.
pub proof fn lemma_parse_varint_bounds(s: Seq<u8>, pos: int, end: int, n: nat)
    requires
        parse_varint(s, pos, end, n) is Some,
    ensures
        ({
            let (v, p) = parse_varint(s, pos, end, n)->Some_0;
            &&& v <= u64::MAX
            &&& pos < p <= end
            &&& end <= s.len()
            &&& 0 <= pos
        }),
    decreases end - pos,
{
    if s[pos] >= 128 {
        lemma_parse_varint_bounds(s, pos + 1, end, n + 1);
    }
}

/// Reading back the encoding of `x` gives `x` and the position after it.
pub proof fn lemma_parse_varint(s: Seq<u8>, pos: int, end: int, n: nat, x: nat)
    requires
        n < 10,
        x < pow128((10 - n) as nat),
        x <= u64::MAX,
        0 <= pos,
        pos + varint(x).len() <= end <= s.len(),
        s.subrange(pos, pos + varint(x).len()) == varint(x),
    ensures
        parse_varint(s, pos, end, n) == Some((x, pos + varint(x).len())),
    decreases x,
{
    let e = varint(x);
    assert(s[pos] == s.subrange(pos, pos + e.len())[0]);
    if x < 128 {
    } else {
        let y = x / 128;
        let t = varint(y);
        assert(e == seq![(x % 128 + 128) as u8] + t);
        lemma_varint_nonempty(y);
        assert(pow128((10 - n) as nat) == 128 * pow128((10 - (n + 1)) as nat));
        if n + 1 >= 10 {
            assert(pow128(0) == 1);
            assert(false);
        }
        assert(y < pow128((10 - (n + 1)) as nat)) by (nonlinear_arith)
            requires
                y == x / 128,
                x < 128 * pow128((10 - (n + 1)) as nat),
        ;
        assert(s.subrange(pos + 1, pos + 1 + t.len()) =~= t) by {
            assert forall|i: int| 0 <= i < t.len() implies s.subrange(pos + 1, pos + 1 + t.len())[i]
                == t[i] by {
                assert(s.subrange(pos, pos + e.len())[i + 1] == e[i + 1]);
            }
        }
        lemma_parse_varint(s, pos + 1, end, n + 1, y);
        assert(x % 128 + 128 * y == x);
    }
}

/// Appends the varint encoding of `x`.
pub fn write_varint(out: &mut Vec<u8>, x: u64)
    ensures
        final(out)@ == old(out)@ + varint(x as nat),
{
    let mut y: u64 = x;
    while y >= 128
        invariant
            old(out)@ + varint(x as nat) == out@ + varint(y as nat),
        decreases y,
    {
        let b: u8 = (y % 128 + 128) as u8;
        let ghost before = out@;
        out.push(b);
        assert(varint(y as nat) == seq![b] + varint((y / 128) as nat));
        assert(before + varint(y as nat) =~= out@ + varint((y / 128) as nat));
        y = y / 128;
    }
    let ghost before = out@;
    out.push(y as u8);
    assert(before + varint(y as nat) =~= out@);
}

/// Reads a varint from `s` at `pos`, not past `end`.
pub fn read_varint(s: &[u8], pos: usize, end: usize) -> (r: Option<(u64, usize)>)
    ensures
        match parse_varint(s@, pos as int, end as int, 0) {
            Some((v, p)) => r is Some && r->Some_0.0 as nat == v && r->Some_0.1 as int == p && pos
                < p <= end,
            None => r is None,
        },
{
    proof {
        if parse_varint(s@, pos as int, end as int, 0) is Some {
            lemma_parse_varint_bounds(s@, pos as int, end as int, 0);
        }
    }
    read_varint_from(s, pos, end, 0)
}

fn read_varint_from(s: &[u8], pos: usize, end: usize, n: usize) -> (r: Option<(u64, usize)>)
    requires
        n <= 10,
    ensures
        match parse_varint(s@, pos as int, end as int, n as nat) {
            Some((v, p)) => r == Some((v as u64, p as usize)),
            None => r is None,
        },
    decreases end - pos,
{
    if pos >= end || end > s.len() || n >= 10 {
        return None;
    }
    let b = s[pos];
    if b < 128 {
        return Some((b as u64, pos + 1));
    }
    match read_varint_from(s, pos + 1, end, n + 1) {
        Some((v, p)) => {
            proof {
                lemma_parse_varint_bounds(s@, pos + 1, end as int, (n + 1) as nat);
            }
            let low: u64 = (b - 128) as u64;
            if v > (u64::MAX - low) / 128 {
                assert(low + 128 * v > u64::MAX) by (nonlinear_arith)
                    requires
                        v > (u64::MAX - low) / 128,
                        low < 128,
                ;
                None
            } else {
                assert(low + 128 * v <= u64::MAX) by (nonlinear_arith)
                    requires
                        v <= (u64::MAX - low) / 128,
                        low < 128,
                ;
                Some((low + 128 * v, p))
            }
        },
        None => None,
    }
}

} // verus!
