//! A readable rendering of a single change, for debugging.
use vstd::prelude::*;
use crate::change::{ConfChange, ConfChangeType, ConfChangeView};

verus! {

/// The decimal digit `d`.
pub open spec fn digit(d: nat) -> char {
    if d == 0 {
        '0'
    } else if d == 1 {
        '1'
    } else if d == 2 {
        '2'
    } else if d == 3 {
        '3'
    } else if d == 4 {
        '4'
    } else if d == 5 {
        '5'
    } else if d == 6 {
        '6'
    } else if d == 7 {
        '7'
    } else if d == 8 {
        '8'
    } else {
        '9'
    }
}

/// The decimal numeral of `n`, without leading zeros.
pub open spec fn decimal(n: nat) -> Seq<char>
    decreases n,
{
    if n < 10 {
        seq![digit(n)]
    } else {
        decimal(n / 10) + seq![digit(n % 10)]
    }
}

/// The name of a change type.
pub open spec fn change_type_text(t: ConfChangeType) -> Seq<char> {
    match t {
        ConfChangeType::AddNode => "AddNode"@,
        ConfChangeType::RemoveNode => "RemoveNode"@,
        ConfChangeType::AddLearnerNode => "AddLearnerNode"@,
        ConfChangeType::AddLearnerNodeV2 => "AddLearnerNodeV2"@,
    }
}

/// The rendering of `c`, with `context` standing for its context bytes.
pub open spec fn conf_change_text(c: ConfChangeView, context: Seq<char>) -> Seq<char> {
    "ConfChange { change_type: "@ + change_type_text(c.change_type) + ", node_id: "@ + decimal(
        c.node_id as nat,
    ) + ", context: "@ + context + ", id: "@ + decimal(c.id as nat) + " }"@
}

/// Relies on String::push_str: appends `t` at the end of `s`.
#[verifier::external_body]
fn append(s: &mut String, t: &str)
    ensures
        final(s)@ == old(s)@ + t@,
{
    s.push_str(t)
}

/// Relies on String::push: appends `c` at the end of `s`.
#[verifier::external_body]
fn append_char(s: &mut String, c: char)
    ensures
        final(s)@ == old(s)@ + seq![c],
{
    s.push(c)
}

fn digit_char(d: u64) -> (r: char)
    requires
        d < 10,
    ensures
        r == digit(d as nat),
{
    if d == 0 {
        '0'
    } else if d == 1 {
        '1'
    } else if d == 2 {
        '2'
    } else if d == 3 {
        '3'
    } else if d == 4 {
        '4'
    } else if d == 5 {
        '5'
    } else if d == 6 {
        '6'
    } else if d == 7 {
        '7'
    } else if d == 8 {
        '8'
    } else {
        '9'
    }
}

/// Appends the decimal numeral of `n`.
fn append_decimal(s: &mut String, n: u64)
    ensures
        final(s)@ == old(s)@ + decimal(n as nat),
    decreases n,
{
    if n >= 10 {
        append_decimal(s, n / 10);
    }
    append_char(s, digit_char(n % 10));
    assert(final(s)@ =~= old(s)@ + decimal(n as nat));
}

fn change_type_label(t: ConfChangeType) -> (r: &'static str)
    ensures
        r@ == change_type_text(t),
{
    match t {
        ConfChangeType::AddNode => "AddNode",
        ConfChangeType::RemoveNode => "RemoveNode",
        ConfChangeType::AddLearnerNode => "AddLearnerNode",
        ConfChangeType::AddLearnerNodeV2 => "AddLearnerNodeV2",
    }
}

/// Renders `cc` with all its fields; the context bytes are shown as
/// `context`, which a caller-chosen decoder made of them.
pub fn format_confchange(cc: &ConfChange, context: &str) -> (r: String)
    ensures
        r@ == conf_change_text(cc@, context@),
{
    let mut s = String::new();
    append(&mut s, "ConfChange { change_type: ");
    append(&mut s, change_type_label(cc.change_type));
    append(&mut s, ", node_id: ");
    append_decimal(&mut s, cc.node_id);
    append(&mut s, ", context: ");
    append(&mut s, context);
    append(&mut s, ", id: ");
    append_decimal(&mut s, cc.id);
    append(&mut s, " }");
    assert(s@ =~= conf_change_text(cc@, context@));
    s
}

} // verus!
