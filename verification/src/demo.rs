//! The numeric demonstration: five lines, each pairing an iteration index
//! with its debug-quoted parity label.  The demonstration keeps no running
//! accumulator; each line is a function of its index alone.

use vstd::prelude::*;

use crate::text::dec_rep;
use crate::text::decimal_string;
use crate::text::quote;
use crate::text::quoted;

verus! {

/// How many lines the demonstration emits.
pub open spec fn demo_len() -> nat {
    5
}

/// The parity label of an index: `even` for an index divisible by two,
/// `odd` otherwise.
pub open spec fn parity_label(i: nat) -> Seq<char> {
    if i % 2 == 0 {
        "even"@
    } else {
        "odd"@
    }
}

/// One demonstration line: the index in decimal, a space, and the
/// debug-quoted parity label.
pub open spec fn demo_line(i: nat) -> Seq<char> {
    dec_rep(i) + " "@ + quoted(parity_label(i))
}

/// The whole demonstration output: the lines for indices zero through four.
pub open spec fn demo_output() -> Seq<Seq<char>> {
    Seq::new(demo_len(), |i: int| demo_line(i as nat))
}

/// Renders the demonstration line for one index.
pub fn format_demo_line(i: usize) -> (r: String)
    ensures
        r@ == demo_line(i as nat),
{
    let mut r = decimal_string(i);
    r.append(" ");
    let label: &str = if i % 2 == 0 {
        "even"
    } else {
        "odd"
    };
    let q = quote(label);
    r.append(q.as_str());
    proof {
        assert(r@ =~= demo_line(i as nat));
    }
    r
}

/// Renders the five demonstration lines, in index order.
pub fn demo_lines() -> (r: Vec<String>)
    ensures
        r.deep_view() == demo_output(),
{
    let mut lines: Vec<String> = Vec::new();
    lines.push(format_demo_line(0));
    lines.push(format_demo_line(1));
    lines.push(format_demo_line(2));
    lines.push(format_demo_line(3));
    lines.push(format_demo_line(4));
    proof {
        assert(lines.deep_view() =~= demo_output());
    }
    lines
}

/// The demonstration always emits exactly five lines, whatever the
/// invocation looked like: their indices run zero through four and their
/// parity labels alternate even, odd, even, odd, even.
pub proof fn lemma_demo_shape()
    ensures
        demo_output().len() == 5,
        forall|i: int|
            0 <= i < 5 ==> demo_output()[i] == dec_rep(i as nat) + " "@ + quoted(
                parity_label(i as nat),
            ),
        parity_label(0) == "even"@,
        parity_label(1) == "odd"@,
        parity_label(2) == "even"@,
        parity_label(3) == "odd"@,
        parity_label(4) == "even"@,
{
}

} // verus!
