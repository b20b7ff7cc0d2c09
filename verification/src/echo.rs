//! The argument echo: one rendered line per invocation argument, or a
//! rejection when no argument beyond the program name was supplied.

use vstd::prelude::*;

use crate::text::dec_rep;
use crate::text::decimal_string;
use crate::text::quote;
use crate::text::quoted;

verus! {

/// The one way an invocation can be malformed: the argument list holds
/// nothing beyond the program name.
#[derive(Clone, Copy, Debug, PartialEq, Eq, Structural)]
pub enum EchoError {
    MissingArguments,
}

/// The echo line for the argument at a given position:
/// `argv[N] = "text"`, with the index in decimal and the text debug-quoted.
pub open spec fn echo_line(i: nat, arg: Seq<char>) -> Seq<char> {
    "argv["@ + dec_rep(i) + "] = "@ + quoted(arg)
}

/// The whole echo output for an argument list: the echo line of each
/// argument, in the order of the list.
pub open spec fn echo_output(argv: Seq<Seq<char>>) -> Seq<Seq<char>> {
    Seq::new(argv.len(), |i: int| echo_line(i as nat, argv[i]))
}

/// Renders the echo line for the argument at position `i`.
pub fn format_echo_line(i: usize, arg: &str) -> (r: String)
    ensures
        r@ == echo_line(i as nat, arg@),
{
    let mut r = String::from_str("argv[");
    let d = decimal_string(i);
    r.append(d.as_str());
    r.append("] = ");
    let q = quote(arg);
    r.append(q.as_str());
    proof {
        assert(r@ =~= echo_line(i as nat, arg@));
    }
    r
}

/// Echoes an argument list.  With at least one argument beyond the program
/// name it yields one line per argument, in order; otherwise it rejects the
/// list.
pub fn echo_args(argv: &Vec<String>) -> (r: Result<Vec<String>, EchoError>)
    ensures
        r is Ok <==> argv@.len() >= 2,
        argv@.len() < 2 ==> r == Err::<Vec<String>, EchoError>(EchoError::MissingArguments),
        r matches Ok(lines) ==> lines.deep_view() == echo_output(argv.deep_view()),
{
    if argv.len() < 2 {
        return Err(EchoError::MissingArguments);
    }
    let ghost dv = argv.deep_view();
    let mut lines: Vec<String> = Vec::new();
    let mut i: usize = 0;
    while i < argv.len()
        invariant
            i <= argv@.len(),
            dv == argv.deep_view(),
            lines.deep_view() == echo_output(dv).take(i as int),
        decreases argv@.len() - i,
    {
        let line = format_echo_line(i, argv[i].as_str());
        let ghost prev = lines@;
        let ghost prevdv = lines.deep_view();
        proof {
            assert(dv.len() == argv@.len());
            assert(echo_output(dv).len() == dv.len());
            assert(prevdv.len() == prev.len());
            assert(prev.len() == i);
        }
        lines.push(line);
        proof {
            assert(lines@ == prev.push(line));
            assert forall|j: int| 0 <= j < i + 1 implies lines.deep_view()[j] == echo_output(
                dv,
            ).take(i + 1)[j] by {
                assert(lines.deep_view()[j] == lines@[j]@);
                if j < i {
                    assert(prevdv[j] == prev[j]@);
                    assert(prevdv[j] == echo_output(dv).take(i as int)[j]);
                    assert(lines@[j] == prev[j]);
                } else {
                    assert(lines@[j] == line);
                    assert(dv[j] == argv@[j]@);
                }
            }
            assert(lines.deep_view() =~= echo_output(dv).take(i + 1));
        }
        i = i + 1;
    }
    proof {
        assert(echo_output(dv).take(argv@.len() as int) =~= echo_output(dv));
    }
    Ok(lines)
}

/// The echo output has exactly one line per argument of the list, in the
/// order of the list, and the line at each position is the echo line of the
/// argument at that same position.
pub proof fn lemma_echo_line_per_argument(argv: Seq<Seq<char>>)
    ensures
        echo_output(argv).len() == argv.len(),
        forall|i: int|
            0 <= i < argv.len() ==> echo_output(argv)[i] == echo_line(i as nat, argv[i]),
{
}

} // verus!
