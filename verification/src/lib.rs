//! Argument echo utility with a small numeric demonstration.
//!
//! The library captures the behaviour of a command-line argument printer:
//! given the ordered list of invocation arguments (program name first), it
//! either rejects the list for holding no user-supplied argument, or renders
//! one line per argument of the form `argv[N] = "text"`.  A separate
//! demonstration renders five lines pairing an index with its parity label.
//! All rendering is specified exactly over sequences of characters.

use vstd::prelude::*;

pub mod demo;
pub mod echo;
pub mod text;

use crate::demo::demo_lines;
use crate::demo::demo_output;
use crate::echo::EchoError;
use crate::echo::echo_args;
use crate::echo::echo_output;

verus! {

/// Everything one run prints on an accepted argument list: the echo line of
/// each argument, then the five demonstration lines.
pub open spec fn full_output(argv: Seq<Seq<char>>) -> Seq<Seq<char>> {
    echo_output(argv) + demo_output()
}

/// One run of the program over a captured argument list: the lines it
/// prints, or the rejection when no argument beyond the program name was
/// supplied.
pub fn run(argv: &Vec<String>) -> (r: Result<Vec<String>, EchoError>)
    ensures
        r is Ok <==> argv@.len() >= 2,
        argv@.len() < 2 ==> r == Err::<Vec<String>, EchoError>(EchoError::MissingArguments),
        r matches Ok(lines) ==> lines.deep_view() == full_output(argv.deep_view()),
{
    let mut lines = match echo_args(argv) {
        Ok(lines) => lines,
        Err(e) => {
            return Err(e);
        },
    };
    let ghost head = lines@;
    let mut rest = demo_lines();
    let ghost tail = rest@;
    lines.append(&mut rest);
    proof {
        assert(lines@ == head + tail);
        assert forall|j: int| 0 <= j < lines@.len() implies lines.deep_view()[j] == full_output(
            argv.deep_view(),
        )[j] by {
            if j < head.len() {
                assert(lines@[j] == head[j]);
            } else {
                assert(lines@[j] == tail[j - head.len()]);
            }
        }
        assert(lines.deep_view() =~= full_output(argv.deep_view()));
    }
    Ok(lines)
}

/// The output is a function of the argument list alone: two runs over equal
/// argument lists print equal output, byte for byte.
pub proof fn lemma_run_deterministic(argv1: Seq<Seq<char>>, argv2: Seq<Seq<char>>)
    requires
        argv1 == argv2,
    ensures
        full_output(argv1) == full_output(argv2),
{
}

} // verus!
