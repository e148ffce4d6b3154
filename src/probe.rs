//! Probing a compiler: which query to run, and what each run's outcome
//! leads to. The caller runs the queries and reports back.
use vstd::prelude::*;
use vstd::utf8::decode_utf8;

use crate::rustc::{output_fault, Invocation, ProbeFault, Rustc, RustcError};

verus! {

/// A way to ask a compiler for its verbose version banner.
#[derive(Clone, Copy, Debug, PartialEq, Eq, Structural)]
pub enum Attempt {
    /// `-vV --cap-lints allow`: also tells whether `--cap-lints` is known.
    CapLints,
    /// `-vV` alone.
    Plain,
}

/// How a run of the compiler ended.
#[derive(Clone, Debug, PartialEq, Eq)]
pub enum RunOutcome {
    /// It exited successfully and printed this on its standard output.
    Output(Vec<u8>),
    /// It could not be started or exited with failure; the reason.
    Failed(String),
}

/// What to do next while probing.
#[derive(Debug, PartialEq, Eq)]
pub enum ProbeStep {
    /// Run the compiler as this attempt says and report how it ended.
    Run(Attempt),
    /// The probe is over.
    Done(Result<Rustc, RustcError>),
}

/// The arguments of an attempt.
pub open spec fn attempt_args(a: Attempt) -> Seq<Seq<char>> {
    match a {
        Attempt::CapLints => seq![
            seq!['-', 'v', 'V'],
            seq!['-', '-', 'c', 'a', 'p', '-', 'l', 'i', 'n', 't', 's'],
            seq!['a', 'l', 'l', 'o', 'w'],
        ],
        Attempt::Plain => seq![seq!['-', 'v', 'V']],
    }
}

/// The attempt that a probe starts with.
pub fn first_attempt() -> (r: Attempt)
    ensures
        r == Attempt::CapLints,
{
    Attempt::CapLints
}

/// The command line of `attempt` for the compiler at `path`.
pub fn attempt_invocation(path: &str, attempt: Attempt) -> (r: Invocation)
    ensures
        r.program@ == path@,
        r.args@.len() == attempt_args(attempt).len(),
        forall|i: int| 0 <= i < r.args@.len() ==> r.args@[i]@ == attempt_args(attempt)[i],
{
    proof {
        reveal_strlit("-vV");
        reveal_strlit("--cap-lints");
        reveal_strlit("allow");
    }
    let mut args: Vec<String> = Vec::new();
    args.push("-vV".to_owned());
    if attempt == Attempt::CapLints {
        args.push("--cap-lints".to_owned());
        args.push("allow".to_owned());
    }
    proof {
        assert(args@[0]@ =~= attempt_args(attempt)[0]);
        if attempt == Attempt::CapLints {
            assert(args@[1]@ =~= attempt_args(attempt)[1]);
            assert(args@[2]@ =~= attempt_args(attempt)[2]);
        }
    }
    Invocation { program: path.to_owned(), args }
}

/// What follows when the compiler at `path`, run as `attempt`, ended with
/// `outcome`. Output of either attempt is described, with `--cap-lints`
/// known exactly when the first attempt gave it. A failed first attempt
/// leads to the plain one; a failed plain attempt ends the probe.
pub fn next_step(path: &str, attempt: Attempt, outcome: RunOutcome) -> (r: ProbeStep)
    ensures
        match outcome {
            RunOutcome::Output(out) => match r {
                ProbeStep::Done(Ok(d)) => {
                    &&& output_fault(out@) is None
                    &&& d.wf()
                    &&& d.path@ == path@
                    &&& d.cap_lints == (attempt == Attempt::CapLints)
                    &&& d.verbose_version@ == decode_utf8(out@)
                },
                ProbeStep::Done(Err(e)) => output_fault(out@) == Some(e@),
                ProbeStep::Run(_) => false,
            },
            RunOutcome::Failed(m) => match attempt {
                Attempt::CapLints => r == ProbeStep::Run(Attempt::Plain),
                Attempt::Plain => r matches ProbeStep::Done(Err(e)) && e@ == ProbeFault::Spawn(m@),
            },
        },
{
    match outcome {
        RunOutcome::Output(out) => ProbeStep::Done(
            Rustc::new(path, attempt == Attempt::CapLints, out),
        ),
        RunOutcome::Failed(m) => match attempt {
            Attempt::CapLints => ProbeStep::Run(Attempt::Plain),
            Attempt::Plain => ProbeStep::Done(Err(RustcError::Spawn { message: m })),
        },
    }
}

} // verus!
