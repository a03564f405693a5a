//! Collecting the output of a child: the decisions of
//! `wait_with_output` and of its simultaneous stdout/stderr drain.
//!
//! The reads themselves are I/O the host performs; which stream is
//! drained, in what order, and when the non-blocking alternation gives
//! way to a final blocking drain, is decided here.

use vstd::prelude::*;
use crate::ExitStatus;

verus! {

/// The collected result of a child that ran to completion: its exit
/// status and everything it wrote to the two captured streams.
#[derive(Debug, PartialEq, Eq)]
pub struct Output {
    /// The exit status `wait` returned.
    pub status: ExitStatus,
    /// Everything the child wrote to stdout, in order.
    pub stdout: Vec<u8>,
    /// Everything the child wrote to stderr, in order.
    pub stderr: Vec<u8>,
}

/// Which streams a `wait_with_output` drains.
#[derive(Clone, Copy, Debug, PartialEq, Eq, Structural)]
pub enum ReadPlan {
    /// Neither stream was captured: nothing to drain.
    Neither,
    /// Only stdout was captured: read it to the end.
    OutOnly,
    /// Only stderr was captured: read it to the end.
    ErrOnly,
    /// Both were captured: drain them simultaneously.
    Both,
}

/// Decide which streams `wait_with_output` drains, from which of the
/// two were captured. Stdin is dropped before any read, so a child
/// waiting on its stdin sees end of input and can finish.
pub fn output_plan(has_stdout: bool, has_stderr: bool) -> (r: ReadPlan)
    ensures
        r == (if has_stdout && has_stderr {
            ReadPlan::Both
        } else if has_stdout {
            ReadPlan::OutOnly
        } else if has_stderr {
            ReadPlan::ErrOnly
        } else {
            ReadPlan::Neither
        }),
{
    if has_stdout && has_stderr {
        ReadPlan::Both
    } else if has_stdout {
        ReadPlan::OutOnly
    } else if has_stderr {
        ReadPlan::ErrOnly
    } else {
        ReadPlan::Neither
    }
}

/// What the simultaneous drain does after one round of polling and
/// non-blocking reads.
#[derive(Clone, Copy, Debug, PartialEq, Eq, Structural)]
pub enum DrainNext {
    /// Stdout is exhausted: read stderr to the end, blocking.
    FinishErr,
    /// Stderr is exhausted: read stdout to the end, blocking.
    FinishOut,
    /// Neither stream has ended: poll both again.
    PollAgain,
}

/// One decision of the simultaneous drain. The host polls both pipes
/// and reads whichever was ready without blocking; `out_done` says
/// stdout was ready and its read reached end of stream, `err_done` the
/// same of stderr. The first stream to end hands the rest of the drain
/// to one final blocking read of the other; bytes within each stream
/// stay in order, the order between the streams is not specified.
pub fn read2_step(out_done: bool, err_done: bool) -> (r: DrainNext)
    ensures
        r == (if out_done {
            DrainNext::FinishErr
        } else if err_done {
            DrainNext::FinishOut
        } else {
            DrainNext::PollAgain
        }),
{
    if out_done {
        DrainNext::FinishErr
    } else if err_done {
        DrainNext::FinishOut
    } else {
        DrainNext::PollAgain
    }
}

} // verus!
