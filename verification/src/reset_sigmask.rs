//! Wrapper which resets the signal mask of the child.
//!
//! A child on Unix inherits the signal mask of its parent. This wrapper
//! records that the child must unblock all signals between fork and
//! exec; the host applies `sigprocmask(SIG_UNBLOCK, full set)` there.

use vstd::prelude::*;

verus! {

/// Wrapper which makes the child unblock all signals before exec.
#[derive(Clone, Copy, Debug, PartialEq, Eq, Structural)]
pub struct ResetSigmask;

} // verus!
