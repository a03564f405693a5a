//! Wrapper which creates a new session, and group, for the command.
//!
//! Only meaningful on Unix. The child calls `setsid` between fork and
//! exec, which creates a new session and a new process group with the
//! child as leader of both. The child handle is the same group handle
//! the process-group wrapper produces, with the child's own pid as the
//! group id. Using this wrapper together with the process-group wrapper
//! is redundant and not supported.

use vstd::prelude::*;

verus! {

/// Wrapper which creates a new session and group with the command as
/// its leader.
#[derive(Clone, Copy, Debug, PartialEq, Eq, Structural)]
pub struct ProcessSession;

} // verus!
