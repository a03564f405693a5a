//! Shim wrapper which sets kill-on-drop on the command.
//!
//! It exists so that the intent is both set on the command and kept
//! queryable by other wrappers; notably the job-object enforcer reads
//! it to decide whether the job kills its processes when it is closed.

use vstd::prelude::*;

verus! {

/// Shim wrapper which sets the kill-on-drop flag on the command and
/// records that fact for sibling wrappers to read.
#[derive(Clone, Copy, Debug, PartialEq, Eq, Structural)]
pub struct KillOnDrop;

} // verus!
