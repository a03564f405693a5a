//! Shim wrapper which sets process creation flags on the command.
//!
//! It exists so that the flags are both set on the command and kept
//! queryable by other wrappers; notably the job-object enforcer reads
//! them to decide whether the child stays suspended.
//!
//! When both `CreationFlags` and `JobObject` are registered, either
//! `CreationFlags` must come first, or its flags must include
//! [`CREATE_SUSPENDED`]: a later `CreationFlags` overwrites the flags
//! the job-object enforcer set.

use vstd::prelude::*;

verus! {

/// The creation flag that starts the primary thread of the process in
/// the suspended state.
pub const CREATE_SUSPENDED: u32 = 0x00000004;

/// The creation flag that runs the process without a console window.
pub const CREATE_NO_WINDOW: u32 = 0x08000000;

/// Shim wrapper which sets process creation flags on the command and
/// records them for sibling wrappers to read.
#[derive(Clone, Copy, Debug, PartialEq, Eq, Structural)]
pub struct CreationFlags(pub u32);

} // verus!
