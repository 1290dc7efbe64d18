//! Pseudo-terminal allocation and forking, with the decisions of every step
//! stated and proved.
//!
//! The system calls themselves (`open(2)`, `grantpt(3)`, `fork(2)`, ...) are
//! made by the caller; this crate decides, from their return values, what the
//! result of each operation is and what the next step of a pty fork must be.

pub mod descriptor;
pub mod fork;

use vstd::prelude::*;

verus! {

/// The path of the pseudo-terminal multiplexer that `from_ptmx` opens.
pub const DEFAULT_PTMX: &'static str = "/dev/ptmx";

} // verus!
