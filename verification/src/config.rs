//! Compile-time kernel parameters.

use vstd::prelude::*;

verus! {

/// Number of syscall-id slots in each task's accounting table; every
/// recognized syscall id is below this bound.
pub const MAX_SYSCALL_NUM: usize = 500;

/// Microseconds in one second, for splitting a clock reading.
pub const MICRO_PER_SEC: usize = 1_000_000;

} // verus!
