//! Cooperative, single-hart task scheduler and syscall dispatch runtime for a
//! bare-metal RISC-V teaching kernel, modelled as an explicit state machine.
//!
//! The hardware collaborators (the memory-mapped qemu test device, the SBI
//! console, the monotonic clock and the raw register context switch) sit
//! outside this library. Every function here computes from plain values:
//! the clock is handed in as a reading, console output is appended to an
//! explicit sink, and a scheduling step returns the context transfer it asks
//! for instead of performing it.

pub mod config;
pub mod console;
pub mod fs;
pub mod manager;
pub mod process;
pub mod qemu;
pub mod sbi;
pub mod syscall;
pub mod task;
