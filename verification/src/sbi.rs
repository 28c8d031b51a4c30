//! SBI-level collaborators, modelled as data.
//!
//! On the machine, `console_putchar` is an `ecall` into firmware and
//! `shutdown` stores a sentinel word to the power-control device; neither
//! computes anything further. Here the console is an explicit sink that
//! records every code unit handed to it, and `shutdown` yields the word the
//! device would receive so the halt itself can happen outside the library.

use vstd::prelude::*;

use crate::qemu::QEMUExit;
use crate::qemu::RISCV64;
use crate::qemu::EXIT_FAILURE;
use crate::qemu::VIRT_TEST;

verus! {

/// The firmware console, as the sequence of code units written to it.
pub struct Console {
    /// Every code unit handed to the console so far, oldest first.
    pub output: Vec<usize>,
}

impl Console {
    /// A console that has emitted nothing yet.
    pub fn new() -> (r: Self)
        ensures
            r.output@ == Seq::<usize>::empty(),
    {
        Console { output: Vec::new() }
    }
}

/// Hand one code unit to the console: it is appended to the output and
/// nothing else happens.
pub fn console_putchar(con: &mut Console, c: usize)
    ensures
        final(con).output@ == old(con).output@.push(c),
{
    con.output.push(c);
}

/// An unrecoverable kernel fault: the word stored to the power-control
/// device is the plain failure sentinel.
pub fn shutdown() -> (w: u32)
    ensures
        w == EXIT_FAILURE,
{
    RISCV64::new(VIRT_TEST).exit_failure()
}

} // verus!
