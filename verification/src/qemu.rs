//! Exit-code encoding for the qemu `sifive_test` power-control device.
//!
//! Halting the machine means storing one sentinel word to the memory-mapped
//! device and spinning; the store and the spin are hardware work that lives
//! outside this library. What is verified here is the choice of the word:
//! `0x5555` means success, `0x7777` means reset, and any other exit code is
//! folded into the failure word `(code << 16) | 0x3333`.

use vstd::prelude::*;

verus! {

/// Sentinel word for a successful exit, equivalent to `exit(0)`.
pub const EXIT_SUCCESS: u32 = 0x5555;

/// Flag combined with a shifted exit code to form a failure word.
pub const EXIT_FAILURE_FLAG: u32 = 0x3333;

/// Sentinel word for a plain failed exit, equivalent to `exit(1)`.
pub const EXIT_FAILURE: u32 = (1 << 16) | 0x3333;

/// Sentinel word requesting a machine reset.
pub const EXIT_RESET: u32 = 0x7777;

/// The failure word that encodes `code`.
pub open spec fn spec_exit_code_encode(code: u32) -> u32 {
    (code << 16) | EXIT_FAILURE_FLAG
}

/// The word actually stored to the device for a requested `code`: the three
/// sentinel words pass through unchanged, anything else is encoded as a
/// failure carrying `code`.
pub open spec fn spec_exit_word(code: u32) -> u32 {
    if code == EXIT_SUCCESS || code == EXIT_FAILURE || code == EXIT_RESET {
        code
    } else {
        spec_exit_code_encode(code)
    }
}

/// Encode the exit code using `EXIT_FAILURE_FLAG`.
pub fn exit_code_encode(code: u32) -> (r: u32)
    ensures
        r == spec_exit_code_encode(code),
{
    (code << 16) | EXIT_FAILURE_FLAG
}

/// Interface of the qemu power-control device: each operation yields the
/// sentinel word to store to the device. The store itself, and the `wfi`
/// spin that follows it, never return control and stay outside the library.
pub trait QEMUExit {
    /// The word for an exit with the given code.
    fn exit(&self, code: u32) -> (w: u32)
        ensures
            w == spec_exit_word(code),
    ;

    /// The word for a successful exit.
    fn exit_success(&self) -> (w: u32)
        ensures
            w == EXIT_SUCCESS,
    ;

    /// The word for a failed exit.
    fn exit_failure(&self) -> (w: u32)
        ensures
            w == EXIT_FAILURE,
    ;
}

/// Handle on the RISC-V `sifive_test` device.
pub struct RISCV64 {
    /// Address of the sifive_test mapped device.
    addr: u64,
}

impl RISCV64 {
    /// The device address this handle was built with.
    pub closed spec fn spec_addr(&self) -> u64 {
        self.addr
    }

    pub fn new(addr: u64) -> (r: Self)
        ensures
            r.spec_addr() == addr,
    {
        RISCV64 { addr }
    }
}

impl QEMUExit for RISCV64 {
    fn exit(&self, code: u32) -> (w: u32) {
        match code {
            EXIT_SUCCESS | EXIT_FAILURE | EXIT_RESET => code,
            _ => exit_code_encode(code),
        }
    }

    fn exit_success(&self) -> (w: u32) {
        self.exit(EXIT_SUCCESS)
    }

    fn exit_failure(&self) -> (w: u32) {
        self.exit(EXIT_FAILURE)
    }
}

/// Address of the qemu `sifive_test` device in the virt machine.
pub const VIRT_TEST: u64 = 0x100000;

} // verus!
