//! File-descriptor syscalls. The only descriptor this kernel knows is the
//! console; the user buffer named by the trapped pointer is handed in as the
//! bytes it holds, since reading user memory is the trap path's work.

use vstd::prelude::*;

use crate::sbi::console_putchar;
use crate::sbi::Console;

verus! {

/// The one descriptor `WRITE` accepts: standard output, backed by the
/// firmware console.
pub const FD_STDOUT: usize = 1;

/// The code units a byte buffer contributes to the console: each byte in
/// order, widened to a machine word.
pub open spec fn byte_units(s: Seq<u8>) -> Seq<usize> {
    s.map_values(|b: u8| b as usize)
}

/// `WRITE(fd, ptr, len)`: on the console descriptor, emit the `len` bytes of
/// the buffer in order and report how many were written; on any other
/// descriptor, report -1 and leave the console alone.
pub fn sys_write(con: &mut Console, fd: usize, buf: &Vec<u8>, len: usize) -> (r: isize)
    requires
        buf@.len() == len,
        len <= isize::MAX,
    ensures
        fd == FD_STDOUT ==> r == len as isize && final(con).output@ == old(con).output@
            + byte_units(buf@),
        fd != FD_STDOUT ==> r == -1isize && *final(con) == *old(con),
{
    if fd == FD_STDOUT {
        let mut i: usize = 0;
        while i < len
            invariant
                buf@.len() == len,
                i <= len,
                con.output@ == old(con).output@ + byte_units(buf@.subrange(0, i as int)),
            decreases len - i,
        {
            let b = buf[i];
            console_putchar(con, b as usize);
            proof {
                assert(buf@.subrange(0, i + 1 as int) == buf@.subrange(0, i as int).push(
                    buf@[i as int],
                ));
                assert(byte_units(buf@.subrange(0, i + 1 as int)) == byte_units(
                    buf@.subrange(0, i as int),
                ).push(b as usize));
            }
            i += 1;
        }
        proof {
            assert(buf@.subrange(0, len as int) == buf@);
        }
        len as isize
    } else {
        -1
    }
}

} // verus!
