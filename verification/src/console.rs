//! Buffered console output: composing the one-code-unit firmware primitive
//! into whole-string writes. The formatted-print plumbing around this sits
//! outside the library; what is verified is the composition itself.

use vstd::prelude::*;

use crate::sbi::console_putchar;
use crate::sbi::Console;

verus! {

/// The code units a string contributes to the console: each character in
/// order, widened to a machine word.
pub open spec fn code_units(s: Seq<char>) -> Seq<usize> {
    s.map_values(|c: char| c as usize)
}

/// Write a string to the console, one character per firmware call, in order.
pub fn print(con: &mut Console, s: &str)
    ensures
        final(con).output@ == old(con).output@ + code_units(s@),
{
    let n = s.unicode_len();
    let mut i: usize = 0;
    while i < n
        invariant
            n == s@.len(),
            i <= n,
            con.output@ == old(con).output@ + code_units(s@.subrange(0, i as int)),
        decreases n - i,
    {
        let c = s.get_char(i);
        console_putchar(con, c as usize);
        proof {
            assert(s@.subrange(0, i + 1 as int) == s@.subrange(0, i as int).push(s@[i as int]));
            assert(code_units(s@.subrange(0, i + 1 as int)) == code_units(
                s@.subrange(0, i as int),
            ).push(c as usize));
        }
        i += 1;
    }
    proof {
        assert(s@.subrange(0, n as int) == s@);
    }
}

} // verus!
