//! The record that tells the processor where the table lies and how far it
//! reaches.

use crate::descriptor::ENTRY_BYTES;
use vstd::arithmetic::div_mod::lemma_div_denominator;
use vstd::arithmetic::power::{lemma_pow0, lemma_pow_positive, pow};
use vstd::prelude::*;

verus! {

/// Descriptors in a table.
pub const ENTRIES: usize = 16;

/// Bytes in a whole table: its descriptors, one after another, nothing between.
pub const TABLE_BYTES: usize = ENTRIES * ENTRY_BYTES;

/// The operand of the table-load instruction: a sixteen-bit limit, and
/// directly after it the address of the table.
#[allow(non_camel_case_types)]
#[derive(Clone, Copy, Debug, PartialEq, Eq, Structural)]
pub struct gdtreg {
    pub limit: u16,
    pub addr: usize,
}

impl gdtreg {
    /// The record for a table at `addr`.
    ///
    /// The limit is the size of the table plus one. The processor reads a
    /// limit as the offset of the last byte it may touch, which for a table of
    /// this size would be the size minus one; the larger number lets it see two
    /// bytes past the table, never a whole descriptor.
    pub open spec fn describe(addr: usize) -> gdtreg {
        gdtreg { limit: (TABLE_BYTES + 1) as u16, addr: addr }
    }

    /// Builds the record for a table at `addr`.
    pub fn new(addr: usize) -> (r: gdtreg)
        ensures
            r == gdtreg::describe(addr),
            r.limit == TABLE_BYTES + 1 == 129,
            r.addr == addr,
    {
        gdtreg { limit: (TABLE_BYTES + 1) as u16, addr: addr }
    }

    /// The record as it lies in memory, packed: the two bytes of the limit,
    /// low byte first, and straight after them the bytes of the address, low
    /// byte first, as many as an address has on the machine.
    pub open spec fn bytes(&self) -> Seq<u8> {
        seq![(self.limit % 0x100) as u8, (self.limit / 0x100) as u8] + Seq::new(
            (usize::BITS / 8) as nat,
            |i: int| ((self.addr as int / pow(0x100, i as nat)) % 0x100) as u8,
        )
    }

    /// Lays the record out as the table-load instruction reads it.
    pub fn to_bytes(&self) -> (b: Vec<u8>)
        ensures
            b@ == self.bytes(),
            b@.len() == 2 + usize::BITS / 8,
    {
        let limit: u16 = self.limit;
        let width: usize = (usize::BITS / 8) as usize;
        let mut b: Vec<u8> = Vec::new();
        b.push((limit % 0x100) as u8);
        b.push((limit / 0x100) as u8);
        let mut rest: usize = self.addr;
        let mut i: usize = 0;
        proof {
            lemma_pow0(0x100);
        }
        while i < width
            invariant
                i <= width,
                width == usize::BITS / 8,
                rest == self.addr as int / pow(0x100, i as nat),
                b@ == seq![(self.limit % 0x100) as u8, (self.limit / 0x100) as u8] + Seq::new(
                    i as nat,
                    |k: int| ((self.addr as int / pow(0x100, k as nat)) % 0x100) as u8,
                ),
            decreases width - i,
        {
            proof {
                lemma_pow_positive(0x100, i as nat);
                lemma_div_denominator(self.addr as int, pow(0x100, i as nat), 0x100);
                reveal(pow);
                assert(pow(0x100, (i + 1) as nat) == 0x100 * pow(0x100, i as nat));
                assert(pow(0x100, i as nat) * 0x100 == 0x100 * pow(0x100, i as nat))
                    by (nonlinear_arith);
            }
            b.push((rest % 0x100) as u8);
            rest = rest / 0x100;
            i = i + 1;
        }
        b
    }
}

} // verus!
