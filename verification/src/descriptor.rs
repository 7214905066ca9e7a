//! Segment descriptors in the layout the processor reads.

use vstd::arithmetic::div_mod::{
    lemma_mod_breakdown, lemma_mod_mod, lemma_mod_multiples_vanish, lemma_small_mod,
};
use vstd::prelude::*;

verus! {

/// Bytes in one encoded descriptor.
pub const ENTRY_BYTES: usize = 8;

/// One segment descriptor, field by field in the order the processor lays
/// them out: sixteen bits of limit, twenty-four bits of base, the access
/// byte, the granularity byte and the last eight bits of base.
#[allow(non_camel_case_types)]
#[derive(Clone, Copy, Debug, PartialEq, Eq, Structural)]
pub struct gdtentry {
    pub limit_low: u16,
    pub base_low: u16,
    pub base_mid: u8,
    pub access: u8,
    pub gran: u8,
    pub base_high: u8,
}

impl gdtentry {
    /// The descriptor that `base`, `limit`, `access` and `gran` encode to.
    ///
    /// Only the low 32 bits of `base` and the low 16 bits of `limit` find a
    /// place in the fields; `access` and `gran` are kept as given. Bits 16 to
    /// 19 of a limit live in the low nibble of the granularity byte, which the
    /// caller supplies.
    pub open spec fn encode(base: nat, limit: nat, access: u8, gran: u8) -> gdtentry {
        gdtentry {
            limit_low: (limit % 0x1_0000) as u16,
            base_low: (base % 0x1_0000) as u16,
            base_mid: ((base / 0x1_0000) % 0x100) as u8,
            access: access,
            gran: gran,
            base_high: ((base / 0x100_0000) % 0x100) as u8,
        }
    }

    /// Builds a descriptor. Never fails: bits of `base` and `limit` that have
    /// no place in the layout are dropped.
    pub fn new(base: usize, limit: usize, access: u8, gran: u8) -> (e: gdtentry)
        ensures
            e == gdtentry::encode(base as nat, limit as nat, access, gran),
    {
        assert(limit & 0xFFFF == limit % 0x1_0000) by (bit_vector);
        assert(base & 0xFFFF == base % 0x1_0000) by (bit_vector);
        assert((base >> 16) & 0xFF == (base / 0x1_0000) % 0x100) by (bit_vector);
        assert((base >> 24) & 0xFF == (base / 0x100_0000) % 0x100) by (bit_vector);
        gdtentry {
            limit_low: (limit & 0xFFFF) as u16,
            base_low: (base & 0xFFFF) as u16,
            base_mid: ((base >> 16) & 0xFF) as u8,
            access: access,
            gran: gran,
            base_high: ((base >> 24) & 0xFF) as u8,
        }
    }

    /// The base address that the three base fields spell out.
    pub open spec fn spec_base(&self) -> nat {
        (self.base_low + 0x1_0000 * self.base_mid + 0x100_0000 * self.base_high) as nat
    }

    /// The twenty-bit limit: the limit field, and above it the low nibble of
    /// the granularity byte.
    pub open spec fn spec_limit(&self) -> nat {
        (self.limit_low + 0x1_0000 * (self.gran % 0x10)) as nat
    }

    /// The eight bytes of the descriptor as they lie in memory, multi-byte
    /// fields low byte first.
    pub open spec fn bytes(&self) -> Seq<u8> {
        seq![
            (self.limit_low % 0x100) as u8,
            (self.limit_low / 0x100) as u8,
            (self.base_low % 0x100) as u8,
            (self.base_low / 0x100) as u8,
            self.base_mid,
            self.access,
            self.gran,
            self.base_high,
        ]
    }

    /// Reads the base address back out of the descriptor.
    pub fn base(&self) -> (base: usize)
        ensures
            base == self.spec_base(),
    {
        let low: usize = self.base_low as usize;
        let mid: usize = self.base_mid as usize;
        let high: usize = self.base_high as usize;
        low + 0x1_0000 * mid + 0x100_0000 * high
    }

    /// Reads the twenty-bit limit back out of the descriptor.
    pub fn limit(&self) -> (limit: usize)
        ensures
            limit == self.spec_limit(),
    {
        let low: usize = self.limit_low as usize;
        let high: usize = (self.gran % 0x10) as usize;
        low + 0x1_0000 * high
    }

    /// Lays the descriptor out as the processor reads it: eight bytes, every
    /// one of them taken from a field, none left over.
    pub fn to_bytes(&self) -> (b: [u8; 8])
        ensures
            b@ == self.bytes(),
    {
        let b: [u8; 8] = [
            (self.limit_low % 0x100) as u8,
            (self.limit_low / 0x100) as u8,
            (self.base_low % 0x100) as u8,
            (self.base_low / 0x100) as u8,
            self.base_mid,
            self.access,
            self.gran,
            self.base_high,
        ];
        assert(b@ =~= self.bytes());
        b
    }
}

/// Encoding and reading back returns what went in: a base below 2^32 and a
/// limit below 2^20 come back exactly, provided the granularity byte carries
/// bits 16 to 19 of the limit in its low nibble, as the layout has it. The
/// access and granularity bytes always come back unchanged.
pub proof fn lemma_encode_round_trip(base: nat, limit: nat, access: u8, gran: u8)
    requires
        base < 0x1_0000_0000,
        limit < 0x10_0000,
        gran % 0x10 == limit / 0x1_0000,
    ensures
        gdtentry::encode(base, limit, access, gran).spec_base() == base,
        gdtentry::encode(base, limit, access, gran).spec_limit() == limit,
        gdtentry::encode(base, limit, access, gran).access == access,
        gdtentry::encode(base, limit, access, gran).gran == gran,
{
}

/// How the low 32 bits of a number split into the three base fields.
proof fn lemma_base_fields(x: nat)
    ensures
        (x % 0x1_0000_0000) % 0x1_0000 == x % 0x1_0000,
        ((x % 0x1_0000_0000) / 0x1_0000) % 0x100 == (x / 0x1_0000) % 0x100,
        ((x % 0x1_0000_0000) / 0x100_0000) % 0x100 == (x / 0x100_0000) % 0x100,
        x % 0x1_0000 + 0x1_0000 * ((x / 0x1_0000) % 0x100) + 0x100_0000 * ((x / 0x100_0000)
            % 0x100) == x % 0x1_0000_0000,
{
    let x = x as int;
    let low = x % 0x1_0000_0000;
    lemma_mod_mod(x, 0x1_0000, 0x1_0000);
    lemma_mod_breakdown(x, 0x1_0000, 0x1_0000);
    assert(low == 0x1_0000 * ((x / 0x1_0000) % 0x1_0000) + x % 0x1_0000);
    assert(low / 0x1_0000 == (x / 0x1_0000) % 0x1_0000);
    lemma_mod_mod(x / 0x1_0000, 0x100, 0x100);
    lemma_mod_breakdown(x, 0x100_0000, 0x100);
    assert(low == 0x100_0000 * ((x / 0x100_0000) % 0x100) + x % 0x100_0000);
    assert(low / 0x100_0000 == (x / 0x100_0000) % 0x100);
    lemma_mod_breakdown(x, 0x1_0000, 0x100);
    assert(x % 0x100_0000 == 0x1_0000 * ((x / 0x1_0000) % 0x100) + x % 0x1_0000);
}

/// How the low 20 bits of a number split into the limit field and a nibble.
proof fn lemma_limit_fields(x: nat)
    ensures
        (x % 0x10_0000) % 0x1_0000 == x % 0x1_0000,
        x % 0x1_0000 + 0x1_0000 * ((x / 0x1_0000) % 0x10) == x % 0x10_0000,
{
    let x = x as int;
    lemma_mod_mod(x, 0x1_0000, 0x10);
    lemma_mod_breakdown(x, 0x1_0000, 0x10);
}

/// Oversized inputs are cut down, never refused: a descriptor depends on
/// `base` only through its low 32 bits and on `limit` only through its low 20
/// bits, and what reads back is the base modulo 2^32 and, where the
/// granularity byte carries bits 16 to 19 of the limit, the limit modulo 2^20.
/// Cutting down twice is the same as cutting down once: encoding what was read
/// back gives the same descriptor again.
pub proof fn lemma_encode_truncates(base: nat, limit: nat, access: u8, gran: u8)
    ensures
        gdtentry::encode(base, limit, access, gran) == gdtentry::encode(
            base % 0x1_0000_0000,
            limit % 0x10_0000,
            access,
            gran,
        ),
        gdtentry::encode(base, limit, access, gran).spec_base() == base % 0x1_0000_0000,
        gdtentry::encode(base, limit, access, gran).spec_limit() % 0x1_0000 == limit % 0x1_0000,
        gran % 0x10 == (limit / 0x1_0000) % 0x10 ==> gdtentry::encode(
            base,
            limit,
            access,
            gran,
        ).spec_limit() == limit % 0x10_0000,
        ({
            let e = gdtentry::encode(base, limit, access, gran);
            gdtentry::encode(e.spec_base(), e.spec_limit(), access, gran) == e
        }),
{
    let e = gdtentry::encode(base, limit, access, gran);
    lemma_base_fields(base);
    lemma_limit_fields(limit);
    assert(e.spec_base() == base % 0x1_0000_0000);
    assert(e.spec_limit() % 0x1_0000 == limit % 0x1_0000) by {
        lemma_mod_multiples_vanish((gran % 0x10) as int, e.limit_low as int, 0x1_0000);
        lemma_small_mod(e.limit_low as nat, 0x1_0000);
    }
    assert(gdtentry::encode(e.spec_base(), e.spec_limit(), access, gran) == e) by {
        lemma_base_fields(e.spec_base());
        lemma_small_mod(e.spec_base(), 0x1_0000_0000);
    }
}

/// The eight bytes hold the whole descriptor and nothing else: descriptors
/// with the same bytes are the same descriptor.
pub proof fn lemma_bytes_determine_entry(a: gdtentry, b: gdtentry)
    requires
        a.bytes() == b.bytes(),
    ensures
        a == b,
{
    assert(a.bytes().len() == 8);
    assert(a.bytes()[0] == b.bytes()[0]);
    assert(a.bytes()[1] == b.bytes()[1]);
    assert(a.bytes()[2] == b.bytes()[2]);
    assert(a.bytes()[3] == b.bytes()[3]);
    assert(a.bytes()[4] == b.bytes()[4]);
    assert(a.bytes()[5] == b.bytes()[5]);
    assert(a.bytes()[6] == b.bytes()[6]);
    assert(a.bytes()[7] == b.bytes()[7]);
}

} // verus!
