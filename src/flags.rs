use vstd::prelude::*;

verus! {

/// Carry.
pub const FLAG_C: u8 = 0x01;
/// Zero.
pub const FLAG_Z: u8 = 0x02;
/// IRQ disable.
pub const FLAG_I: u8 = 0x04;
/// Decimal (no arithmetic effect on the 2A03).
pub const FLAG_D: u8 = 0x08;
/// Break: only ever set in a byte pushed by BRK or PHP.
pub const FLAG_B: u8 = 0x10;
/// Unused bit, reads as 1.
pub const FLAG_U: u8 = 0x20;
/// Overflow.
pub const FLAG_V: u8 = 0x40;
/// Negative.
pub const FLAG_N: u8 = 0x80;

/// `p` with the bits of `mask` set when `on`, cleared otherwise.
pub open spec fn with_flag(p: u8, mask: u8, on: bool) -> u8 {
    if on {
        p | mask
    } else {
        p & !mask
    }
}

/// Whether every bit of `mask` is set in `p`.
pub open spec fn has_flag(p: u8, mask: u8) -> bool {
    p & mask == mask
}

/// `p` with Z and N taken from `v`.
pub open spec fn with_nz(p: u8, v: u8) -> u8 {
    with_flag(with_flag(p, FLAG_Z, v == 0), FLAG_N, v & 0x80 != 0)
}

/// The processor status byte P.
#[derive(Clone, Copy, Debug, PartialEq, Eq, Structural)]
pub struct CpuFlags {
    pub bits: u8,
}

impl CpuFlags {
    pub fn from_bits(bits: u8) -> (r: CpuFlags)
        ensures
            r.bits == bits,
    {
        CpuFlags { bits }
    }

    pub fn bits(&self) -> (r: u8)
        ensures
            r == self.bits,
    {
        self.bits
    }

    pub fn contains(&self, mask: u8) -> (r: bool)
        ensures
            r == has_flag(self.bits, mask),
    {
        self.bits & mask == mask
    }

    /// 1 when every bit of `flag` is set, else 0.
    pub fn get_bit(&self, flag: CpuFlags) -> (r: u8)
        ensures
            r == (if has_flag(self.bits, flag.bits) { 1u8 } else { 0u8 }),
    {
        if self.contains(flag.bits) {
            1
        } else {
            0
        }
    }

    pub fn set(&mut self, mask: u8, on: bool)
        ensures
            final(self).bits == with_flag(old(self).bits, mask, on),
    {
        if on {
            self.bits = self.bits | mask;
        } else {
            self.bits = self.bits & !mask;
        }
    }

    pub fn insert(&mut self, mask: u8)
        ensures
            final(self).bits == with_flag(old(self).bits, mask, true),
    {
        self.set(mask, true);
    }

    pub fn remove(&mut self, mask: u8)
        ensures
            final(self).bits == with_flag(old(self).bits, mask, false),
    {
        self.set(mask, false);
    }

    /// Z from `result == 0`, N from bit 7 of `result`.
    pub fn set_nz(&mut self, result: u8)
        ensures
            final(self).bits == with_nz(old(self).bits, result),
    {
        self.set(FLAG_Z, result == 0);
        self.set(FLAG_N, result & 0x80 != 0);
    }
}

/// Setting a single flag bit makes it read back as set or clear, and leaves
/// every other single-bit flag as it was.
pub proof fn lemma_with_flag_reads(p: u8, mask: u8, on: bool, other: u8)
    requires
        mask == FLAG_C || mask == FLAG_Z || mask == FLAG_I || mask == FLAG_D || mask == FLAG_B
            || mask == FLAG_U || mask == FLAG_V || mask == FLAG_N,
        other == FLAG_C || other == FLAG_Z || other == FLAG_I || other == FLAG_D || other
            == FLAG_B || other == FLAG_U || other == FLAG_V || other == FLAG_N,
    ensures
        has_flag(with_flag(p, mask, on), mask) == on,
        other != mask ==> has_flag(with_flag(p, mask, on), other) == has_flag(p, other),
{
    let q = with_flag(p, mask, on);
    if on {
        assert(q == p | mask);
        assert(has_flag(p | mask, mask)) by (bit_vector);
        assert(other != mask ==> ((p | mask) & other == other) == (p & other == other))
            by (bit_vector)
            requires
                (mask == 1 || mask == 2 || mask == 4 || mask == 8 || mask == 16 || mask == 32
                    || mask == 64 || mask == 128),
                (other == 1 || other == 2 || other == 4 || other == 8 || other == 16 || other
                    == 32 || other == 64 || other == 128),
        ;
    } else {
        assert(q == p & !mask);
        assert(mask != 0 ==> (p & !mask) & mask != mask) by (bit_vector);
        assert(other != mask ==> ((p & !mask) & other == other) == (p & other == other))
            by (bit_vector)
            requires
                (mask == 1 || mask == 2 || mask == 4 || mask == 8 || mask == 16 || mask == 32
                    || mask == 64 || mask == 128),
                (other == 1 || other == 2 || other == 4 || other == 8 || other == 16 || other
                    == 32 || other == 64 || other == 128),
        ;
    }
}

} // verus!
