//! The eight bits of the processor status register.
use vstd::prelude::*;

verus! {

/// One named bit of the status register.
#[derive(Clone, Copy, PartialEq, Eq, Structural, Debug)]
pub enum StatusFlag {
    /// Carry.
    C,
    /// Zero.
    Z,
    /// Interrupt disable.
    I,
    /// Decimal mode.
    D,
    /// Break.
    B,
    /// Unused; wired to 1 on the real chip.
    U,
    /// Overflow.
    V,
    /// Negative.
    N,
}

impl StatusFlag {
    /// The single-bit mask of this flag within the status byte.
    pub open spec fn mask(self) -> u8 {
        match self {
            StatusFlag::C => 0x01,
            StatusFlag::Z => 0x02,
            StatusFlag::I => 0x04,
            StatusFlag::D => 0x08,
            StatusFlag::B => 0x10,
            StatusFlag::U => 0x20,
            StatusFlag::V => 0x40,
            StatusFlag::N => 0x80,
        }
    }

    pub fn as_u8(&self) -> (r: u8)
        ensures
            r == self.mask(),
    {
        match self {
            StatusFlag::C => 0x01,
            StatusFlag::Z => 0x02,
            StatusFlag::I => 0x04,
            StatusFlag::D => 0x08,
            StatusFlag::B => 0x10,
            StatusFlag::U => 0x20,
            StatusFlag::V => 0x40,
            StatusFlag::N => 0x80,
        }
    }
}

/// Whether `flag` is set in the status byte `status`.
pub open spec fn flag(status: u8, f: StatusFlag) -> bool {
    status & f.mask() != 0
}

/// `status` with exactly the bit of `f` set to `v`.
pub open spec fn with_flag(status: u8, f: StatusFlag, v: bool) -> u8 {
    if v {
        status | f.mask()
    } else {
        status & !f.mask()
    }
}

/// `status` with Zero and Negative set from the byte `v`.
pub open spec fn with_zn(status: u8, v: u8) -> u8 {
    with_flag(with_flag(status, StatusFlag::Z, v == 0), StatusFlag::N, v >= 0x80)
}

proof fn lemma_masks_bits(s: u8, m: u8, k: u8, v: bool)
    by (bit_vector)
    requires
        m == 1 || m == 2 || m == 4 || m == 8 || m == 16 || m == 32 || m == 64 || m == 128,
        k == 1 || k == 2 || k == 4 || k == 8 || k == 16 || k == 32 || k == 64 || k == 128,
    ensures
        ((if v { s | m } else { s & !m }) & m != 0) == v,
        m != k ==> (((if v { s | m } else { s & !m }) & k != 0) == (s & k != 0)),
{
}

/// Setting one flag gives it the new value and leaves every other flag as it was.
pub proof fn lemma_with_flag(status: u8, f: StatusFlag, g: StatusFlag, v: bool)
    ensures
        flag(with_flag(status, f, v), f) == v,
        f != g ==> flag(with_flag(status, f, v), g) == flag(status, g),
{
    lemma_masks_bits(status, f.mask(), g.mask(), v);
}

} // verus!
