use vstd::prelude::*;

verus! {

/// Bit of the status register that records a zero result.
pub const ZERO_FLAG: u8 = 0b0000_0010;

/// Bit of the status register that records a result with bit 7 set.
pub const NEGATIVE_FLAG: u8 = 0b1000_0000;

/// The status byte after the zero and negative bits have been recomputed
/// from `result`; the other six bits are kept.
pub open spec fn with_zero_and_negative(status: u8, result: u8) -> u8 {
    let z: u8 = if result == 0 {
        status | ZERO_FLAG
    } else {
        status & !ZERO_FLAG
    };
    if result & NEGATIVE_FLAG != 0 {
        z | NEGATIVE_FLAG
    } else {
        z & !NEGATIVE_FLAG
    }
}

/// Recomputing the flags sets the zero bit exactly when the result is zero,
/// sets the negative bit exactly when bit 7 of the result is set, and leaves
/// every other bit as it was.
pub proof fn lemma_zero_and_negative(status: u8, result: u8)
    ensures
        (with_zero_and_negative(status, result) & ZERO_FLAG != 0) == (result == 0),
        (with_zero_and_negative(status, result) & NEGATIVE_FLAG != 0) == (result >= 0x80),
        with_zero_and_negative(status, result) & 0b0111_1101 == status & 0b0111_1101,
{
    let s = status;
    let r = result;
    assert(((if r == 0 { s | 2u8 } else { s & !2u8 }) & 2u8 != 0) == (r == 0)) by (bit_vector);
    assert((r & 0x80u8 != 0) == (r >= 0x80u8)) by (bit_vector);
    let z: u8 = if r == 0 { s | 2u8 } else { s & !2u8 };
    assert(((if r & 0x80u8 != 0 { z | 0x80u8 } else { z & !0x80u8 }) & 2u8 != 0) == (z & 2u8 != 0))
        by (bit_vector);
    assert(((if r & 0x80u8 != 0 { z | 0x80u8 } else { z & !0x80u8 }) & 0x80u8 != 0) == (r & 0x80u8
        != 0)) by (bit_vector);
    assert((if r & 0x80u8 != 0 { z | 0x80u8 } else { z & !0x80u8 }) & 0x7du8 == z & 0x7du8)
        by (bit_vector);
    assert((if r == 0 { s | 2u8 } else { s & !2u8 }) & 0x7du8 == s & 0x7du8) by (bit_vector);
}

/// The processor status register: an eight-bit set of flags.
pub struct StatusRegister {
    bits: u8,
}

impl View for StatusRegister {
    type V = u8;

    closed spec fn view(&self) -> u8 {
        self.bits
    }
}

impl StatusRegister {
    /// A status register with every flag clear.
    pub fn new() -> (r: StatusRegister)
        ensures
            r@ == 0,
    {
        StatusRegister { bits: 0 }
    }

    /// The raw status byte.
    pub fn bits(&self) -> (r: u8)
        ensures
            r == self@,
    {
        self.bits
    }

    /// Clears every flag.
    pub fn clear(&mut self)
        ensures
            final(self)@ == 0,
    {
        self.bits = 0;
    }

    /// Whether the zero flag is set.
    pub fn is_zero(&self) -> (r: bool)
        ensures
            r == (self@ & ZERO_FLAG != 0),
    {
        self.bits & ZERO_FLAG != 0
    }

    /// Whether the negative flag is set.
    pub fn is_negative(&self) -> (r: bool)
        ensures
            r == (self@ & NEGATIVE_FLAG != 0),
    {
        self.bits & NEGATIVE_FLAG != 0
    }

    /// Sets the zero flag if `result` is zero and the negative flag if bit 7
    /// of `result` is set, clearing each otherwise; other bits are kept.
    pub fn update_zero_and_negative(&mut self, result: u8)
        ensures
            final(self)@ == with_zero_and_negative(old(self)@, result),
    {
        if result == 0 {
            self.bits = self.bits | ZERO_FLAG;
        } else {
            self.bits = self.bits & !ZERO_FLAG;
        }
        if result & NEGATIVE_FLAG != 0 {
            self.bits = self.bits | NEGATIVE_FLAG;
        } else {
            self.bits = self.bits & !NEGATIVE_FLAG;
        }
    }
}

} // verus!
