//! The processor status register: eight independent condition flags packed
//! into one byte, laid out `NVss DIZC` from bit 7 down to bit 0.  The two
//! `s` bits have no processor effect and are kept only as emulation
//! bookkeeping.

use vstd::prelude::*;

verus! {

/// Bit mask of the Carry flag (bit 0).
pub const CARRY: u8 = 0x01;

/// Bit mask of the Zero flag (bit 1).
pub const ZERO: u8 = 0x02;

/// Bit mask of the Interrupt-Disable flag (bit 2).
pub const INTERRUPT_DISABLE: u8 = 0x04;

/// Bit mask of the Decimal flag (bit 3).
pub const DECIMAL: u8 = 0x08;

/// Bit mask of the first bookkeeping flag (bit 4); no processor effect.
pub const BREAK_1: u8 = 0x10;

/// Bit mask of the second bookkeeping flag (bit 5); no processor effect.
pub const BREAK_2: u8 = 0x20;

/// Bit mask of the Overflow flag (bit 6).
pub const OVERFLOW: u8 = 0x40;

/// Bit mask of the Negative flag (bit 7).
pub const NEGATIVE: u8 = 0x80;

/// The packed status register.
#[derive(Clone, Copy, Debug, PartialEq, Eq, Structural)]
pub struct Status {
    pub bits: u8,
}

impl Status {
    /// The Carry flag (bit 0).
    pub open spec fn spec_carry(&self) -> bool {
        self.bits & CARRY != 0
    }

    /// The Zero flag (bit 1).
    pub open spec fn spec_zero(&self) -> bool {
        self.bits & ZERO != 0
    }

    /// The Interrupt-Disable flag (bit 2).
    pub open spec fn spec_interrupt_disable(&self) -> bool {
        self.bits & INTERRUPT_DISABLE != 0
    }

    /// The Decimal flag (bit 3).
    pub open spec fn spec_decimal(&self) -> bool {
        self.bits & DECIMAL != 0
    }

    /// The first bookkeeping flag (bit 4).
    pub open spec fn spec_break_1(&self) -> bool {
        self.bits & BREAK_1 != 0
    }

    /// The second bookkeeping flag (bit 5).
    pub open spec fn spec_break_2(&self) -> bool {
        self.bits & BREAK_2 != 0
    }

    /// The Overflow flag (bit 6).
    pub open spec fn spec_overflow(&self) -> bool {
        self.bits & OVERFLOW != 0
    }

    /// The Negative flag (bit 7).
    pub open spec fn spec_negative(&self) -> bool {
        self.bits & NEGATIVE != 0
    }

    #[verifier::when_used_as_spec(spec_carry)]
    pub fn carry(&self) -> (r: bool)
        ensures
            r == self.spec_carry(),
    {
        self.bits & CARRY != 0
    }

    #[verifier::when_used_as_spec(spec_zero)]
    pub fn zero(&self) -> (r: bool)
        ensures
            r == self.spec_zero(),
    {
        self.bits & ZERO != 0
    }

    #[verifier::when_used_as_spec(spec_interrupt_disable)]
    pub fn interrupt_disable(&self) -> (r: bool)
        ensures
            r == self.spec_interrupt_disable(),
    {
        self.bits & INTERRUPT_DISABLE != 0
    }

    #[verifier::when_used_as_spec(spec_decimal)]
    pub fn decimal(&self) -> (r: bool)
        ensures
            r == self.spec_decimal(),
    {
        self.bits & DECIMAL != 0
    }

    #[verifier::when_used_as_spec(spec_break_1)]
    pub fn break_1(&self) -> (r: bool)
        ensures
            r == self.spec_break_1(),
    {
        self.bits & BREAK_1 != 0
    }

    #[verifier::when_used_as_spec(spec_break_2)]
    pub fn break_2(&self) -> (r: bool)
        ensures
            r == self.spec_break_2(),
    {
        self.bits & BREAK_2 != 0
    }

    #[verifier::when_used_as_spec(spec_overflow)]
    pub fn overflow(&self) -> (r: bool)
        ensures
            r == self.spec_overflow(),
    {
        self.bits & OVERFLOW != 0
    }

    #[verifier::when_used_as_spec(spec_negative)]
    pub fn negative(&self) -> (r: bool)
        ensures
            r == self.spec_negative(),
    {
        self.bits & NEGATIVE != 0
    }

    /// Sets the Carry flag and leaves the other seven flags unchanged.
    pub fn set_carry(&mut self, value: bool)
        ensures
            final(self).spec_carry() == value,
            final(self).spec_zero() == old(self).spec_zero(),
            final(self).spec_interrupt_disable() == old(self).spec_interrupt_disable(),
            final(self).spec_decimal() == old(self).spec_decimal(),
            final(self).spec_break_1() == old(self).spec_break_1(),
            final(self).spec_break_2() == old(self).spec_break_2(),
            final(self).spec_overflow() == old(self).spec_overflow(),
            final(self).spec_negative() == old(self).spec_negative(),
    {
        if value {
            self.bits = self.bits | CARRY;
            proof {
                let b0 = old(self).bits;
                let b1 = self.bits;
                assert(b1 & 0x01 != 0 && b1 & 0x02 == b0 & 0x02 && b1 & 0x04 == b0 & 0x04
                    && b1 & 0x08 == b0 & 0x08 && b1 & 0x10 == b0 & 0x10 && b1 & 0x20 == b0 & 0x20
                    && b1 & 0x40 == b0 & 0x40 && b1 & 0x80 == b0 & 0x80) by (bit_vector)
                    requires
                        b1 == b0 | 0x01,
                ;
            }
        } else {
            self.bits = self.bits & !CARRY;
            proof {
                let b0 = old(self).bits;
                let b1 = self.bits;
                assert(b1 & 0x01 == 0 && b1 & 0x02 == b0 & 0x02 && b1 & 0x04 == b0 & 0x04
                    && b1 & 0x08 == b0 & 0x08 && b1 & 0x10 == b0 & 0x10 && b1 & 0x20 == b0 & 0x20
                    && b1 & 0x40 == b0 & 0x40 && b1 & 0x80 == b0 & 0x80) by (bit_vector)
                    requires
                        b1 == b0 & !0x01u8,
                ;
            }
        }
    }

    /// Sets the Zero flag and leaves the other seven flags unchanged.
    pub fn set_zero(&mut self, value: bool)
        ensures
            final(self).spec_zero() == value,
            final(self).spec_carry() == old(self).spec_carry(),
            final(self).spec_interrupt_disable() == old(self).spec_interrupt_disable(),
            final(self).spec_decimal() == old(self).spec_decimal(),
            final(self).spec_break_1() == old(self).spec_break_1(),
            final(self).spec_break_2() == old(self).spec_break_2(),
            final(self).spec_overflow() == old(self).spec_overflow(),
            final(self).spec_negative() == old(self).spec_negative(),
    {
        if value {
            self.bits = self.bits | ZERO;
            proof {
                let b0 = old(self).bits;
                let b1 = self.bits;
                assert(b1 & 0x02 != 0 && b1 & 0x01 == b0 & 0x01 && b1 & 0x04 == b0 & 0x04
                    && b1 & 0x08 == b0 & 0x08 && b1 & 0x10 == b0 & 0x10 && b1 & 0x20 == b0 & 0x20
                    && b1 & 0x40 == b0 & 0x40 && b1 & 0x80 == b0 & 0x80) by (bit_vector)
                    requires
                        b1 == b0 | 0x02,
                ;
            }
        } else {
            self.bits = self.bits & !ZERO;
            proof {
                let b0 = old(self).bits;
                let b1 = self.bits;
                assert(b1 & 0x02 == 0 && b1 & 0x01 == b0 & 0x01 && b1 & 0x04 == b0 & 0x04
                    && b1 & 0x08 == b0 & 0x08 && b1 & 0x10 == b0 & 0x10 && b1 & 0x20 == b0 & 0x20
                    && b1 & 0x40 == b0 & 0x40 && b1 & 0x80 == b0 & 0x80) by (bit_vector)
                    requires
                        b1 == b0 & !0x02u8,
                ;
            }
        }
    }

    /// Sets the Interrupt-Disable flag and leaves the other seven flags unchanged.
    pub fn set_interrupt_disable(&mut self, value: bool)
        ensures
            final(self).spec_interrupt_disable() == value,
            final(self).spec_carry() == old(self).spec_carry(),
            final(self).spec_zero() == old(self).spec_zero(),
            final(self).spec_decimal() == old(self).spec_decimal(),
            final(self).spec_break_1() == old(self).spec_break_1(),
            final(self).spec_break_2() == old(self).spec_break_2(),
            final(self).spec_overflow() == old(self).spec_overflow(),
            final(self).spec_negative() == old(self).spec_negative(),
    {
        if value {
            self.bits = self.bits | INTERRUPT_DISABLE;
            proof {
                let b0 = old(self).bits;
                let b1 = self.bits;
                assert(b1 & 0x04 != 0 && b1 & 0x01 == b0 & 0x01 && b1 & 0x02 == b0 & 0x02
                    && b1 & 0x08 == b0 & 0x08 && b1 & 0x10 == b0 & 0x10 && b1 & 0x20 == b0 & 0x20
                    && b1 & 0x40 == b0 & 0x40 && b1 & 0x80 == b0 & 0x80) by (bit_vector)
                    requires
                        b1 == b0 | 0x04,
                ;
            }
        } else {
            self.bits = self.bits & !INTERRUPT_DISABLE;
            proof {
                let b0 = old(self).bits;
                let b1 = self.bits;
                assert(b1 & 0x04 == 0 && b1 & 0x01 == b0 & 0x01 && b1 & 0x02 == b0 & 0x02
                    && b1 & 0x08 == b0 & 0x08 && b1 & 0x10 == b0 & 0x10 && b1 & 0x20 == b0 & 0x20
                    && b1 & 0x40 == b0 & 0x40 && b1 & 0x80 == b0 & 0x80) by (bit_vector)
                    requires
                        b1 == b0 & !0x04u8,
                ;
            }
        }
    }

    /// Sets the Decimal flag and leaves the other seven flags unchanged.
    pub fn set_decimal(&mut self, value: bool)
        ensures
            final(self).spec_decimal() == value,
            final(self).spec_carry() == old(self).spec_carry(),
            final(self).spec_zero() == old(self).spec_zero(),
            final(self).spec_interrupt_disable() == old(self).spec_interrupt_disable(),
            final(self).spec_break_1() == old(self).spec_break_1(),
            final(self).spec_break_2() == old(self).spec_break_2(),
            final(self).spec_overflow() == old(self).spec_overflow(),
            final(self).spec_negative() == old(self).spec_negative(),
    {
        if value {
            self.bits = self.bits | DECIMAL;
            proof {
                let b0 = old(self).bits;
                let b1 = self.bits;
                assert(b1 & 0x08 != 0 && b1 & 0x01 == b0 & 0x01 && b1 & 0x02 == b0 & 0x02
                    && b1 & 0x04 == b0 & 0x04 && b1 & 0x10 == b0 & 0x10 && b1 & 0x20 == b0 & 0x20
                    && b1 & 0x40 == b0 & 0x40 && b1 & 0x80 == b0 & 0x80) by (bit_vector)
                    requires
                        b1 == b0 | 0x08,
                ;
            }
        } else {
            self.bits = self.bits & !DECIMAL;
            proof {
                let b0 = old(self).bits;
                let b1 = self.bits;
                assert(b1 & 0x08 == 0 && b1 & 0x01 == b0 & 0x01 && b1 & 0x02 == b0 & 0x02
                    && b1 & 0x04 == b0 & 0x04 && b1 & 0x10 == b0 & 0x10 && b1 & 0x20 == b0 & 0x20
                    && b1 & 0x40 == b0 & 0x40 && b1 & 0x80 == b0 & 0x80) by (bit_vector)
                    requires
                        b1 == b0 & !0x08u8,
                ;
            }
        }
    }

    /// Sets the first bookkeeping flag and leaves the other seven flags unchanged.
    pub fn set_break_1(&mut self, value: bool)
        ensures
            final(self).spec_break_1() == value,
            final(self).spec_carry() == old(self).spec_carry(),
            final(self).spec_zero() == old(self).spec_zero(),
            final(self).spec_interrupt_disable() == old(self).spec_interrupt_disable(),
            final(self).spec_decimal() == old(self).spec_decimal(),
            final(self).spec_break_2() == old(self).spec_break_2(),
            final(self).spec_overflow() == old(self).spec_overflow(),
            final(self).spec_negative() == old(self).spec_negative(),
    {
        if value {
            self.bits = self.bits | BREAK_1;
            proof {
                let b0 = old(self).bits;
                let b1 = self.bits;
                assert(b1 & 0x10 != 0 && b1 & 0x01 == b0 & 0x01 && b1 & 0x02 == b0 & 0x02
                    && b1 & 0x04 == b0 & 0x04 && b1 & 0x08 == b0 & 0x08 && b1 & 0x20 == b0 & 0x20
                    && b1 & 0x40 == b0 & 0x40 && b1 & 0x80 == b0 & 0x80) by (bit_vector)
                    requires
                        b1 == b0 | 0x10,
                ;
            }
        } else {
            self.bits = self.bits & !BREAK_1;
            proof {
                let b0 = old(self).bits;
                let b1 = self.bits;
                assert(b1 & 0x10 == 0 && b1 & 0x01 == b0 & 0x01 && b1 & 0x02 == b0 & 0x02
                    && b1 & 0x04 == b0 & 0x04 && b1 & 0x08 == b0 & 0x08 && b1 & 0x20 == b0 & 0x20
                    && b1 & 0x40 == b0 & 0x40 && b1 & 0x80 == b0 & 0x80) by (bit_vector)
                    requires
                        b1 == b0 & !0x10u8,
                ;
            }
        }
    }

    /// Sets the second bookkeeping flag and leaves the other seven flags unchanged.
    pub fn set_break_2(&mut self, value: bool)
        ensures
            final(self).spec_break_2() == value,
            final(self).spec_carry() == old(self).spec_carry(),
            final(self).spec_zero() == old(self).spec_zero(),
            final(self).spec_interrupt_disable() == old(self).spec_interrupt_disable(),
            final(self).spec_decimal() == old(self).spec_decimal(),
            final(self).spec_break_1() == old(self).spec_break_1(),
            final(self).spec_overflow() == old(self).spec_overflow(),
            final(self).spec_negative() == old(self).spec_negative(),
    {
        if value {
            self.bits = self.bits | BREAK_2;
            proof {
                let b0 = old(self).bits;
                let b1 = self.bits;
                assert(b1 & 0x20 != 0 && b1 & 0x01 == b0 & 0x01 && b1 & 0x02 == b0 & 0x02
                    && b1 & 0x04 == b0 & 0x04 && b1 & 0x08 == b0 & 0x08 && b1 & 0x10 == b0 & 0x10
                    && b1 & 0x40 == b0 & 0x40 && b1 & 0x80 == b0 & 0x80) by (bit_vector)
                    requires
                        b1 == b0 | 0x20,
                ;
            }
        } else {
            self.bits = self.bits & !BREAK_2;
            proof {
                let b0 = old(self).bits;
                let b1 = self.bits;
                assert(b1 & 0x20 == 0 && b1 & 0x01 == b0 & 0x01 && b1 & 0x02 == b0 & 0x02
                    && b1 & 0x04 == b0 & 0x04 && b1 & 0x08 == b0 & 0x08 && b1 & 0x10 == b0 & 0x10
                    && b1 & 0x40 == b0 & 0x40 && b1 & 0x80 == b0 & 0x80) by (bit_vector)
                    requires
                        b1 == b0 & !0x20u8,
                ;
            }
        }
    }

    /// Sets the Overflow flag and leaves the other seven flags unchanged.
    pub fn set_overflow(&mut self, value: bool)
        ensures
            final(self).spec_overflow() == value,
            final(self).spec_carry() == old(self).spec_carry(),
            final(self).spec_zero() == old(self).spec_zero(),
            final(self).spec_interrupt_disable() == old(self).spec_interrupt_disable(),
            final(self).spec_decimal() == old(self).spec_decimal(),
            final(self).spec_break_1() == old(self).spec_break_1(),
            final(self).spec_break_2() == old(self).spec_break_2(),
            final(self).spec_negative() == old(self).spec_negative(),
    {
        if value {
            self.bits = self.bits | OVERFLOW;
            proof {
                let b0 = old(self).bits;
                let b1 = self.bits;
                assert(b1 & 0x40 != 0 && b1 & 0x01 == b0 & 0x01 && b1 & 0x02 == b0 & 0x02
                    && b1 & 0x04 == b0 & 0x04 && b1 & 0x08 == b0 & 0x08 && b1 & 0x10 == b0 & 0x10
                    && b1 & 0x20 == b0 & 0x20 && b1 & 0x80 == b0 & 0x80) by (bit_vector)
                    requires
                        b1 == b0 | 0x40,
                ;
            }
        } else {
            self.bits = self.bits & !OVERFLOW;
            proof {
                let b0 = old(self).bits;
                let b1 = self.bits;
                assert(b1 & 0x40 == 0 && b1 & 0x01 == b0 & 0x01 && b1 & 0x02 == b0 & 0x02
                    && b1 & 0x04 == b0 & 0x04 && b1 & 0x08 == b0 & 0x08 && b1 & 0x10 == b0 & 0x10
                    && b1 & 0x20 == b0 & 0x20 && b1 & 0x80 == b0 & 0x80) by (bit_vector)
                    requires
                        b1 == b0 & !0x40u8,
                ;
            }
        }
    }

    /// Sets the Negative flag and leaves the other seven flags unchanged.
    pub fn set_negative(&mut self, value: bool)
        ensures
            final(self).spec_negative() == value,
            final(self).spec_carry() == old(self).spec_carry(),
            final(self).spec_zero() == old(self).spec_zero(),
            final(self).spec_interrupt_disable() == old(self).spec_interrupt_disable(),
            final(self).spec_decimal() == old(self).spec_decimal(),
            final(self).spec_break_1() == old(self).spec_break_1(),
            final(self).spec_break_2() == old(self).spec_break_2(),
            final(self).spec_overflow() == old(self).spec_overflow(),
    {
        if value {
            self.bits = self.bits | NEGATIVE;
            proof {
                let b0 = old(self).bits;
                let b1 = self.bits;
                assert(b1 & 0x80 != 0 && b1 & 0x01 == b0 & 0x01 && b1 & 0x02 == b0 & 0x02
                    && b1 & 0x04 == b0 & 0x04 && b1 & 0x08 == b0 & 0x08 && b1 & 0x10 == b0 & 0x10
                    && b1 & 0x20 == b0 & 0x20 && b1 & 0x40 == b0 & 0x40) by (bit_vector)
                    requires
                        b1 == b0 | 0x80,
                ;
            }
        } else {
            self.bits = self.bits & !NEGATIVE;
            proof {
                let b0 = old(self).bits;
                let b1 = self.bits;
                assert(b1 & 0x80 == 0 && b1 & 0x01 == b0 & 0x01 && b1 & 0x02 == b0 & 0x02
                    && b1 & 0x04 == b0 & 0x04 && b1 & 0x08 == b0 & 0x08 && b1 & 0x10 == b0 & 0x10
                    && b1 & 0x20 == b0 & 0x20 && b1 & 0x40 == b0 & 0x40) by (bit_vector)
                    requires
                        b1 == b0 & !0x80u8,
                ;
            }
        }
    }

    /// Returns a copy with the Carry flag set to `value` and the other seven
    /// flags as in `self`.
    pub fn with_carry(self, value: bool) -> (r: Status)
        ensures
            r.spec_carry() == value,
            r.spec_zero() == self.spec_zero(),
            r.spec_interrupt_disable() == self.spec_interrupt_disable(),
            r.spec_decimal() == self.spec_decimal(),
            r.spec_break_1() == self.spec_break_1(),
            r.spec_break_2() == self.spec_break_2(),
            r.spec_overflow() == self.spec_overflow(),
            r.spec_negative() == self.spec_negative(),
    {
        let mut s = self;
        s.set_carry(value);
        s
    }

    /// Returns a copy with the Interrupt-Disable flag set to `value` and the
    /// other seven flags as in `self`.
    pub fn with_interrupt_disable(self, value: bool) -> (r: Status)
        ensures
            r.spec_interrupt_disable() == value,
            r.spec_carry() == self.spec_carry(),
            r.spec_zero() == self.spec_zero(),
            r.spec_decimal() == self.spec_decimal(),
            r.spec_break_1() == self.spec_break_1(),
            r.spec_break_2() == self.spec_break_2(),
            r.spec_overflow() == self.spec_overflow(),
            r.spec_negative() == self.spec_negative(),
    {
        let mut s = self;
        s.set_interrupt_disable(value);
        s
    }
}

impl Default for Status {
    /// The power-up status byte with every flag clear.
    fn default() -> (r: Status)
        ensures
            r.bits == 0,
            !r.spec_carry(),
            !r.spec_zero(),
            !r.spec_interrupt_disable(),
            !r.spec_decimal(),
            !r.spec_break_1(),
            !r.spec_break_2(),
            !r.spec_overflow(),
            !r.spec_negative(),
    {
        proof {
            assert(0x00u8 & 0x01 == 0 && 0x00u8 & 0x02 == 0 && 0x00u8 & 0x04 == 0
                && 0x00u8 & 0x08 == 0 && 0x00u8 & 0x10 == 0 && 0x00u8 & 0x20 == 0
                && 0x00u8 & 0x40 == 0 && 0x00u8 & 0x80 == 0) by (bit_vector);
        }
        Status { bits: 0 }
    }
}

} // verus!
