use vstd::prelude::*;
use crate::bits::bit;

verus! {

/// A program status register: a 32-bit word read through named fields.
///
/// | bits  | field                       |
/// |-------|-----------------------------|
/// | 0..=4 | processor mode              |
/// | 5     | instruction-set select      |
/// | 6     | FIQ disable                 |
/// | 7     | IRQ disable                 |
/// | 27    | sticky overflow (Q)         |
/// | 28    | overflow (V)                |
/// | 29    | carry (C)                   |
/// | 30    | zero (Z)                    |
/// | 31    | negative (N)                |
#[derive(Clone, Copy, Debug, PartialEq, Eq, Structural)]
pub struct Psr {
    pub raw: u32,
}

impl Psr {
    pub open spec fn mode(self) -> u32 {
        self.raw & 0x1Fu32
    }

    pub open spec fn thumb_bit(self) -> u32 {
        bit(self.raw, 5)
    }

    pub open spec fn disable_fiq_bit(self) -> u32 {
        bit(self.raw, 6)
    }

    pub open spec fn disable_irq_bit(self) -> u32 {
        bit(self.raw, 7)
    }

    pub open spec fn q_bit(self) -> u32 {
        bit(self.raw, 27)
    }

    pub open spec fn v_bit(self) -> u32 {
        bit(self.raw, 28)
    }

    pub open spec fn c_bit(self) -> u32 {
        bit(self.raw, 29)
    }

    pub open spec fn z_bit(self) -> u32 {
        bit(self.raw, 30)
    }

    pub open spec fn n_bit(self) -> u32 {
        bit(self.raw, 31)
    }

    /// The four condition flags, as (N, Z, C, V).
    pub open spec fn flags(self) -> (u32, u32, u32, u32) {
        (self.n_bit(), self.z_bit(), self.c_bit(), self.v_bit())
    }

    /// Every field but the instruction-set select bit agrees between `self` and `o`.
    pub open spec fn same_but_thumb(self, o: Psr) -> bool {
        &&& self.mode() == o.mode()
        &&& self.disable_fiq_bit() == o.disable_fiq_bit()
        &&& self.disable_irq_bit() == o.disable_irq_bit()
        &&& self.q_bit() == o.q_bit()
        &&& self.flags() == o.flags()
    }

    pub fn new(raw: u32) -> (r: Psr)
        ensures
            r.raw == raw,
    {
        Psr { raw }
    }

    pub fn mode_bits(&self) -> (r: u32)
        ensures
            r == self.mode(),
            r < 32,
    {
        let x = self.raw;
        let r = x & 0x1F;
        assert(r < 32) by (bit_vector)
            requires
                r == x & 0x1Fu32,
        ;
        r
    }

    pub fn get_thumb_bit(&self) -> (r: u32)
        ensures
            r == self.thumb_bit(),
            r <= 1,
    {
        let x = self.raw;
        let r = (x >> 5) & 1;
        assert(r <= 1) by (bit_vector)
            requires
                r == (x >> 5u32) & 1u32,
        ;
        r
    }

    /// Writes the instruction-set select bit (1 selects the compressed set).
    pub fn set_thumb_bit(&mut self, v: u32)
        requires
            v <= 1,
        ensures
            final(self).thumb_bit() == v,
            final(self).same_but_thumb(*old(self)),
    {
        let x = self.raw;
        let y = (x & !0x20u32) | (v << 5u32);
        assert(((y >> 5u32) & 1u32) == v) by (bit_vector)
            requires
                y == (x & !0x20u32) | (v << 5u32),
                v <= 1,
        ;
        assert({
            y & 0x1Fu32 == x & 0x1Fu32
                && ((y >> 6u32) & 1u32) == ((x >> 6u32) & 1u32)
                && ((y >> 7u32) & 1u32) == ((x >> 7u32) & 1u32)
                && ((y >> 27u32) & 1u32) == ((x >> 27u32) & 1u32)
                && ((y >> 28u32) & 1u32) == ((x >> 28u32) & 1u32)
                && ((y >> 29u32) & 1u32) == ((x >> 29u32) & 1u32)
                && ((y >> 30u32) & 1u32) == ((x >> 30u32) & 1u32)
                && ((y >> 31u32) & 1u32) == ((x >> 31u32) & 1u32)
        }) by (bit_vector)
            requires
                y == (x & !0x20u32) | (v << 5u32),
                v <= 1,
        ;
        self.raw = y;
    }

    /// Writes the mode field and both interrupt-disable bits at once, keeping
    /// every other field.
    pub fn set_mode_and_masks(&mut self, mode: u32, disable_fiq: u32, disable_irq: u32)
        requires
            mode < 32,
            disable_fiq <= 1,
            disable_irq <= 1,
        ensures
            final(self).mode() == mode,
            final(self).disable_fiq_bit() == disable_fiq,
            final(self).disable_irq_bit() == disable_irq,
            final(self).thumb_bit() == old(self).thumb_bit(),
            final(self).q_bit() == old(self).q_bit(),
            final(self).flags() == old(self).flags(),
    {
        let x = self.raw;
        let y = (x & !0xDFu32) | mode | (disable_fiq << 6u32) | (disable_irq << 7u32);
        assert({
            y & 0x1Fu32 == mode
                && ((y >> 6u32) & 1u32) == disable_fiq
                && ((y >> 7u32) & 1u32) == disable_irq
                && ((y >> 5u32) & 1u32) == ((x >> 5u32) & 1u32)
                && ((y >> 27u32) & 1u32) == ((x >> 27u32) & 1u32)
                && ((y >> 28u32) & 1u32) == ((x >> 28u32) & 1u32)
                && ((y >> 29u32) & 1u32) == ((x >> 29u32) & 1u32)
                && ((y >> 30u32) & 1u32) == ((x >> 30u32) & 1u32)
                && ((y >> 31u32) & 1u32) == ((x >> 31u32) & 1u32)
        }) by (bit_vector)
            requires
                y == (x & !0xDFu32) | mode | (disable_fiq << 6u32) | (disable_irq << 7u32),
                mode < 32,
                disable_fiq <= 1,
                disable_irq <= 1,
        ;
        self.raw = y;
    }
}

/// Whether condition code `cond` holds for the flags N, Z, C, V (each 0 or 1),
/// by the processor's condition table. The reserved code 0b1111 always holds.
pub open spec fn cond_holds(cond: u32, n: u32, z: u32, c: u32, v: u32) -> bool {
    let (n, z, c, v) = (n == 1, z == 1, c == 1, v == 1);
    if cond == 0x0 {
        z  // EQ
    } else if cond == 0x1 {
        !z  // NE
    } else if cond == 0x2 {
        c  // CS/HS
    } else if cond == 0x3 {
        !c  // CC/LO
    } else if cond == 0x4 {
        n  // MI
    } else if cond == 0x5 {
        !n  // PL
    } else if cond == 0x6 {
        v  // VS
    } else if cond == 0x7 {
        !v  // VC
    } else if cond == 0x8 {
        c && !z  // HI
    } else if cond == 0x9 {
        !c || z  // LS
    } else if cond == 0xA {
        n == v  // GE
    } else if cond == 0xB {
        n != v  // LT
    } else if cond == 0xC {
        !z && n == v  // GT
    } else if cond == 0xD {
        z || n != v  // LE
    } else {
        true  // AL and the reserved code
    }
}

/// Whether condition `cond` passes under the flags of `psr`.
pub open spec fn passes(cond: u32, psr: Psr) -> bool {
    cond_holds(cond, psr.n_bit(), psr.z_bit(), psr.c_bit(), psr.v_bit())
}

/// Evaluates the 4-bit condition code `cond` against the flags of `cpsr`.
pub fn cond_passed(cond: u32, cpsr: &Psr) -> (r: bool)
    requires
        cond < 16,
    ensures
        r == passes(cond, *cpsr),
{
    let n = (cpsr.raw >> 31) & 1 == 1;
    let z = (cpsr.raw >> 30) & 1 == 1;
    let c = (cpsr.raw >> 29) & 1 == 1;
    let v = (cpsr.raw >> 28) & 1 == 1;
    match cond {
        0x0 => z,
        0x1 => !z,
        0x2 => c,
        0x3 => !c,
        0x4 => n,
        0x5 => !n,
        0x6 => v,
        0x7 => !v,
        0x8 => c && !z,
        0x9 => !c || z,
        0xA => n == v,
        0xB => n != v,
        0xC => !z && n == v,
        0xD => z || n != v,
        _ => true,
    }
}

} // verus!
