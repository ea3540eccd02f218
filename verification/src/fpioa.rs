//! FPIOA: the field-programmable IO array that routes functions to pins.
use vstd::prelude::*;
use crate::regfield::{with_field32, set_field32, flag32, bit32};

verus! {

/// Number of IO pins, each with its own 32-bit configuration register.
pub const FPIOA_PINS: usize = 48;

/// The pin configuration registers `IO[0..48]`.
pub struct IO {
    pub regs: Vec<u32>,
}

impl IO {
    /// The pin registers, all zero.
    pub fn new() -> (r: Self)
        ensures
            r.regs@ == Seq::new(FPIOA_PINS as nat, |i: int| 0u32),
    {
        let mut regs: Vec<u32> = Vec::new();
        let mut i: usize = 0;
        while i < FPIOA_PINS
            invariant
                i <= FPIOA_PINS,
                regs@ == Seq::new(i as nat, |j: int| 0u32),
            decreases FPIOA_PINS - i,
        {
            regs.push(0);
            i = i + 1;
            proof {
                assert(regs@ =~= Seq::new(i as nat, |j: int| 0u32));
            }
        }
        IO { regs }
    }

    /// The register of pin `n`.
    pub fn read(&self, n: usize) -> (r: u32)
        requires
            n < self.regs@.len(),
        ensures
            r == self.regs@[n as int],
    {
        self.regs[n]
    }

    /// Replace the register of pin `n`.
    pub fn write(&mut self, n: usize, value: u32) -> (r: &mut Self)
        requires
            n < old(self).regs@.len(),
        ensures
            *final(self) == *final(r),
            r.regs@ == old(self).regs@.update(n as int, value),
    {
        self.regs.set(n, value);
        self
    }

    /// Route function `value` to pin `n` (bits 0..8).
    pub fn ch_sel(&mut self, n: usize, value: u8) -> (r: &mut Self)
        requires
            n < old(self).regs@.len(),
        ensures
            *final(self) == *final(r),
            r.regs@ == old(self).regs@.update(n as int, with_field32(old(self).regs@[n as int], 0, 0xff, value as u32)),
    {
        let v = set_field32(self.read(n), 0, 0xff, value as u32);
        self.write(n, v)
    }

    /// Set or clear the pull-up of pin `n` (bit 16).
    pub fn pu(&mut self, n: usize, value: bool) -> (r: &mut Self)
        requires
            n < old(self).regs@.len(),
        ensures
            *final(self) == *final(r),
            r.regs@ == old(self).regs@.update(n as int, with_field32(old(self).regs@[n as int], 16, 0x01, flag32(value))),
    {
        let v = set_field32(self.read(n), 16, 0x01, bit32(value));
        self.write(n, v)
    }

    /// Set or clear the pull-down of pin `n` (bit 17).
    pub fn pd(&mut self, n: usize, value: bool) -> (r: &mut Self)
        requires
            n < old(self).regs@.len(),
        ensures
            *final(self) == *final(r),
            r.regs@ == old(self).regs@.update(n as int, with_field32(old(self).regs@[n as int], 17, 0x01, flag32(value))),
    {
        let v = set_field32(self.read(n), 17, 0x01, bit32(value));
        self.write(n, v)
    }
}

/// One of the eight tie enable registers.
#[derive(Clone, Copy)]
pub struct TIE_EN {}

impl TIE_EN {
    pub fn new() -> (r: Self) {
        TIE_EN {}
    }
}

/// One of the eight tie value registers.
#[derive(Clone, Copy)]
pub struct TIE_VAL {}

impl TIE_VAL {
    pub fn new() -> (r: Self) {
        TIE_VAL {}
    }
}

/// The FPIOA's registers: the pin array, then the tie enable and tie value
/// arrays.
pub struct Fpioa {
    pub io: IO,
    pub tie_en: [TIE_EN; 8],
    pub tie_val: [TIE_VAL; 8],
}

impl Fpioa {
    /// The registers, every pin register zero.
    pub fn new() -> (r: Self)
        ensures
            r.io.regs@ == Seq::new(FPIOA_PINS as nat, |i: int| 0u32),
    {
        Fpioa { io: IO::new(), tie_en: [TIE_EN::new(); 8], tie_val: [TIE_VAL::new(); 8] }
    }
}

/// FPIOA peripheral.
pub struct FPIOA {
    pub fpioa: Fpioa,
}

impl FPIOA {
    pub fn new() -> (r: Self)
        ensures
            r.fpioa.io.regs@ == Seq::new(FPIOA_PINS as nat, |i: int| 0u32),
    {
        FPIOA { fpioa: Fpioa::new() }
    }
}

} // verus!
