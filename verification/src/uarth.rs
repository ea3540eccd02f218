//! UARTHS: the high-speed UART's baud divider and enables.
use vstd::prelude::*;
use crate::regfield::{with_field32, set_field32, flag32, bit32};

verus! {

/// Baud rate divisor register.
pub struct DIV {
    pub bits: u32,
}

impl DIV {
    pub fn read(&self) -> (r: u32)
        ensures
            r == self.bits,
    {
        self.bits
    }

    pub fn write(&mut self, value: u32) -> (r: &mut Self)
        ensures
            *final(self) == *final(r),
            r.bits == value,
    {
        self.bits = value;
        self
    }
}

/// Transmit control register.
pub struct TXCTRL {
    pub bits: u32,
}

impl TXCTRL {
    /// Enable or disable the transmitter (bit 0).
    pub fn txen(&mut self, value: bool) -> (r: &mut Self)
        ensures
            *final(self) == *final(r),
            r.bits == with_field32(old(self).bits, 0, 0x01, flag32(value)),
    {
        self.bits = set_field32(self.bits, 0, 0x01, bit32(value));
        self
    }
}

/// Receive control register.
pub struct RXCTRL {
    pub bits: u32,
}

impl RXCTRL {
    /// Enable or disable the receiver (bit 0).
    pub fn rxen(&mut self, value: bool) -> (r: &mut Self)
        ensures
            *final(self) == *final(r),
            r.bits == with_field32(old(self).bits, 0, 0x01, flag32(value)),
    {
        self.bits = set_field32(self.bits, 0, 0x01, bit32(value));
        self
    }
}

/// The UARTHS registers.
pub struct UARTHS {
    pub txctrl: TXCTRL,
    pub rxctrl: RXCTRL,
    pub div: DIV,
}

impl UARTHS {
    /// The registers, all zero.
    pub fn new() -> (r: Self)
        ensures
            r.txctrl.bits == 0 && r.rxctrl.bits == 0 && r.div.bits == 0,
    {
        UARTHS { txctrl: TXCTRL { bits: 0 }, rxctrl: RXCTRL { bits: 0 }, div: DIV { bits: 0 } }
    }
}

/// Configure the UART for `baud_rate` from a CPU clock of `cpu_freq` Hz:
/// the divisor is the CPU clock over the baud rate, less one; transmitter
/// and receiver enabled.
pub fn configure(uart: &mut UARTHS, baud_rate: u32, cpu_freq: u32)
    requires
        baud_rate > 0,
        cpu_freq / baud_rate >= 1,
    ensures
        final(uart).div.bits == cpu_freq / baud_rate - 1,
        final(uart).txctrl.bits == with_field32(old(uart).txctrl.bits, 0, 0x01, 1),
        final(uart).rxctrl.bits == with_field32(old(uart).rxctrl.bits, 0, 0x01, 1),
{
    let div = cpu_freq / baud_rate - 1;
    uart.div.write(div);
    uart.txctrl.txen(true);
    uart.rxctrl.rxen(true);
}

} // verus!
