//! GPIOHS: the high-speed GPIO controller, one bit per pin in each register.
use vstd::prelude::*;
use crate::regfield::{with_field32, field32, flag32, set_bit, get_bit};

verus! {

/// Direction of a pin.
#[derive(Clone, Copy, Debug, PartialEq, Eq, Structural)]
pub enum direction {
    INPUT,
    OUTPUT,
}

/// Input value register.
pub struct INPUT_VAL {
    pub bits: u32,
}

impl INPUT_VAL {
    pub fn read(&self) -> (r: u32)
        ensures
            r == self.bits,
    {
        self.bits
    }

    pub fn write(&mut self, value: u32) -> (r: &mut Self)
        ensures
            *final(self) == *final(r),
            r.bits == value,
    {
        self.bits = value;
        self
    }
}

/// Pin input enable register.
pub struct INPUT_EN {
    pub bits: u32,
}

impl INPUT_EN {
    pub fn read(&self) -> (r: u32)
        ensures
            r == self.bits,
    {
        self.bits
    }

    pub fn write(&mut self, value: u32) -> (r: &mut Self)
        ensures
            *final(self) == *final(r),
            r.bits == value,
    {
        self.bits = value;
        self
    }
}

/// Pin output enable register.
pub struct OUTPUT_EN {
    pub bits: u32,
}

impl OUTPUT_EN {
    pub fn read(&self) -> (r: u32)
        ensures
            r == self.bits,
    {
        self.bits
    }

    pub fn write(&mut self, value: u32) -> (r: &mut Self)
        ensures
            *final(self) == *final(r),
            r.bits == value,
    {
        self.bits = value;
        self
    }
}

/// Output value register.
pub struct OUTPUT_VAL {
    pub bits: u32,
}

impl OUTPUT_VAL {
    pub fn read(&self) -> (r: u32)
        ensures
            r == self.bits,
    {
        self.bits
    }

    pub fn write(&mut self, value: u32) -> (r: &mut Self)
        ensures
            *final(self) == *final(r),
            r.bits == value,
    {
        self.bits = value;
        self
    }
}

/// The GPIOHS registers.
pub struct Gpiohs {
    pub input_val: INPUT_VAL,
    pub input_en: INPUT_EN,
    pub output_en: OUTPUT_EN,
    pub output_val: OUTPUT_VAL,
}

impl Gpiohs {
    /// The registers, all zero.
    pub fn new() -> (r: Self)
        ensures
            r.input_val.bits == 0 && r.input_en.bits == 0 && r.output_en.bits == 0 && r.output_val.bits == 0,
    {
        Gpiohs {
            input_val: INPUT_VAL { bits: 0 },
            input_en: INPUT_EN { bits: 0 },
            output_en: OUTPUT_EN { bits: 0 },
            output_val: OUTPUT_VAL { bits: 0 },
        }
    }
}

/// GPIOHS peripheral.
pub struct GPIOHS {
    pub gpiohs: Gpiohs,
}

impl GPIOHS {
    pub fn new() -> (r: Self)
        ensures
            r.gpiohs.input_val.bits == 0 && r.gpiohs.input_en.bits == 0 && r.gpiohs.output_en.bits == 0
                && r.gpiohs.output_val.bits == 0,
    {
        GPIOHS { gpiohs: Gpiohs::new() }
    }
}

/// Make `pin` an input or an output: its output enable bit is set for an
/// output and its input enable bit for an input, the other one cleared.
pub fn set_direction(gpio: &mut Gpiohs, pin: u8, direction: direction)
    requires
        pin < 32,
    ensures
        final(gpio).output_en.bits == with_field32(old(gpio).output_en.bits, pin as u32, 1, flag32(direction is OUTPUT)),
        final(gpio).input_en.bits == with_field32(old(gpio).input_en.bits, pin as u32, 1, flag32(direction is INPUT)),
        final(gpio).input_val == old(gpio).input_val,
        final(gpio).output_val == old(gpio).output_val,
{
    let oe = set_bit(gpio.output_en.read(), pin, direction == direction::OUTPUT);
    gpio.output_en.write(oe);
    let ie = set_bit(gpio.input_en.read(), pin, direction == direction::INPUT);
    gpio.input_en.write(ie);
}

/// Drive output `pin` high or low.
pub fn set_pin(gpio: &mut Gpiohs, pin: u8, value: bool)
    requires
        pin < 32,
    ensures
        final(gpio).output_val.bits == with_field32(old(gpio).output_val.bits, pin as u32, 1, flag32(value)),
        final(gpio).input_val == old(gpio).input_val,
        final(gpio).input_en == old(gpio).input_en,
        final(gpio).output_en == old(gpio).output_en,
{
    let v = set_bit(gpio.output_val.read(), pin, value);
    gpio.output_val.write(v);
}

/// The input value of `pin`.
pub fn get_pin(gpio: &Gpiohs, pin: u8) -> (r: bool)
    requires
        pin < 32,
    ensures
        r == (field32(gpio.input_val.bits, pin as u32, 1) != 0),
{
    get_bit(gpio.input_val.read(), pin)
}

} // verus!
