//! SYSCTL peripheral: clock tree, clock enables, dividers, resets and DMA
//! handshake selection, over the controller's 32-bit registers.
use vstd::prelude::*;
use crate::regfield::{with_field32, field32, flag32, set_field32, get_field32, bit32};

verus! {

/// Frequency of the IN0 oscillator, in Hz.
pub const SYSCTRL_CLOCK_FREQ_IN0: u32 = 26000000;

/// Number of 32-bit registers in the controller's window.
pub const SYSCTL_REGS: usize = 28;

/// Register indices (byte offset / 4).
pub const PLL0: usize = 2;
pub const PLL1: usize = 3;
pub const PLL2: usize = 4;
pub const PLL_LOCK: usize = 6;
pub const CLK_SEL0: usize = 8;
pub const CLK_SEL1: usize = 9;
pub const CLK_EN_CENT: usize = 10;
pub const CLK_EN_PERI: usize = 11;
/// The soft reset register (bit 0 resets the whole chip).
pub const SOFT_RESET: usize = 12;
/// The peripheral reset register: one bit per peripheral reset line.
pub const PERI_RESET: usize = 13;
pub const CLK_TH0: usize = 14;
pub const CLK_TH1: usize = 15;
pub const CLK_TH2: usize = 16;
pub const CLK_TH3: usize = 17;
pub const CLK_TH4: usize = 18;
pub const CLK_TH5: usize = 19;
pub const CLK_TH6: usize = 20;
pub const MISC: usize = 21;
pub const DMA_SEL0: usize = 25;
/// The handshake selector of DMA channel 5.
pub const DMA_SEL1: usize = 26;
/// The IO power mode register.
pub const POWER_SEL: usize = 27;

/// The controller's registers, indexed by byte offset / 4.
pub struct Sysctl {
    pub regs: Vec<u32>,
}

/// `regs` with one field of register `r` replaced.
pub open spec fn set_reg_field(regs: Seq<u32>, r: int, shift: u32, mask: u32, x: u32) -> Seq<u32> {
    regs.update(r, with_field32(regs[r], shift, mask, x))
}

impl Sysctl {
    /// The controller with every register zero.
    pub fn new() -> (s: Self)
        ensures
            s.regs@ == Seq::new(SYSCTL_REGS as nat, |i: int| 0u32),
    {
        let mut regs: Vec<u32> = Vec::new();
        let mut i: usize = 0;
        while i < SYSCTL_REGS
            invariant
                i <= SYSCTL_REGS,
                regs@ == Seq::new(i as nat, |j: int| 0u32),
            decreases SYSCTL_REGS - i,
        {
            regs.push(0);
            i = i + 1;
            proof {
                assert(regs@ =~= Seq::new(i as nat, |j: int| 0u32));
            }
        }
        Sysctl { regs }
    }

    /// Replace one field of register `r`.
    pub fn write_field(&mut self, r: usize, shift: u32, mask: u32, x: u32)
        requires
            r < old(self).regs@.len(),
            shift < 32,
        ensures
            final(self).regs@ == set_reg_field(old(self).regs@, r as int, shift, mask, x),
    {
        let v = set_field32(self.regs[r], shift, mask, x);
        self.regs.set(r, v);
    }

    /// Read one field of register `r`.
    pub fn read_field(&self, r: usize, shift: u32, mask: u32) -> (v: u32)
        requires
            r < self.regs@.len(),
            shift < 32,
        ensures
            v == field32(self.regs@[r as int], shift, mask),
            v <= mask,
    {
        get_field32(self.regs[r], shift, mask)
    }
}

/// A phase-locked loop.
#[derive(Clone, Copy, Debug, PartialEq, Eq, Structural)]
pub enum pll {
    PLL0,
    PLL1,
    PLL2,
}
/// A clock that others derive from.
#[derive(Clone, Copy, Debug, PartialEq, Eq, Structural)]
pub enum clock_source {
    IN0,
    PLL0,
    PLL1,
    PLL2,
    ACLK,
}
/// A clock of the chip.
#[derive(Clone, Copy, Debug, PartialEq, Eq, Structural)]
pub enum clock {
    PLL0,
    PLL1,
    PLL2,
    CPU,
    SRAM0,
    SRAM1,
    APB0,
    APB1,
    APB2,
    ROM,
    DMA,
    AI,
    DVP,
    FFT,
    GPIO,
    SPI0,
    SPI1,
    SPI2,
    SPI3,
    I2S0,
    I2S1,
    I2S2,
    I2C0,
    I2C1,
    I2C2,
    UART1,
    UART2,
    UART3,
    AES,
    FPIOA,
    TIMER0,
    TIMER1,
    TIMER2,
    WDT0,
    WDT1,
    SHA,
    OTP,
    RTC,
    ACLK,
    HCLK,
    IN0,
}
/// A clock divider.
#[derive(Clone, Copy, Debug, PartialEq, Eq, Structural)]
pub enum threshold {
    ACLK,
    APB0,
    APB1,
    APB2,
    SRAM0,
    SRAM1,
    AI,
    DVP,
    ROM,
    SPI0,
    SPI1,
    SPI2,
    SPI3,
    TIMER0,
    TIMER1,
    TIMER2,
    I2S0,
    I2S1,
    I2S2,
    I2S0_M,
    I2S1_M,
    I2S2_M,
    I2C0,
    I2C1,
    I2C2,
    WDT0,
    WDT1,
}
/// A clock source selector.
#[derive(Clone, Copy, Debug, PartialEq, Eq, Structural)]
pub enum clock_select {
    PLL0_BYPASS,
    PLL1_BYPASS,
    PLL2_BYPASS,
    PLL2,
    ACLK,
    SPI3,
    TIMER0,
    TIMER1,
    TIMER2,
    SPI3_SAMPLE,
}
/// IO power mode of a bank.
#[derive(Clone, Copy, Debug, PartialEq, Eq, Structural)]
pub enum io_power_mode {
    V33,
    V18,
}
/// An IO power bank.
#[derive(Clone, Copy, Debug, PartialEq, Eq, Structural)]
pub enum power_bank {
    BANK0,
    BANK1,
    BANK2,
    BANK3,
    BANK4,
    BANK5,
    BANK6,
    BANK7,
}
/// A reset line.
#[derive(Clone, Copy, Debug, PartialEq, Eq, Structural)]
pub enum reset {
    SOC,
    ROM,
    DMA,
    AI,
    DVP,
    FFT,
    GPIO,
    SPI0,
    SPI1,
    SPI2,
    SPI3,
    I2S0,
    I2S1,
    I2S2,
    I2C0,
    I2C1,
    I2C2,
    UART1,
    UART2,
    UART3,
    AES,
    FPIOA,
    TIMER0,
    TIMER1,
    TIMER2,
    WDT0,
    WDT1,
    SHA,
    RTC,
}
/// A DMA channel.
#[derive(Clone, Copy, Debug, PartialEq, Eq, Structural)]
pub enum dma_channel {
    CHANNEL0,
    CHANNEL1,
    CHANNEL2,
    CHANNEL3,
    CHANNEL4,
    CHANNEL5,
}
/// A DMA handshake request line.
#[derive(Clone, Copy, Debug, PartialEq, Eq, Structural)]
pub enum dma_select {
    SSI0_RX_REQ,
    SSI0_TX_REQ,
    SSI1_RX_REQ,
    SSI1_TX_REQ,
    SSI2_RX_REQ,
    SSI2_TX_REQ,
    SSI3_RX_REQ,
    SSI3_TX_REQ,
    I2C0_RX_REQ,
    I2C0_TX_REQ,
    I2C1_RX_REQ,
    I2C1_TX_REQ,
    I2C2_RX_REQ,
    I2C2_TX_REQ,
    UART1_RX_REQ,
    UART1_TX_REQ,
    UART2_RX_REQ,
    UART2_TX_REQ,
    UART3_RX_REQ,
    UART3_TX_REQ,
    AES_REQ,
    SHA_RX_REQ,
    AI_RX_REQ,
    FFT_RX_REQ,
    FFT_TX_REQ,
    I2S0_TX_REQ,
    I2S0_RX_REQ,
    I2S1_TX_REQ,
    I2S1_RX_REQ,
    I2S2_TX_REQ,
    I2S2_RX_REQ,
    I2S0_BF_DIR_REQ,
    I2S0_BF_VOICE_REQ,
}
/// Register and bit that enable a clock's device, if it has one.
pub open spec fn device_en_loc(c: clock) -> Option<(int, u32)> {
    match c {
        clock::PLL0 => Some((PLL0 as int, 25)),
        clock::PLL1 => Some((PLL1 as int, 25)),
        clock::PLL2 => Some((PLL2 as int, 25)),
        clock::CPU => Some((CLK_EN_CENT as int, 0)),
        clock::SRAM0 => Some((CLK_EN_CENT as int, 1)),
        clock::SRAM1 => Some((CLK_EN_CENT as int, 2)),
        clock::APB0 => Some((CLK_EN_CENT as int, 3)),
        clock::APB1 => Some((CLK_EN_CENT as int, 4)),
        clock::APB2 => Some((CLK_EN_CENT as int, 5)),
        clock::ROM => Some((CLK_EN_PERI as int, 0)),
        clock::DMA => Some((CLK_EN_PERI as int, 1)),
        clock::AI => Some((CLK_EN_PERI as int, 2)),
        clock::DVP => Some((CLK_EN_PERI as int, 3)),
        clock::FFT => Some((CLK_EN_PERI as int, 4)),
        clock::GPIO => Some((CLK_EN_PERI as int, 5)),
        clock::SPI0 => Some((CLK_EN_PERI as int, 6)),
        clock::SPI1 => Some((CLK_EN_PERI as int, 7)),
        clock::SPI2 => Some((CLK_EN_PERI as int, 8)),
        clock::SPI3 => Some((CLK_EN_PERI as int, 9)),
        clock::I2S0 => Some((CLK_EN_PERI as int, 10)),
        clock::I2S1 => Some((CLK_EN_PERI as int, 11)),
        clock::I2S2 => Some((CLK_EN_PERI as int, 12)),
        clock::I2C0 => Some((CLK_EN_PERI as int, 13)),
        clock::I2C1 => Some((CLK_EN_PERI as int, 14)),
        clock::I2C2 => Some((CLK_EN_PERI as int, 15)),
        clock::UART1 => Some((CLK_EN_PERI as int, 16)),
        clock::UART2 => Some((CLK_EN_PERI as int, 17)),
        clock::UART3 => Some((CLK_EN_PERI as int, 18)),
        clock::AES => Some((CLK_EN_PERI as int, 19)),
        clock::FPIOA => Some((CLK_EN_PERI as int, 20)),
        clock::TIMER0 => Some((CLK_EN_PERI as int, 21)),
        clock::TIMER1 => Some((CLK_EN_PERI as int, 22)),
        clock::TIMER2 => Some((CLK_EN_PERI as int, 23)),
        clock::WDT0 => Some((CLK_EN_PERI as int, 24)),
        clock::WDT1 => Some((CLK_EN_PERI as int, 25)),
        clock::SHA => Some((CLK_EN_PERI as int, 26)),
        clock::OTP => Some((CLK_EN_PERI as int, 27)),
        clock::RTC => Some((CLK_EN_PERI as int, 29)),
        clock::ACLK => None,
        clock::HCLK => None,
        clock::IN0 => None,
    }
}

/// Bit of the central clock enable register for the bus a clock hangs off,
/// if that bus is switched on with it.
pub open spec fn bus_en_bit(c: clock) -> Option<u32> {
    match c {
        clock::GPIO => Some(3),
        clock::SPI0 => Some(5),
        clock::SPI1 => Some(5),
        clock::SPI2 => Some(3),
        clock::I2S0 => Some(3),
        clock::I2S1 => Some(3),
        clock::I2S2 => Some(3),
        clock::I2C0 => Some(3),
        clock::I2C1 => Some(3),
        clock::I2C2 => Some(3),
        clock::UART1 => Some(3),
        clock::UART2 => Some(3),
        clock::UART3 => Some(3),
        clock::AES => Some(4),
        clock::FPIOA => Some(3),
        clock::TIMER0 => Some(3),
        clock::TIMER1 => Some(3),
        clock::TIMER2 => Some(3),
        clock::WDT0 => Some(4),
        clock::WDT1 => Some(4),
        clock::SHA => Some(3),
        clock::OTP => Some(4),
        clock::RTC => Some(4),
        _ => None,
    }
}

/// Register, shift and mask of a clock divider.
pub open spec fn threshold_loc(t: threshold) -> (int, u32, u32) {
    match t {
        threshold::ACLK => (CLK_SEL0 as int, 1, 0x03),
        threshold::APB0 => (CLK_SEL0 as int, 3, 0x07),
        threshold::APB1 => (CLK_SEL0 as int, 6, 0x07),
        threshold::APB2 => (CLK_SEL0 as int, 9, 0x07),
        threshold::SRAM0 => (CLK_TH0 as int, 0, 0x0f),
        threshold::SRAM1 => (CLK_TH0 as int, 4, 0x0f),
        threshold::AI => (CLK_TH0 as int, 8, 0x0f),
        threshold::DVP => (CLK_TH0 as int, 12, 0x0f),
        threshold::ROM => (CLK_TH0 as int, 16, 0x0f),
        threshold::SPI0 => (CLK_TH1 as int, 0, 0xff),
        threshold::SPI1 => (CLK_TH1 as int, 8, 0xff),
        threshold::SPI2 => (CLK_TH1 as int, 16, 0xff),
        threshold::SPI3 => (CLK_TH1 as int, 24, 0xff),
        threshold::TIMER0 => (CLK_TH2 as int, 0, 0xff),
        threshold::TIMER1 => (CLK_TH2 as int, 8, 0xff),
        threshold::TIMER2 => (CLK_TH2 as int, 16, 0xff),
        threshold::I2S0 => (CLK_TH3 as int, 0, 0xffff),
        threshold::I2S1 => (CLK_TH3 as int, 16, 0xffff),
        threshold::I2S2 => (CLK_TH4 as int, 0, 0xffff),
        threshold::I2S0_M => (CLK_TH4 as int, 16, 0xff),
        threshold::I2S1_M => (CLK_TH4 as int, 24, 0xff),
        threshold::I2S2_M => (CLK_TH5 as int, 0, 0xff),
        threshold::I2C0 => (CLK_TH5 as int, 8, 0xff),
        threshold::I2C1 => (CLK_TH5 as int, 16, 0xff),
        threshold::I2C2 => (CLK_TH5 as int, 24, 0xff),
        threshold::WDT0 => (CLK_TH6 as int, 0, 0xff),
        threshold::WDT1 => (CLK_TH6 as int, 8, 0xff),
    }
}

/// The value written for a divider setting: cut to the width of its field's
/// integer type.
pub open spec fn threshold_value(t: threshold, x: u32) -> u32 {
    match t {
        threshold::I2S0 | threshold::I2S1 | threshold::I2S2 => (x as u16) as u32,
        _ => (x as u8) as u32,
    }
}

/// Register, shift and mask of a clock source selector.
pub open spec fn select_loc(s: clock_select) -> (int, u32, u32) {
    match s {
        clock_select::PLL0_BYPASS => (PLL0 as int, 23, 0x01),
        clock_select::PLL1_BYPASS => (PLL1 as int, 23, 0x01),
        clock_select::PLL2_BYPASS => (PLL2 as int, 23, 0x01),
        clock_select::PLL2 => (PLL2 as int, 26, 0x03),
        clock_select::ACLK => (CLK_SEL0 as int, 0, 0x01),
        clock_select::SPI3 => (CLK_SEL0 as int, 12, 0x01),
        clock_select::TIMER0 => (CLK_SEL0 as int, 13, 0x01),
        clock_select::TIMER1 => (CLK_SEL0 as int, 14, 0x01),
        clock_select::TIMER2 => (CLK_SEL0 as int, 15, 0x01),
        clock_select::SPI3_SAMPLE => (CLK_SEL1 as int, 0, 0x01),
    }
}

/// The register that holds reset line `r`.
pub open spec fn reset_reg(r: reset) -> int {
    if r is SOC {
        SOFT_RESET as int
    } else {
        PERI_RESET as int
    }
}

/// The bit of reset line `r` in its register.
pub open spec fn reset_bit(r: reset) -> u32 {
    match r {
        reset::SOC => 0,
        reset::ROM => 0,
        reset::DMA => 1,
        reset::AI => 2,
        reset::DVP => 3,
        reset::FFT => 4,
        reset::GPIO => 5,
        reset::SPI0 => 6,
        reset::SPI1 => 7,
        reset::SPI2 => 8,
        reset::SPI3 => 9,
        reset::I2S0 => 10,
        reset::I2S1 => 11,
        reset::I2S2 => 12,
        reset::I2C0 => 13,
        reset::I2C1 => 14,
        reset::I2C2 => 15,
        reset::UART1 => 16,
        reset::UART2 => 17,
        reset::UART3 => 18,
        reset::AES => 19,
        reset::FPIOA => 20,
        reset::TIMER0 => 21,
        reset::TIMER1 => 22,
        reset::TIMER2 => 23,
        reset::WDT0 => 24,
        reset::WDT1 => 25,
        reset::SHA => 26,
        reset::RTC => 29,
    }
}

/// Index of a DMA channel.
pub open spec fn channel_index(c: dma_channel) -> int {
    match c {
        dma_channel::CHANNEL0 => 0,
        dma_channel::CHANNEL1 => 1,
        dma_channel::CHANNEL2 => 2,
        dma_channel::CHANNEL3 => 3,
        dma_channel::CHANNEL4 => 4,
        dma_channel::CHANNEL5 => 5,
    }
}

/// Encoding of a DMA handshake request line.
pub open spec fn dma_select_code(s: dma_select) -> u32 {
    match s {
        dma_select::SSI0_RX_REQ => 0,
        dma_select::SSI0_TX_REQ => 1,
        dma_select::SSI1_RX_REQ => 2,
        dma_select::SSI1_TX_REQ => 3,
        dma_select::SSI2_RX_REQ => 4,
        dma_select::SSI2_TX_REQ => 5,
        dma_select::SSI3_RX_REQ => 6,
        dma_select::SSI3_TX_REQ => 7,
        dma_select::I2C0_RX_REQ => 8,
        dma_select::I2C0_TX_REQ => 9,
        dma_select::I2C1_RX_REQ => 10,
        dma_select::I2C1_TX_REQ => 11,
        dma_select::I2C2_RX_REQ => 12,
        dma_select::I2C2_TX_REQ => 13,
        dma_select::UART1_RX_REQ => 14,
        dma_select::UART1_TX_REQ => 15,
        dma_select::UART2_RX_REQ => 16,
        dma_select::UART2_TX_REQ => 17,
        dma_select::UART3_RX_REQ => 18,
        dma_select::UART3_TX_REQ => 19,
        dma_select::AES_REQ => 20,
        dma_select::SHA_RX_REQ => 21,
        dma_select::AI_RX_REQ => 22,
        dma_select::FFT_RX_REQ => 23,
        dma_select::FFT_TX_REQ => 24,
        dma_select::I2S0_TX_REQ => 25,
        dma_select::I2S0_RX_REQ => 26,
        dma_select::I2S1_TX_REQ => 27,
        dma_select::I2S1_RX_REQ => 28,
        dma_select::I2S2_TX_REQ => 29,
        dma_select::I2S2_RX_REQ => 30,
        dma_select::I2S0_BF_DIR_REQ => 31,
        dma_select::I2S0_BF_VOICE_REQ => 32,
    }
}

/// Index of an IO power bank.
pub open spec fn bank_index(b: power_bank) -> u8 {
    match b {
        power_bank::BANK0 => 0,
        power_bank::BANK1 => 1,
        power_bank::BANK2 => 2,
        power_bank::BANK3 => 3,
        power_bank::BANK4 => 4,
        power_bank::BANK5 => 5,
        power_bank::BANK6 => 6,
        power_bank::BANK7 => 7,
    }
}

impl dma_channel {
    /// Index of the channel.
    pub fn idx(self) -> (r: usize)
        ensures
            r == channel_index(self),
    {
        match self {
            dma_channel::CHANNEL0 => 0,
            dma_channel::CHANNEL1 => 1,
            dma_channel::CHANNEL2 => 2,
            dma_channel::CHANNEL3 => 3,
            dma_channel::CHANNEL4 => 4,
            dma_channel::CHANNEL5 => 5,
        }
    }
}

/// Encoding of a DMA handshake request line.
pub fn dma_select_bits(s: dma_select) -> (r: u32)
    ensures
        r == dma_select_code(s),
{
    match s {
        dma_select::SSI0_RX_REQ => 0,
        dma_select::SSI0_TX_REQ => 1,
        dma_select::SSI1_RX_REQ => 2,
        dma_select::SSI1_TX_REQ => 3,
        dma_select::SSI2_RX_REQ => 4,
        dma_select::SSI2_TX_REQ => 5,
        dma_select::SSI3_RX_REQ => 6,
        dma_select::SSI3_TX_REQ => 7,
        dma_select::I2C0_RX_REQ => 8,
        dma_select::I2C0_TX_REQ => 9,
        dma_select::I2C1_RX_REQ => 10,
        dma_select::I2C1_TX_REQ => 11,
        dma_select::I2C2_RX_REQ => 12,
        dma_select::I2C2_TX_REQ => 13,
        dma_select::UART1_RX_REQ => 14,
        dma_select::UART1_TX_REQ => 15,
        dma_select::UART2_RX_REQ => 16,
        dma_select::UART2_TX_REQ => 17,
        dma_select::UART3_RX_REQ => 18,
        dma_select::UART3_TX_REQ => 19,
        dma_select::AES_REQ => 20,
        dma_select::SHA_RX_REQ => 21,
        dma_select::AI_RX_REQ => 22,
        dma_select::FFT_RX_REQ => 23,
        dma_select::FFT_TX_REQ => 24,
        dma_select::I2S0_TX_REQ => 25,
        dma_select::I2S0_RX_REQ => 26,
        dma_select::I2S1_TX_REQ => 27,
        dma_select::I2S1_RX_REQ => 28,
        dma_select::I2S2_TX_REQ => 29,
        dma_select::I2S2_RX_REQ => 30,
        dma_select::I2S0_BF_DIR_REQ => 31,
        dma_select::I2S0_BF_VOICE_REQ => 32,
    }
}

/// Switch on the bus a clock hangs off; buses are never switched off here.
pub fn clock_bus_en(s: &mut Sysctl, c: clock, en: bool)
    requires
        old(s).regs@.len() == SYSCTL_REGS,
    ensures
        final(s).regs@ == (match bus_en_bit(c) {
            Some(b) => if en { set_reg_field(old(s).regs@, CLK_EN_CENT as int, b, 1, flag32(en)) } else { old(s).regs@ },
            None => old(s).regs@,
        }),
{
    if en {
        match c {
            clock::GPIO | clock::SPI2 | clock::I2S0 | clock::I2S1 | clock::I2S2 | clock::I2C0 | clock::I2C1 | clock::I2C2 | clock::UART1 | clock::UART2 | clock::UART3 | clock::FPIOA | clock::TIMER0 | clock::TIMER1 | clock::TIMER2 | clock::SHA => {
                s.write_field(CLK_EN_CENT, 3, 1, bit32(en));
            },
            clock::AES | clock::WDT0 | clock::WDT1 | clock::OTP | clock::RTC => {
                s.write_field(CLK_EN_CENT, 4, 1, bit32(en));
            },
            clock::SPI0 | clock::SPI1 => {
                s.write_field(CLK_EN_CENT, 5, 1, bit32(en));
            },
            _ => {},
        }
    }
}

/// Switch a clock's device enable.
pub fn clock_device_en(s: &mut Sysctl, c: clock, en: bool)
    requires
        old(s).regs@.len() == SYSCTL_REGS,
    ensures
        final(s).regs@ == (match device_en_loc(c) {
            Some(loc) => set_reg_field(old(s).regs@, loc.0, loc.1, 1, flag32(en)),
            None => old(s).regs@,
        }),
{
    match c {
        clock::PLL0 => s.write_field(PLL0, 25, 1, bit32(en)),
        clock::PLL1 => s.write_field(PLL1, 25, 1, bit32(en)),
        clock::PLL2 => s.write_field(PLL2, 25, 1, bit32(en)),
        clock::CPU => s.write_field(CLK_EN_CENT, 0, 1, bit32(en)),
        clock::SRAM0 => s.write_field(CLK_EN_CENT, 1, 1, bit32(en)),
        clock::SRAM1 => s.write_field(CLK_EN_CENT, 2, 1, bit32(en)),
        clock::APB0 => s.write_field(CLK_EN_CENT, 3, 1, bit32(en)),
        clock::APB1 => s.write_field(CLK_EN_CENT, 4, 1, bit32(en)),
        clock::APB2 => s.write_field(CLK_EN_CENT, 5, 1, bit32(en)),
        clock::ROM => s.write_field(CLK_EN_PERI, 0, 1, bit32(en)),
        clock::DMA => s.write_field(CLK_EN_PERI, 1, 1, bit32(en)),
        clock::AI => s.write_field(CLK_EN_PERI, 2, 1, bit32(en)),
        clock::DVP => s.write_field(CLK_EN_PERI, 3, 1, bit32(en)),
        clock::FFT => s.write_field(CLK_EN_PERI, 4, 1, bit32(en)),
        clock::GPIO => s.write_field(CLK_EN_PERI, 5, 1, bit32(en)),
        clock::SPI0 => s.write_field(CLK_EN_PERI, 6, 1, bit32(en)),
        clock::SPI1 => s.write_field(CLK_EN_PERI, 7, 1, bit32(en)),
        clock::SPI2 => s.write_field(CLK_EN_PERI, 8, 1, bit32(en)),
        clock::SPI3 => s.write_field(CLK_EN_PERI, 9, 1, bit32(en)),
        clock::I2S0 => s.write_field(CLK_EN_PERI, 10, 1, bit32(en)),
        clock::I2S1 => s.write_field(CLK_EN_PERI, 11, 1, bit32(en)),
        clock::I2S2 => s.write_field(CLK_EN_PERI, 12, 1, bit32(en)),
        clock::I2C0 => s.write_field(CLK_EN_PERI, 13, 1, bit32(en)),
        clock::I2C1 => s.write_field(CLK_EN_PERI, 14, 1, bit32(en)),
        clock::I2C2 => s.write_field(CLK_EN_PERI, 15, 1, bit32(en)),
        clock::UART1 => s.write_field(CLK_EN_PERI, 16, 1, bit32(en)),
        clock::UART2 => s.write_field(CLK_EN_PERI, 17, 1, bit32(en)),
        clock::UART3 => s.write_field(CLK_EN_PERI, 18, 1, bit32(en)),
        clock::AES => s.write_field(CLK_EN_PERI, 19, 1, bit32(en)),
        clock::FPIOA => s.write_field(CLK_EN_PERI, 20, 1, bit32(en)),
        clock::TIMER0 => s.write_field(CLK_EN_PERI, 21, 1, bit32(en)),
        clock::TIMER1 => s.write_field(CLK_EN_PERI, 22, 1, bit32(en)),
        clock::TIMER2 => s.write_field(CLK_EN_PERI, 23, 1, bit32(en)),
        clock::WDT0 => s.write_field(CLK_EN_PERI, 24, 1, bit32(en)),
        clock::WDT1 => s.write_field(CLK_EN_PERI, 25, 1, bit32(en)),
        clock::SHA => s.write_field(CLK_EN_PERI, 26, 1, bit32(en)),
        clock::OTP => s.write_field(CLK_EN_PERI, 27, 1, bit32(en)),
        clock::RTC => s.write_field(CLK_EN_PERI, 29, 1, bit32(en)),
        clock::ACLK | clock::HCLK | clock::IN0 => {},
    }
}

/// The registers after switching on a clock: its bus, then its device.
pub open spec fn enabled(regs: Seq<u32>, c: clock) -> Seq<u32> {
    let bus = match bus_en_bit(c) {
        Some(b) => set_reg_field(regs, CLK_EN_CENT as int, b, 1, 1),
        None => regs,
    };
    match device_en_loc(c) {
        Some(loc) => set_reg_field(bus, loc.0, loc.1, 1, 1),
        None => bus,
    }
}

/// The registers after switching off a clock's device (its bus stays on).
pub open spec fn disabled(regs: Seq<u32>, c: clock) -> Seq<u32> {
    match device_en_loc(c) {
        Some(loc) => set_reg_field(regs, loc.0, loc.1, 1, 0),
        None => regs,
    }
}

/// Enable a clock.
pub fn clock_enable(s: &mut Sysctl, c: clock)
    requires
        old(s).regs@.len() == SYSCTL_REGS,
    ensures
        final(s).regs@ == enabled(old(s).regs@, c),
{
    clock_bus_en(s, c, true);
    clock_device_en(s, c, true);
}

/// Disable a clock.
pub fn sysctl_clock_disable(s: &mut Sysctl, c: clock)
    requires
        old(s).regs@.len() == SYSCTL_REGS,
    ensures
        final(s).regs@ == disabled(old(s).regs@, c),
{
    clock_bus_en(s, c, false);
    clock_device_en(s, c, false);
}

/// Set a clock divider.
pub fn clock_set_threshold(s: &mut Sysctl, which: threshold, threshold: u32)
    requires
        old(s).regs@.len() == SYSCTL_REGS,
    ensures
        final(s).regs@ == set_reg_field(old(s).regs@, threshold_loc(which).0, threshold_loc(which).1,
            threshold_loc(which).2, threshold_value(which, threshold)),
{
    match which {
        threshold::ACLK => s.write_field(CLK_SEL0, 1, 0x03, (threshold as u8) as u32),
        threshold::APB0 => s.write_field(CLK_SEL0, 3, 0x07, (threshold as u8) as u32),
        threshold::APB1 => s.write_field(CLK_SEL0, 6, 0x07, (threshold as u8) as u32),
        threshold::APB2 => s.write_field(CLK_SEL0, 9, 0x07, (threshold as u8) as u32),
        threshold::SRAM0 => s.write_field(CLK_TH0, 0, 0x0f, (threshold as u8) as u32),
        threshold::SRAM1 => s.write_field(CLK_TH0, 4, 0x0f, (threshold as u8) as u32),
        threshold::AI => s.write_field(CLK_TH0, 8, 0x0f, (threshold as u8) as u32),
        threshold::DVP => s.write_field(CLK_TH0, 12, 0x0f, (threshold as u8) as u32),
        threshold::ROM => s.write_field(CLK_TH0, 16, 0x0f, (threshold as u8) as u32),
        threshold::SPI0 => s.write_field(CLK_TH1, 0, 0xff, (threshold as u8) as u32),
        threshold::SPI1 => s.write_field(CLK_TH1, 8, 0xff, (threshold as u8) as u32),
        threshold::SPI2 => s.write_field(CLK_TH1, 16, 0xff, (threshold as u8) as u32),
        threshold::SPI3 => s.write_field(CLK_TH1, 24, 0xff, (threshold as u8) as u32),
        threshold::TIMER0 => s.write_field(CLK_TH2, 0, 0xff, (threshold as u8) as u32),
        threshold::TIMER1 => s.write_field(CLK_TH2, 8, 0xff, (threshold as u8) as u32),
        threshold::TIMER2 => s.write_field(CLK_TH2, 16, 0xff, (threshold as u8) as u32),
        threshold::I2S0 => s.write_field(CLK_TH3, 0, 0xffff, (threshold as u16) as u32),
        threshold::I2S1 => s.write_field(CLK_TH3, 16, 0xffff, (threshold as u16) as u32),
        threshold::I2S2 => s.write_field(CLK_TH4, 0, 0xffff, (threshold as u16) as u32),
        threshold::I2S0_M => s.write_field(CLK_TH4, 16, 0xff, (threshold as u8) as u32),
        threshold::I2S1_M => s.write_field(CLK_TH4, 24, 0xff, (threshold as u8) as u32),
        threshold::I2S2_M => s.write_field(CLK_TH5, 0, 0xff, (threshold as u8) as u32),
        threshold::I2C0 => s.write_field(CLK_TH5, 8, 0xff, (threshold as u8) as u32),
        threshold::I2C1 => s.write_field(CLK_TH5, 16, 0xff, (threshold as u8) as u32),
        threshold::I2C2 => s.write_field(CLK_TH5, 24, 0xff, (threshold as u8) as u32),
        threshold::WDT0 => s.write_field(CLK_TH6, 0, 0xff, (threshold as u8) as u32),
        threshold::WDT1 => s.write_field(CLK_TH6, 8, 0xff, (threshold as u8) as u32),
    }
}

/// Get a clock divider.
pub fn clock_get_threshold(s: &Sysctl, which: threshold) -> (r: u32)
    requires
        s.regs@.len() == SYSCTL_REGS,
    ensures
        r == field32(s.regs@[threshold_loc(which).0], threshold_loc(which).1, threshold_loc(which).2),
        r <= threshold_loc(which).2,
        r <= 0xffff,
{
    match which {
        threshold::ACLK => s.read_field(CLK_SEL0, 1, 0x03),
        threshold::APB0 => s.read_field(CLK_SEL0, 3, 0x07),
        threshold::APB1 => s.read_field(CLK_SEL0, 6, 0x07),
        threshold::APB2 => s.read_field(CLK_SEL0, 9, 0x07),
        threshold::SRAM0 => s.read_field(CLK_TH0, 0, 0x0f),
        threshold::SRAM1 => s.read_field(CLK_TH0, 4, 0x0f),
        threshold::AI => s.read_field(CLK_TH0, 8, 0x0f),
        threshold::DVP => s.read_field(CLK_TH0, 12, 0x0f),
        threshold::ROM => s.read_field(CLK_TH0, 16, 0x0f),
        threshold::SPI0 => s.read_field(CLK_TH1, 0, 0xff),
        threshold::SPI1 => s.read_field(CLK_TH1, 8, 0xff),
        threshold::SPI2 => s.read_field(CLK_TH1, 16, 0xff),
        threshold::SPI3 => s.read_field(CLK_TH1, 24, 0xff),
        threshold::TIMER0 => s.read_field(CLK_TH2, 0, 0xff),
        threshold::TIMER1 => s.read_field(CLK_TH2, 8, 0xff),
        threshold::TIMER2 => s.read_field(CLK_TH2, 16, 0xff),
        threshold::I2S0 => s.read_field(CLK_TH3, 0, 0xffff),
        threshold::I2S1 => s.read_field(CLK_TH3, 16, 0xffff),
        threshold::I2S2 => s.read_field(CLK_TH4, 0, 0xffff),
        threshold::I2S0_M => s.read_field(CLK_TH4, 16, 0xff),
        threshold::I2S1_M => s.read_field(CLK_TH4, 24, 0xff),
        threshold::I2S2_M => s.read_field(CLK_TH5, 0, 0xff),
        threshold::I2C0 => s.read_field(CLK_TH5, 8, 0xff),
        threshold::I2C1 => s.read_field(CLK_TH5, 16, 0xff),
        threshold::I2C2 => s.read_field(CLK_TH5, 24, 0xff),
        threshold::WDT0 => s.read_field(CLK_TH6, 0, 0xff),
        threshold::WDT1 => s.read_field(CLK_TH6, 8, 0xff),
    }
}

/// Set a clock source selector; every selector but PLL2's is one bit, set
/// when `select` is not zero.
pub fn clock_set_clock_select(s: &mut Sysctl, which: clock_select, select: u8)
    requires
        old(s).regs@.len() == SYSCTL_REGS,
    ensures
        final(s).regs@ == set_reg_field(old(s).regs@, select_loc(which).0, select_loc(which).1,
            select_loc(which).2, if which is PLL2 { select as u32 } else { flag32(select != 0) }),
{
    match which {
        clock_select::PLL0_BYPASS => s.write_field(PLL0, 23, 0x01, bit32(select != 0)),
        clock_select::PLL1_BYPASS => s.write_field(PLL1, 23, 0x01, bit32(select != 0)),
        clock_select::PLL2_BYPASS => s.write_field(PLL2, 23, 0x01, bit32(select != 0)),
        clock_select::PLL2 => s.write_field(PLL2, 26, 0x03, select as u32),
        clock_select::ACLK => s.write_field(CLK_SEL0, 0, 0x01, bit32(select != 0)),
        clock_select::SPI3 => s.write_field(CLK_SEL0, 12, 0x01, bit32(select != 0)),
        clock_select::TIMER0 => s.write_field(CLK_SEL0, 13, 0x01, bit32(select != 0)),
        clock_select::TIMER1 => s.write_field(CLK_SEL0, 14, 0x01, bit32(select != 0)),
        clock_select::TIMER2 => s.write_field(CLK_SEL0, 15, 0x01, bit32(select != 0)),
        clock_select::SPI3_SAMPLE => s.write_field(CLK_SEL1, 0, 0x01, bit32(select != 0)),
    }
}

/// Get a clock source selector.
pub fn clock_get_clock_select(s: &Sysctl, which: clock_select) -> (r: u8)
    requires
        s.regs@.len() == SYSCTL_REGS,
    ensures
        r as u32 == field32(s.regs@[select_loc(which).0], select_loc(which).1, select_loc(which).2),
{
    let v = match which {
        clock_select::PLL0_BYPASS => s.read_field(PLL0, 23, 0x01),
        clock_select::PLL1_BYPASS => s.read_field(PLL1, 23, 0x01),
        clock_select::PLL2_BYPASS => s.read_field(PLL2, 23, 0x01),
        clock_select::PLL2 => s.read_field(PLL2, 26, 0x03),
        clock_select::ACLK => s.read_field(CLK_SEL0, 0, 0x01),
        clock_select::SPI3 => s.read_field(CLK_SEL0, 12, 0x01),
        clock_select::TIMER0 => s.read_field(CLK_SEL0, 13, 0x01),
        clock_select::TIMER1 => s.read_field(CLK_SEL0, 14, 0x01),
        clock_select::TIMER2 => s.read_field(CLK_SEL0, 15, 0x01),
        clock_select::SPI3_SAMPLE => s.read_field(CLK_SEL1, 0, 0x01),
    };
    proof {
        let loc = select_loc(which);
        let w = s.regs@[loc.0];
        let sh = loc.1;
        let m = loc.2;
        assert(v == (w >> sh) & m);
        assert(v <= 3) by (bit_vector)
            requires v == (w >> sh) & m, m <= 3;
    }
    v as u8
}

/// Drive a reset line: the SOC line is bit 0 of the soft reset register,
/// every other line its own bit of the peripheral reset register.
pub fn reset_ctl(s: &mut Sysctl, r: reset, rst_value: bool)
    requires
        old(s).regs@.len() == SYSCTL_REGS,
    ensures
        final(s).regs@ == set_reg_field(old(s).regs@, reset_reg(r), reset_bit(r), 1, flag32(rst_value)),
{
    match r {
        reset::SOC => s.write_field(SOFT_RESET, 0, 1, bit32(rst_value)),
        reset::ROM => s.write_field(PERI_RESET, 0, 1, bit32(rst_value)),
        reset::DMA => s.write_field(PERI_RESET, 1, 1, bit32(rst_value)),
        reset::AI => s.write_field(PERI_RESET, 2, 1, bit32(rst_value)),
        reset::DVP => s.write_field(PERI_RESET, 3, 1, bit32(rst_value)),
        reset::FFT => s.write_field(PERI_RESET, 4, 1, bit32(rst_value)),
        reset::GPIO => s.write_field(PERI_RESET, 5, 1, bit32(rst_value)),
        reset::SPI0 => s.write_field(PERI_RESET, 6, 1, bit32(rst_value)),
        reset::SPI1 => s.write_field(PERI_RESET, 7, 1, bit32(rst_value)),
        reset::SPI2 => s.write_field(PERI_RESET, 8, 1, bit32(rst_value)),
        reset::SPI3 => s.write_field(PERI_RESET, 9, 1, bit32(rst_value)),
        reset::I2S0 => s.write_field(PERI_RESET, 10, 1, bit32(rst_value)),
        reset::I2S1 => s.write_field(PERI_RESET, 11, 1, bit32(rst_value)),
        reset::I2S2 => s.write_field(PERI_RESET, 12, 1, bit32(rst_value)),
        reset::I2C0 => s.write_field(PERI_RESET, 13, 1, bit32(rst_value)),
        reset::I2C1 => s.write_field(PERI_RESET, 14, 1, bit32(rst_value)),
        reset::I2C2 => s.write_field(PERI_RESET, 15, 1, bit32(rst_value)),
        reset::UART1 => s.write_field(PERI_RESET, 16, 1, bit32(rst_value)),
        reset::UART2 => s.write_field(PERI_RESET, 17, 1, bit32(rst_value)),
        reset::UART3 => s.write_field(PERI_RESET, 18, 1, bit32(rst_value)),
        reset::AES => s.write_field(PERI_RESET, 19, 1, bit32(rst_value)),
        reset::FPIOA => s.write_field(PERI_RESET, 20, 1, bit32(rst_value)),
        reset::TIMER0 => s.write_field(PERI_RESET, 21, 1, bit32(rst_value)),
        reset::TIMER1 => s.write_field(PERI_RESET, 22, 1, bit32(rst_value)),
        reset::TIMER2 => s.write_field(PERI_RESET, 23, 1, bit32(rst_value)),
        reset::WDT0 => s.write_field(PERI_RESET, 24, 1, bit32(rst_value)),
        reset::WDT1 => s.write_field(PERI_RESET, 25, 1, bit32(rst_value)),
        reset::SHA => s.write_field(PERI_RESET, 26, 1, bit32(rst_value)),
        reset::RTC => s.write_field(PERI_RESET, 29, 1, bit32(rst_value)),
    }
}

/// Select the DMA handshake for a channel.
pub fn dma_select(s: &mut Sysctl, channel: dma_channel, select: dma_select)
    requires
        old(s).regs@.len() == SYSCTL_REGS,
    ensures
        final(s).regs@ == (if channel is CHANNEL5 {
            set_reg_field(old(s).regs@, DMA_SEL1 as int, 0, 0x3f, dma_select_code(select))
        } else {
            set_reg_field(old(s).regs@, DMA_SEL0 as int, (6 * channel_index(channel)) as u32, 0x3f,
                dma_select_code(select))
        }),
{
    let v = dma_select_bits(select);
    match channel {
        dma_channel::CHANNEL0 => s.write_field(DMA_SEL0, 0, 0x3f, v),
        dma_channel::CHANNEL1 => s.write_field(DMA_SEL0, 6, 0x3f, v),
        dma_channel::CHANNEL2 => s.write_field(DMA_SEL0, 12, 0x3f, v),
        dma_channel::CHANNEL3 => s.write_field(DMA_SEL0, 18, 0x3f, v),
        dma_channel::CHANNEL4 => s.write_field(DMA_SEL0, 24, 0x3f, v),
        dma_channel::CHANNEL5 => s.write_field(DMA_SEL1, 0, 0x3f, v),
    }
}

/// Set the power mode of an IO bank: its bit is set for 1.8V.
pub fn set_power_mode(s: &mut Sysctl, bank: power_bank, mode: io_power_mode)
    requires
        old(s).regs@.len() == SYSCTL_REGS,
    ensures
        final(s).regs@ == set_reg_field(old(s).regs@, POWER_SEL as int, bank_index(bank) as u32, 1,
            flag32(mode is V18)),
{
    let bank_bit: u8 = match bank {
        power_bank::BANK0 => 0,
        power_bank::BANK1 => 1,
        power_bank::BANK2 => 2,
        power_bank::BANK3 => 3,
        power_bank::BANK4 => 4,
        power_bank::BANK5 => 5,
        power_bank::BANK6 => 6,
        power_bank::BANK7 => 7,
    };
    let v = crate::regfield::set_bit(s.regs[POWER_SEL], bank_bit, match mode {
        io_power_mode::V33 => false,
        io_power_mode::V18 => true,
    });
    s.regs.set(POWER_SEL, v);
}

/// Route SPI0_D0-D7 DVP_D0-D7 functions to SPI and DVP data pins (bypassing
/// FPIOA).
pub fn set_spi0_dvp_data(s: &mut Sysctl, status: bool)
    requires
        old(s).regs@.len() == SYSCTL_REGS,
    ensures
        final(s).regs@ == set_reg_field(old(s).regs@, MISC as int, 10, 1, flag32(status)),
{
    s.write_field(MISC, 10, 1, bit32(status));
}

/// Map a PLL2 input select value to its clock source.
pub fn pll2_cksel_to_source(bits: u8) -> (r: clock_source)
    requires
        bits <= 2,
    ensures
        r == (if bits == 0 { clock_source::IN0 } else if bits == 1 { clock_source::PLL0 } else {
            clock_source::PLL1 }),
{
    match bits {
        0 => clock_source::IN0,
        1 => clock_source::PLL0,
        _ => clock_source::PLL1,
    }
}

/// Map a clock source to the PLL2 input select value.
pub fn pll2_source_to_cksel(source: clock_source) -> (r: u8)
    requires
        source is IN0 || source is PLL0 || source is PLL1,
    ensures
        r == (if source is IN0 { 0u8 } else if source is PLL0 { 1u8 } else { 2u8 }),
{
    match source {
        clock_source::IN0 => 0,
        clock_source::PLL0 => 1,
        _ => 2,
    }
}


/// A frequency asked of the clock tree.
pub enum FreqQuery {
    Pll(pll),
    Source(clock_source),
    Clock(clock),
}

/// Register index of a PLL.
pub open spec fn pll_reg(p: pll) -> int {
    match p {
        pll::PLL0 => PLL0 as int,
        pll::PLL1 => PLL1 as int,
        pll::PLL2 => PLL2 as int,
    }
}

/// The source PLL2 takes its input from, for an input select value.
pub open spec fn cksel_source(bits: u32) -> clock_source {
    if bits == 0 {
        clock_source::IN0
    } else if bits == 1 {
        clock_source::PLL0
    } else {
        clock_source::PLL1
    }
}

/// The divider value set for `t`.
pub open spec fn th(regs: Seq<u32>, t: threshold) -> int {
    field32(regs[threshold_loc(t).0], threshold_loc(t).1, threshold_loc(t).2) as int
}

/// Depth of a query in the clock tree: every query asks only shallower ones.
pub open spec fn rank(q: FreqQuery) -> nat {
    match q {
        FreqQuery::Source(clock_source::IN0) => 0,
        FreqQuery::Pll(pll::PLL0) | FreqQuery::Pll(pll::PLL1) => 1,
        FreqQuery::Clock(clock::IN0) => 1,
        FreqQuery::Source(clock_source::PLL0) | FreqQuery::Source(clock_source::PLL1) => 2,
        FreqQuery::Pll(pll::PLL2) => 3,
        FreqQuery::Clock(clock::PLL0) | FreqQuery::Clock(clock::PLL1) => 3,
        FreqQuery::Clock(clock::CPU) | FreqQuery::Clock(clock::DMA) | FreqQuery::Clock(clock::FFT)
        | FreqQuery::Clock(clock::ACLK) | FreqQuery::Clock(clock::HCLK) => 3,
        FreqQuery::Source(clock_source::PLL2) | FreqQuery::Source(clock_source::ACLK) => 4,
        FreqQuery::Clock(_) => 5,
    }
}

/// A clock whose frequency is the ACLK source divided by a divider plus one.
pub open spec fn aclk_divided(c: clock) -> Option<threshold> {
    match c {
        clock::SRAM0 => Some(threshold::SRAM0),
        clock::SRAM1 => Some(threshold::SRAM1),
        clock::ROM => Some(threshold::ROM),
        clock::DVP => Some(threshold::DVP),
        clock::APB0 | clock::GPIO | clock::UART1 | clock::UART2 | clock::UART3 | clock::FPIOA
        | clock::SHA => Some(threshold::APB0),
        clock::APB1 | clock::AES | clock::OTP => Some(threshold::APB1),
        clock::APB2 => Some(threshold::APB2),
        _ => None,
    }
}

/// A clock whose frequency is a fixed source divided by twice a divider plus
/// one.
pub open spec fn halved(c: clock) -> Option<(clock_source, threshold)> {
    match c {
        clock::I2S0 => Some((clock_source::PLL2, threshold::I2S0)),
        clock::I2S1 => Some((clock_source::PLL2, threshold::I2S1)),
        clock::I2S2 => Some((clock_source::PLL2, threshold::I2S2)),
        clock::WDT0 => Some((clock_source::IN0, threshold::WDT0)),
        clock::WDT1 => Some((clock_source::IN0, threshold::WDT1)),
        clock::SPI0 => Some((clock_source::PLL0, threshold::SPI0)),
        clock::SPI1 => Some((clock_source::PLL0, threshold::SPI1)),
        clock::SPI2 => Some((clock_source::PLL0, threshold::SPI2)),
        clock::I2C0 => Some((clock_source::PLL0, threshold::I2C0)),
        clock::I2C1 => Some((clock_source::PLL0, threshold::I2C1)),
        clock::I2C2 => Some((clock_source::PLL0, threshold::I2C2)),
        _ => None,
    }
}

/// A clock whose source is selectable between IN0 and PLL0, divided by twice
/// a divider plus one.
pub open spec fn selectable(c: clock) -> Option<(clock_select, threshold)> {
    match c {
        clock::SPI3 => Some((clock_select::SPI3, threshold::SPI3)),
        clock::TIMER0 => Some((clock_select::TIMER0, threshold::TIMER0)),
        clock::TIMER1 => Some((clock_select::TIMER1, threshold::TIMER1)),
        clock::TIMER2 => Some((clock_select::TIMER2, threshold::TIMER2)),
        _ => None,
    }
}

/// The select value of a clock source selector.
pub open spec fn sel(regs: Seq<u32>, s: clock_select) -> u32 {
    field32(regs[select_loc(s).0], select_loc(s).1, select_loc(s).2)
}

/// The frequency the clock tree gives for a query, in Hz: a PLL gives its
/// input times `NF` over `NR` times `OD` (each field plus one); dividers
/// divide their source by the divider value plus one (twice that for the
/// halved clocks); the CPU clock runs from IN0, or from PLL0 over
/// `2 << divider`.
pub open spec fn freq(regs: Seq<u32>, q: FreqQuery) -> int
    decreases rank(q),
{
    match q {
        FreqQuery::Pll(p) => {
            let fin = if p is PLL2 {
                match cksel_source(field32(regs[PLL2 as int], 26, 0x03)) {
                    clock_source::IN0 => freq(regs, FreqQuery::Source(clock_source::IN0)),
                    clock_source::PLL0 => freq(regs, FreqQuery::Source(clock_source::PLL0)),
                    _ => freq(regs, FreqQuery::Source(clock_source::PLL1)),
                }
            } else {
                freq(regs, FreqQuery::Source(clock_source::IN0))
            };
            let v = regs[pll_reg(p)];
            (fin * (field32(v, 4, 0x3f) + 1)) / ((field32(v, 0, 0x0f) + 1) * (field32(v, 10, 0x0f) + 1))
        },
        FreqQuery::Source(src) => match src {
            clock_source::IN0 => SYSCTRL_CLOCK_FREQ_IN0 as int,
            clock_source::PLL0 => freq(regs, FreqQuery::Pll(pll::PLL0)),
            clock_source::PLL1 => freq(regs, FreqQuery::Pll(pll::PLL1)),
            clock_source::PLL2 => freq(regs, FreqQuery::Pll(pll::PLL2)),
            clock_source::ACLK => freq(regs, FreqQuery::Clock(clock::ACLK)),
        },
        FreqQuery::Clock(c) => match c {
            clock::IN0 | clock::RTC => freq(regs, FreqQuery::Source(clock_source::IN0)),
            clock::PLL0 => freq(regs, FreqQuery::Source(clock_source::PLL0)),
            clock::PLL1 => freq(regs, FreqQuery::Source(clock_source::PLL1)),
            clock::PLL2 => freq(regs, FreqQuery::Source(clock_source::PLL2)),
            clock::CPU | clock::DMA | clock::FFT | clock::ACLK | clock::HCLK => {
                if sel(regs, clock_select::ACLK) == 0 {
                    freq(regs, FreqQuery::Source(clock_source::IN0))
                } else {
                    freq(regs, FreqQuery::Source(clock_source::PLL0)) / (2 * pow2_small(th(regs, threshold::ACLK)))
                }
            },
            clock::AI => freq(regs, FreqQuery::Source(clock_source::PLL1)) / (th(regs, threshold::AI) + 1),
            clock::I2S0 | clock::I2S1 | clock::I2S2 => freq(regs, FreqQuery::Source(clock_source::PLL2)) / (
                (th(regs, halved(c).unwrap().1) + 1) * 2),
            clock::WDT0 | clock::WDT1 => freq(regs, FreqQuery::Source(clock_source::IN0)) / (
                (th(regs, halved(c).unwrap().1) + 1) * 2),
            clock::SPI0 | clock::SPI1 | clock::SPI2 | clock::I2C0 | clock::I2C1 | clock::I2C2 => freq(regs,
                FreqQuery::Source(clock_source::PLL0)) / ((th(regs, halved(c).unwrap().1) + 1) * 2),
            clock::SPI3 | clock::TIMER0 | clock::TIMER1 | clock::TIMER2 => {
                let src = if sel(regs, selectable(c).unwrap().0) == 0 {
                    freq(regs, FreqQuery::Source(clock_source::IN0))
                } else {
                    freq(regs, FreqQuery::Source(clock_source::PLL0))
                };
                src / ((th(regs, selectable(c).unwrap().1) + 1) * 2)
            },
            _ => freq(regs, FreqQuery::Source(clock_source::ACLK)) / (th(regs, aclk_divided(c).unwrap()) + 1),
        },
    }
}

/// `2^n` for the small exponents of the CPU clock divider.
pub open spec fn pow2_small(n: int) -> int {
    if n == 0 { 1 } else if n == 1 { 2 } else if n == 2 { 4 } else { 8 }
}

/// The clock tree can answer the query: PLL2's input select names a source,
/// and every PLL output fits in 32 bits.
pub open spec fn freq_ok(regs: Seq<u32>, q: FreqQuery) -> bool
    decreases rank(q),
{
    match q {
        FreqQuery::Pll(p) => {
            &&& (p is PLL2 ==> field32(regs[PLL2 as int], 26, 0x03) <= 2)
            &&& (if p is PLL2 {
                match cksel_source(field32(regs[PLL2 as int], 26, 0x03)) {
                    clock_source::IN0 => true,
                    clock_source::PLL0 => freq_ok(regs, FreqQuery::Source(clock_source::PLL0)),
                    _ => freq_ok(regs, FreqQuery::Source(clock_source::PLL1)),
                }
            } else {
                true
            })
            &&& freq(regs, q) <= u32::MAX
        },
        FreqQuery::Source(src) => match src {
            clock_source::IN0 => true,
            clock_source::PLL0 => freq_ok(regs, FreqQuery::Pll(pll::PLL0)),
            clock_source::PLL1 => freq_ok(regs, FreqQuery::Pll(pll::PLL1)),
            clock_source::PLL2 => freq_ok(regs, FreqQuery::Pll(pll::PLL2)),
            clock_source::ACLK => freq_ok(regs, FreqQuery::Clock(clock::ACLK)),
        },
        FreqQuery::Clock(c) => match c {
            clock::IN0 | clock::RTC | clock::WDT0 | clock::WDT1 => true,
            clock::PLL0 | clock::SPI0 | clock::SPI1 | clock::SPI2 | clock::I2C0 | clock::I2C1
            | clock::I2C2 => freq_ok(regs, FreqQuery::Source(clock_source::PLL0)),
            clock::PLL1 | clock::AI => freq_ok(regs, FreqQuery::Source(clock_source::PLL1)),
            clock::PLL2 | clock::I2S0 | clock::I2S1 | clock::I2S2 => freq_ok(regs, FreqQuery::Source(
                clock_source::PLL2)),
            clock::CPU | clock::DMA | clock::FFT | clock::ACLK | clock::HCLK => sel(regs, clock_select::ACLK)
                != 0 ==> freq_ok(regs, FreqQuery::Source(clock_source::PLL0)),
            clock::SPI3 | clock::TIMER0 | clock::TIMER1 | clock::TIMER2 => sel(regs, selectable(c).unwrap().0)
                != 0 ==> freq_ok(regs, FreqQuery::Source(clock_source::PLL0)),
            _ => freq_ok(regs, FreqQuery::Source(clock_source::ACLK)),
        },
    }
}

/// Whether a PLL's output frequency can be told: PLL2's input select names
/// a source whose frequency can be told, and the output fits in 32 bits.
pub fn pll_freq_defined(s: &Sysctl, p: pll) -> (r: bool)
    requires
        s.regs@.len() == SYSCTL_REGS,
    ensures
        r == freq_ok(s.regs@, FreqQuery::Pll(p)),
    decreases rank(FreqQuery::Pll(p)),
{
    proof {
        reveal_with_fuel(freq_ok, 2);
    }
    let fin: u32;
    let r: usize;
    match p {
        pll::PLL0 => {
            fin = SYSCTRL_CLOCK_FREQ_IN0;
            r = PLL0;
        },
        pll::PLL1 => {
            fin = SYSCTRL_CLOCK_FREQ_IN0;
            r = PLL1;
        },
        pll::PLL2 => {
            let cksel = s.read_field(PLL2, 26, 0x03);
            if cksel > 2 {
                return false;
            }
            if cksel == 0 {
                fin = SYSCTRL_CLOCK_FREQ_IN0;
            } else if cksel == 1 {
                if !pll_freq_defined(s, pll::PLL0) {
                    return false;
                }
                fin = pll_get_freq(s, pll::PLL0);
            } else {
                if !pll_freq_defined(s, pll::PLL1) {
                    return false;
                }
                fin = pll_get_freq(s, pll::PLL1);
            }
            r = PLL2;
        },
    }
    let nr = s.read_field(r, 0, 0x0f) + 1;
    let nf = s.read_field(r, 4, 0x3f) + 1;
    let od = s.read_field(r, 10, 0x0f) + 1;
    proof {
        assert((fin as u64) * (nf as u64) <= 0xffff_ffff * 64) by (nonlinear_arith)
            requires fin <= 0xffff_ffff, nf <= 64;
        assert((nr as u64) * (od as u64) >= 1 && (nr as u64) * (od as u64) <= 256) by (nonlinear_arith)
            requires 1 <= nr <= 16, 1 <= od <= 16;
    }
    let out = ((fin as u64) * (nf as u64)) / ((nr as u64) * (od as u64));
    proof {
        reveal_with_fuel(freq, 2);
        reveal_with_fuel(freq_ok, 2);
        assert(out == freq(s.regs@, FreqQuery::Pll(p)));
    }
    out <= 0xffff_ffff
}

/// Whether a clock's frequency can be told: every PLL it runs from can be
/// told (see `pll_freq_defined`).
pub fn clock_freq_defined(s: &Sysctl, c: clock) -> (r: bool)
    requires
        s.regs@.len() == SYSCTL_REGS,
    ensures
        r == freq_ok(s.regs@, FreqQuery::Clock(c)),
{
    proof {
        reveal_with_fuel(freq_ok, 5);
    }
    match c {
        clock::IN0 | clock::RTC | clock::WDT0 | clock::WDT1 => true,
        clock::PLL0 | clock::SPI0 | clock::SPI1 | clock::SPI2 | clock::I2C0 | clock::I2C1 | clock::I2C2 => {
            pll_freq_defined(s, pll::PLL0)
        },
        clock::PLL1 | clock::AI => pll_freq_defined(s, pll::PLL1),
        clock::PLL2 | clock::I2S0 | clock::I2S1 | clock::I2S2 => pll_freq_defined(s, pll::PLL2),
        clock::SPI3 => clock_get_clock_select(s, clock_select::SPI3) == 0 || pll_freq_defined(s, pll::PLL0),
        clock::TIMER0 => clock_get_clock_select(s, clock_select::TIMER0) == 0 || pll_freq_defined(s, pll::PLL0),
        clock::TIMER1 => clock_get_clock_select(s, clock_select::TIMER1) == 0 || pll_freq_defined(s, pll::PLL0),
        clock::TIMER2 => clock_get_clock_select(s, clock_select::TIMER2) == 0 || pll_freq_defined(s, pll::PLL0),
        _ => {
            clock_get_clock_select(s, clock_select::ACLK) == 0 || pll_freq_defined(s, pll::PLL0)
        },
    }
}

/// The output frequency of a PLL: FOUT = FIN / NR * NF / OD.
pub fn pll_get_freq(s: &Sysctl, p: pll) -> (r: u32)
    requires
        s.regs@.len() == SYSCTL_REGS,
        freq_ok(s.regs@, FreqQuery::Pll(p)),
    ensures
        r == freq(s.regs@, FreqQuery::Pll(p)),
    decreases rank(FreqQuery::Pll(p)),
{
    let freq_in: u32;
    let r: usize;
    match p {
        pll::PLL0 => {
            freq_in = clock_source_get_freq(s, clock_source::IN0);
            r = PLL0;
        },
        pll::PLL1 => {
            freq_in = clock_source_get_freq(s, clock_source::IN0);
            r = PLL1;
        },
        pll::PLL2 => {
            let cksel = clock_get_clock_select(s, clock_select::PLL2);
            let src = pll2_cksel_to_source(cksel);
            freq_in = clock_source_get_freq(s, src);
            r = PLL2;
        },
    }
    let nr = s.read_field(r, 0, 0x0f) + 1;
    let nf = s.read_field(r, 4, 0x3f) + 1;
    let od = s.read_field(r, 10, 0x0f) + 1;
    proof {
        let w = s.regs@[r as int];
        assert((w >> 0u32) & 0x0fu32 <= 0x0f) by (bit_vector);
        assert((w >> 4u32) & 0x3fu32 <= 0x3f) by (bit_vector);
        assert((w >> 10u32) & 0x0fu32 <= 0x0f) by (bit_vector);
    }
    proof {
        assert((freq_in as u64) * (nf as u64) <= 0xffff_ffff * 64) by (nonlinear_arith)
            requires freq_in <= 0xffff_ffff, nf <= 64;
        assert((nr as u64) * (od as u64) >= 1 && (nr as u64) * (od as u64) <= 256) by (nonlinear_arith)
            requires 1 <= nr <= 16, 1 <= od <= 16;
    }
    let out = ((freq_in as u64) * (nf as u64)) / ((nr as u64) * (od as u64));
    out as u32
}

/// The frequency of a clock source.
pub fn clock_source_get_freq(s: &Sysctl, source: clock_source) -> (r: u32)
    requires
        s.regs@.len() == SYSCTL_REGS,
        freq_ok(s.regs@, FreqQuery::Source(source)),
    ensures
        r == freq(s.regs@, FreqQuery::Source(source)),
    decreases rank(FreqQuery::Source(source)),
{
    match source {
        clock_source::IN0 => SYSCTRL_CLOCK_FREQ_IN0,
        clock_source::PLL0 => pll_get_freq(s, pll::PLL0),
        clock_source::PLL1 => pll_get_freq(s, pll::PLL1),
        clock_source::PLL2 => pll_get_freq(s, pll::PLL2),
        clock_source::ACLK => clock_get_freq(s, clock::ACLK),
    }
}

/// The frequency of a clock, from its source, selector and divider.
pub fn clock_get_freq(s: &Sysctl, c: clock) -> (r: u32)
    requires
        s.regs@.len() == SYSCTL_REGS,
        freq_ok(s.regs@, FreqQuery::Clock(c)),
    ensures
        r == freq(s.regs@, FreqQuery::Clock(c)),
    decreases rank(FreqQuery::Clock(c)),
{
    match c {
        clock::IN0 => clock_source_get_freq(s, clock_source::IN0),
        clock::PLL0 => clock_source_get_freq(s, clock_source::PLL0),
        clock::PLL1 => clock_source_get_freq(s, clock_source::PLL1),
        clock::PLL2 => clock_source_get_freq(s, clock_source::PLL2),
        clock::CPU | clock::DMA | clock::FFT | clock::ACLK | clock::HCLK => {
            let select = clock_get_clock_select(s, clock_select::ACLK);
            if select == 0 {
                clock_source_get_freq(s, clock_source::IN0)
            } else {
                let div = clock_get_threshold(s, threshold::ACLK);
                proof {
                    let w = s.regs@[CLK_SEL0 as int];
                    assert((w >> 1u32) & 0x03u32 <= 3) by (bit_vector);
                    assert((2u32 << div) as int == 2 * pow2_small(div as int)) by (bit_vector)
                        requires div <= 3;
                }
                clock_source_get_freq(s, clock_source::PLL0) / (2 << div)
            }
        },
        clock::SRAM0 => clock_source_get_freq(s, clock_source::ACLK) / (clock_get_threshold(s, threshold::SRAM0) + 1),
        clock::SRAM1 => clock_source_get_freq(s, clock_source::ACLK) / (clock_get_threshold(s, threshold::SRAM1) + 1),
        clock::ROM => clock_source_get_freq(s, clock_source::ACLK) / (clock_get_threshold(s, threshold::ROM) + 1),
        clock::DVP => clock_source_get_freq(s, clock_source::ACLK) / (clock_get_threshold(s, threshold::DVP) + 1),
        clock::APB0 | clock::GPIO | clock::UART1 | clock::UART2 | clock::UART3 | clock::FPIOA | clock::SHA => {
            clock_source_get_freq(s, clock_source::ACLK) / (clock_get_threshold(s, threshold::APB0) + 1)
        },
        clock::APB1 | clock::AES | clock::OTP => {
            clock_source_get_freq(s, clock_source::ACLK) / (clock_get_threshold(s, threshold::APB1) + 1)
        },
        clock::APB2 => clock_source_get_freq(s, clock_source::ACLK) / (clock_get_threshold(s, threshold::APB2) + 1),
        clock::AI => clock_source_get_freq(s, clock_source::PLL1) / (clock_get_threshold(s, threshold::AI) + 1),
        clock::I2S0 => clock_source_get_freq(s, clock_source::PLL2) / ((clock_get_threshold(s, threshold::I2S0) + 1) * 2),
        clock::I2S1 => clock_source_get_freq(s, clock_source::PLL2) / ((clock_get_threshold(s, threshold::I2S1) + 1) * 2),
        clock::I2S2 => clock_source_get_freq(s, clock_source::PLL2) / ((clock_get_threshold(s, threshold::I2S2) + 1) * 2),
        clock::WDT0 => clock_source_get_freq(s, clock_source::IN0) / ((clock_get_threshold(s, threshold::WDT0) + 1) * 2),
        clock::WDT1 => clock_source_get_freq(s, clock_source::IN0) / ((clock_get_threshold(s, threshold::WDT1) + 1) * 2),
        clock::SPI0 => clock_source_get_freq(s, clock_source::PLL0) / ((clock_get_threshold(s, threshold::SPI0) + 1) * 2),
        clock::SPI1 => clock_source_get_freq(s, clock_source::PLL0) / ((clock_get_threshold(s, threshold::SPI1) + 1) * 2),
        clock::SPI2 => clock_source_get_freq(s, clock_source::PLL0) / ((clock_get_threshold(s, threshold::SPI2) + 1) * 2),
        clock::I2C0 => clock_source_get_freq(s, clock_source::PLL0) / ((clock_get_threshold(s, threshold::I2C0) + 1) * 2),
        clock::I2C1 => clock_source_get_freq(s, clock_source::PLL0) / ((clock_get_threshold(s, threshold::I2C1) + 1) * 2),
        clock::I2C2 => clock_source_get_freq(s, clock_source::PLL0) / ((clock_get_threshold(s, threshold::I2C2) + 1) * 2),
        clock::SPI3 | clock::TIMER0 | clock::TIMER1 | clock::TIMER2 => {
            let (which, div) = match c {
                clock::SPI3 => (clock_select::SPI3, threshold::SPI3),
                clock::TIMER0 => (clock_select::TIMER0, threshold::TIMER0),
                clock::TIMER1 => (clock_select::TIMER1, threshold::TIMER1),
                _ => (clock_select::TIMER2, threshold::TIMER2),
            };
            let source = if clock_get_clock_select(s, which) == 0 {
                clock_source_get_freq(s, clock_source::IN0)
            } else {
                clock_source_get_freq(s, clock_source::PLL0)
            };
            source / ((clock_get_threshold(s, div) + 1) * 2)
        },
        clock::RTC => clock_source_get_freq(s, clock_source::IN0),
    }
}

/// Whether a PLL has locked: both lock bits for PLL0, the low lock bit for
/// PLL1 and PLL2.
pub open spec fn pll_locked(regs: Seq<u32>, p: pll) -> bool {
    match p {
        pll::PLL0 => field32(regs[PLL_LOCK as int], 0, 0x03) == 3,
        pll::PLL1 => field32(regs[PLL_LOCK as int], 8, 0x03) & 1 == 1,
        pll::PLL2 => field32(regs[PLL_LOCK as int], 16, 0x03) & 1 == 1,
    }
}

/// Bit of the lock register that clears a PLL's slip.
pub open spec fn slip_clear_bit(p: pll) -> u32 {
    match p {
        pll::PLL0 => 2,
        pll::PLL1 => 10,
        pll::PLL2 => 18,
    }
}

/// Return whether the selected PLL has achieved lock.
pub fn pll_is_lock(s: &Sysctl, p: pll) -> (r: bool)
    requires
        s.regs@.len() == SYSCTL_REGS,
    ensures
        r == pll_locked(s.regs@, p),
{
    match p {
        pll::PLL0 => s.read_field(PLL_LOCK, 0, 0x03) == 3,
        pll::PLL1 => s.read_field(PLL_LOCK, 8, 0x03) & 1 == 1,
        pll::PLL2 => s.read_field(PLL_LOCK, 16, 0x03) & 1 == 1,
    }
}

/// Clear a PLL's slip, then report whether it has locked.
pub fn pll_clear_slip(s: &mut Sysctl, p: pll) -> (r: bool)
    requires
        old(s).regs@.len() == SYSCTL_REGS,
    ensures
        final(s).regs@ == set_reg_field(old(s).regs@, PLL_LOCK as int, slip_clear_bit(p), 1, 1),
        r == pll_locked(final(s).regs@, p),
{
    match p {
        pll::PLL0 => s.write_field(PLL_LOCK, 2, 1, bit32(true)),
        pll::PLL1 => s.write_field(PLL_LOCK, 10, 1, bit32(true)),
        pll::PLL2 => s.write_field(PLL_LOCK, 18, 1, bit32(true)),
    }
    pll_is_lock(s, p)
}

/// Divider settings of a PLL, as its register holds them: the reference
/// divider `clkr` (NR minus one), the feedback divider `clkf` (NF minus one),
/// the output divider `clkod` (OD minus one) and the bandwidth adjust.
#[derive(Clone, Copy, Debug, PartialEq, Eq, Structural)]
pub struct PllParams {
    pub clkr: u8,
    pub clkf: u8,
    pub clkod: u8,
    pub bwadj: u8,
}

/// A PLL register word with new divider settings.
pub open spec fn with_pll_params(v: u32, f: PllParams) -> u32 {
    with_field32(
        with_field32(
            with_field32(with_field32(v, 0, 0x0f, f.clkr as u32), 4, 0x3f, f.clkf as u32),
            10,
            0x0f,
            f.clkod as u32,
        ),
        14,
        0x3f,
        f.bwadj as u32,
    )
}

/// The registers with `f` written into the register of `p`.
pub open spec fn params_applied(regs: Seq<u32>, p: pll, f: PllParams) -> Seq<u32> {
    regs.update(pll_reg(p), with_pll_params(regs[pll_reg(p)], f))
}

/// PLL0 and PLL1 can only take their input from IN0.
pub open spec fn pll_source_allowed(p: pll, source: clock_source) -> bool {
    p is PLL2 || source is IN0
}

/// Whether setting `p` from `source` with the settings `found` takes effect:
/// the source is allowed, runs, and settings were found.
pub open spec fn pll_setting_applies(regs: Seq<u32>, p: pll, source: clock_source, found: Option<
    PllParams,
>) -> bool {
    &&& pll_source_allowed(p, source)
    &&& freq(regs, FreqQuery::Source(source)) != 0
    &&& found is Some
}

/// Register index of a PLL.
fn pll_index(p: pll) -> (r: usize)
    ensures
        r as int == pll_reg(p),
{
    match p {
        pll::PLL0 => PLL0,
        pll::PLL1 => PLL1,
        pll::PLL2 => PLL2,
    }
}

/// Program a PLL from `source` with the divider settings `found` computed
/// for the wanted frequency, and return the frequency it then gives.
/// PLL0 and PLL1 refuse any source but IN0; a stopped source, or no
/// settings found, is refused too. A refusal leaves every register as it was.
pub fn pll_source_set_freq(s: &mut Sysctl, p: pll, source: clock_source, found: Option<PllParams>) -> (r:
    Result<u32, ()>)
    requires
        old(s).regs@.len() == SYSCTL_REGS,
        pll_source_allowed(p, source) ==> freq_ok(old(s).regs@, FreqQuery::Source(source)),
        pll_setting_applies(old(s).regs@, p, source, found) ==> freq_ok(
            params_applied(old(s).regs@, p, found->0),
            FreqQuery::Pll(p),
        ),
    ensures
        pll_setting_applies(old(s).regs@, p, source, found) ==> {
            &&& final(s).regs@ == params_applied(old(s).regs@, p, found->0)
            &&& r matches Ok(v) && v == freq(final(s).regs@, FreqQuery::Pll(p))
        },
        !pll_setting_applies(old(s).regs@, p, source, found) ==> {
            &&& final(s).regs@ == old(s).regs@
            &&& r is Err
        },
{
    if (p == pll::PLL0 || p == pll::PLL1) && source != clock_source::IN0 {
        return Err(());
    }
    let freq_in = clock_source_get_freq(s, source);
    if freq_in == 0 {
        return Err(());
    }
    match found {
        Some(f) => {
            let r = pll_index(p);
            s.write_field(r, 0, 0x0f, f.clkr as u32);
            s.write_field(r, 4, 0x3f, f.clkf as u32);
            s.write_field(r, 10, 0x0f, f.clkod as u32);
            s.write_field(r, 14, 0x3f, f.bwadj as u32);
            proof {
                assert(s.regs@ =~= params_applied(old(s).regs@, p, f));
            }
            Ok(pll_get_freq(s, p))
        },
        None => Err(()),
    }
}

/// The registers once the CPU clock runs from IN0 (for PLL0), and the PLL's
/// output is disabled and the PLL powered down.
pub open spec fn pll_stopped(regs: Seq<u32>, p: pll) -> Seq<u32> {
    let r1 = if p is PLL0 {
        set_reg_field(regs, CLK_SEL0 as int, 0, 0x01, 0)
    } else {
        regs
    };
    let r2 = set_reg_field(r1, pll_reg(p), 25, 0x01, 0);
    set_reg_field(r2, pll_reg(p), 21, 0x01, 0)
}

/// The source a PLL is programmed from: PLL2's selected input, IN0 for the
/// others.
pub open spec fn pll_input(regs: Seq<u32>, p: pll) -> clock_source {
    if p is PLL2 {
        cksel_source(field32(regs[PLL2 as int], 26, 0x03))
    } else {
        clock_source::IN0
    }
}

/// First part of changing a PLL's frequency, up to powering it on again:
/// move the CPU clock to IN0 (for PLL0), disable the output, power down,
/// program the dividers from the PLL's input (as `pll_source_set_freq`), and
/// power up. The result is that of programming the dividers.
pub fn pll_set_freq_prepare(s: &mut Sysctl, p: pll, found: Option<PllParams>) -> (r: Result<u32, ()>)
    requires
        old(s).regs@.len() == SYSCTL_REGS,
        p is PLL2 ==> field32(old(s).regs@[PLL2 as int], 26, 0x03) <= 2,
        freq_ok(pll_stopped(old(s).regs@, p), FreqQuery::Source(pll_input(old(s).regs@, p))),
        pll_setting_applies(pll_stopped(old(s).regs@, p), p, pll_input(old(s).regs@, p), found)
            ==> freq_ok(params_applied(pll_stopped(old(s).regs@, p), p, found->0), FreqQuery::Pll(p)),
    ensures
        ({
            let stopped = pll_stopped(old(s).regs@, p);
            let src = pll_input(old(s).regs@, p);
            let applies = pll_setting_applies(stopped, p, src, found);
            let programmed = if applies {
                params_applied(stopped, p, found->0)
            } else {
                stopped
            };
            &&& final(s).regs@ == set_reg_field(programmed, pll_reg(p), 21, 0x01, 1)
            &&& applies ==> (r matches Ok(v) && v == freq(programmed, FreqQuery::Pll(p)))
            &&& !applies ==> r is Err
        }),
{
    let r = pll_index(p);
    if p == pll::PLL0 {
        clock_set_clock_select(s, clock_select::ACLK, 0);
    }
    s.write_field(r, 25, 0x01, bit32(false));
    s.write_field(r, 21, 0x01, bit32(false));
    proof {
        assert(s.regs@ =~= pll_stopped(old(s).regs@, p));
        let w = old(s).regs@[PLL2 as int];
        let w2 = s.regs@[PLL2 as int];
        if p is PLL2 {
            let w1 = with_field32(w, 25, 0x01, 0);
            assert(w2 == with_field32(w1, 21, 0x01, 0));
            assert(field32(w2, 26, 0x03) == field32(w, 26, 0x03)) by (bit_vector)
                requires
                    w1 == (w & !(0x01u32 << 25u32)) | ((0u32 & 0x01u32) << 25u32),
                    w2 == (w1 & !(0x01u32 << 21u32)) | ((0u32 & 0x01u32) << 21u32),
            ;
        }
    }
    let result = if p == pll::PLL2 {
        let cksel = clock_get_clock_select(s, clock_select::PLL2);
        let src = pll2_cksel_to_source(cksel);
        pll_source_set_freq(s, p, src, found)
    } else {
        pll_source_set_freq(s, p, clock_source::IN0, found)
    };
    s.write_field(r, 21, 0x01, bit32(true));
    result
}

/// Drive a PLL's reset bit.
pub fn pll_write_reset(s: &mut Sysctl, p: pll, value: bool)
    requires
        old(s).regs@.len() == SYSCTL_REGS,
    ensures
        final(s).regs@ == set_reg_field(old(s).regs@, pll_reg(p), 20, 0x01, flag32(value)),
{
    s.write_field(pll_index(p), 20, 0x01, bit32(value));
}

/// Last part of changing a PLL's frequency, once it has locked: enable its
/// output and, for PLL0, move the CPU clock back to it.
pub fn pll_set_freq_finish(s: &mut Sysctl, p: pll)
    requires
        old(s).regs@.len() == SYSCTL_REGS,
    ensures
        ({
            let r1 = set_reg_field(old(s).regs@, pll_reg(p), 25, 0x01, 1);
            final(s).regs@ == if p is PLL0 {
                set_reg_field(r1, CLK_SEL0 as int, 0, 0x01, 1)
            } else {
                r1
            }
        }),
{
    s.write_field(pll_index(p), 25, 0x01, bit32(true));
    if p == pll::PLL0 {
        clock_set_clock_select(s, clock_select::ACLK, 1);
    }
}

/// The IN0 clock is always answerable, at the oscillator's frequency.
pub proof fn lemma_in0_freq(regs: Seq<u32>)
    ensures
        freq_ok(regs, FreqQuery::Clock(clock::IN0)),
        freq(regs, FreqQuery::Clock(clock::IN0)) == SYSCTRL_CLOCK_FREQ_IN0,
{
    reveal_with_fuel(freq, 2);
    reveal_with_fuel(freq_ok, 2);
}

/// Law: a PLL2 input select value maps to a source that maps back to it.
pub proof fn law_pll2_cksel_round_trip(bits: u8)
    requires
        bits <= 2,
    ensures
        ({
            let src = if bits == 0 { clock_source::IN0 } else if bits == 1 { clock_source::PLL0 } else {
                clock_source::PLL1 };
            (if src is IN0 { 0u8 } else if src is PLL0 { 1u8 } else { 2u8 }) == bits
        }),
{
}

/// Law: a clock divider reads back what was set, cut to its field, and the
/// other registers keep their values.
pub proof fn law_threshold_read_after_set(regs: Seq<u32>, which: threshold, x: u32)
    requires
        regs.len() == SYSCTL_REGS,
    ensures
        ({
            let loc = threshold_loc(which);
            let after = set_reg_field(regs, loc.0, loc.1, loc.2, threshold_value(which, x));
            &&& field32(after[loc.0], loc.1, loc.2) == threshold_value(which, x) & loc.2
            &&& forall|r: int| 0 <= r < SYSCTL_REGS && r != loc.0 ==> after[r] == regs[r]
        }),
{
    let loc = threshold_loc(which);
    let v = regs[loc.0];
    let x2 = threshold_value(which, x);
    let sh = loc.1;
    let m = loc.2;
    assert((m << sh) >> sh == m) by (bit_vector)
        requires (sh == 0 || sh == 1 || sh == 3 || sh == 4 || sh == 6 || sh == 8 || sh == 9 || sh == 12 || sh == 16 || sh == 24),
            (m == 3 && sh == 1) || (m == 7 && sh <= 9) || (m == 0x0f && sh <= 16) || (m == 0xff && sh <= 24) || (m == 0xffff && sh <= 16);
    crate::regfield::law_field32_read_after_write(v, sh, m, x2);
}


/// A clock that runs from IN0 or PLL0 as selector bit `sel_bit` of
/// `CLK_SEL0` says: 26 MHz for 0, PLL0's output otherwise.
pub open spec fn in0_or_pll0(regs: Seq<u32>, sel_bit: u32) -> int {
    if field32(regs[CLK_SEL0 as int], sel_bit, 0x01) == 0 {
        26_000_000
    } else {
        freq(regs, FreqQuery::Pll(pll::PLL0))
    }
}

/// Law: each halved clock runs at its source's frequency over twice its
/// divider plus one, the divider being its field of the threshold
/// registers: SPI3 and the timers from IN0 or PLL0 as their select bit
/// says, SPI0 to SPI2 and the I2C clocks from PLL0, the I2S clocks from
/// PLL2, and the watchdogs from IN0.
pub proof fn law_halved_clocks(regs: Seq<u32>)
    requires
        regs.len() == SYSCTL_REGS,
    ensures
        freq(regs, FreqQuery::Clock(clock::SPI3)) == in0_or_pll0(regs, 12) / ((field32(regs[CLK_TH1 as int], 24,
            0xff) + 1) * 2),
        freq(regs, FreqQuery::Clock(clock::TIMER0)) == in0_or_pll0(regs, 13) / ((field32(regs[CLK_TH2 as int], 0,
            0xff) + 1) * 2),
        freq(regs, FreqQuery::Clock(clock::TIMER1)) == in0_or_pll0(regs, 14) / ((field32(regs[CLK_TH2 as int], 8,
            0xff) + 1) * 2),
        freq(regs, FreqQuery::Clock(clock::TIMER2)) == in0_or_pll0(regs, 15) / ((field32(regs[CLK_TH2 as int], 16,
            0xff) + 1) * 2),
        freq(regs, FreqQuery::Clock(clock::SPI0)) == freq(regs, FreqQuery::Pll(pll::PLL0)) / ((field32(
            regs[CLK_TH1 as int], 0, 0xff) + 1) * 2),
        freq(regs, FreqQuery::Clock(clock::SPI1)) == freq(regs, FreqQuery::Pll(pll::PLL0)) / ((field32(
            regs[CLK_TH1 as int], 8, 0xff) + 1) * 2),
        freq(regs, FreqQuery::Clock(clock::SPI2)) == freq(regs, FreqQuery::Pll(pll::PLL0)) / ((field32(
            regs[CLK_TH1 as int], 16, 0xff) + 1) * 2),
        freq(regs, FreqQuery::Clock(clock::I2C0)) == freq(regs, FreqQuery::Pll(pll::PLL0)) / ((field32(
            regs[CLK_TH5 as int], 8, 0xff) + 1) * 2),
        freq(regs, FreqQuery::Clock(clock::I2C1)) == freq(regs, FreqQuery::Pll(pll::PLL0)) / ((field32(
            regs[CLK_TH5 as int], 16, 0xff) + 1) * 2),
        freq(regs, FreqQuery::Clock(clock::I2C2)) == freq(regs, FreqQuery::Pll(pll::PLL0)) / ((field32(
            regs[CLK_TH5 as int], 24, 0xff) + 1) * 2),
        freq(regs, FreqQuery::Clock(clock::I2S0)) == freq(regs, FreqQuery::Pll(pll::PLL2)) / ((field32(
            regs[CLK_TH3 as int], 0, 0xffff) + 1) * 2),
        freq(regs, FreqQuery::Clock(clock::I2S1)) == freq(regs, FreqQuery::Pll(pll::PLL2)) / ((field32(
            regs[CLK_TH3 as int], 16, 0xffff) + 1) * 2),
        freq(regs, FreqQuery::Clock(clock::I2S2)) == freq(regs, FreqQuery::Pll(pll::PLL2)) / ((field32(
            regs[CLK_TH4 as int], 0, 0xffff) + 1) * 2),
        freq(regs, FreqQuery::Clock(clock::WDT0)) == 26_000_000int / ((field32(regs[CLK_TH6 as int], 0, 0xff) + 1)
            * 2),
        freq(regs, FreqQuery::Clock(clock::WDT1)) == 26_000_000int / ((field32(regs[CLK_TH6 as int], 8, 0xff) + 1)
            * 2),
{
    reveal_with_fuel(freq, 2);
}

/// Law: on a controller whose registers are all zero (as after reset) the
/// timers, SPI3 and the watchdogs run from IN0 at half its 26 MHz.
pub proof fn law_reset_halved_clocks_run_at_half_in0(regs: Seq<u32>)
    requires
        regs.len() == SYSCTL_REGS,
        forall|i: int| 0 <= i < regs.len() ==> regs[i] == 0,
    ensures
        freq(regs, FreqQuery::Clock(clock::TIMER0)) == 13_000_000,
        freq(regs, FreqQuery::Clock(clock::TIMER1)) == 13_000_000,
        freq(regs, FreqQuery::Clock(clock::TIMER2)) == 13_000_000,
        freq(regs, FreqQuery::Clock(clock::SPI3)) == 13_000_000,
        freq(regs, FreqQuery::Clock(clock::WDT0)) == 13_000_000,
        freq(regs, FreqQuery::Clock(clock::WDT1)) == 13_000_000,
{
    law_halved_clocks(regs);
    assert(field32(0u32, 12, 0x01) == 0 && field32(0u32, 13, 0x01) == 0 && field32(0u32, 14, 0x01) == 0
        && field32(0u32, 15, 0x01) == 0 && field32(0u32, 0, 0xff) == 0 && field32(0u32, 8, 0xff) == 0
        && field32(0u32, 16, 0xff) == 0 && field32(0u32, 24, 0xff) == 0) by (bit_vector);
    assert(regs[CLK_SEL0 as int] == 0 && regs[CLK_TH1 as int] == 0 && regs[CLK_TH2 as int] == 0
        && regs[CLK_TH6 as int] == 0);
    assert(in0_or_pll0(regs, 12) == 26_000_000 && in0_or_pll0(regs, 13) == 26_000_000 && in0_or_pll0(regs, 14)
        == 26_000_000 && in0_or_pll0(regs, 15) == 26_000_000);
    assert(field32(regs[CLK_TH2 as int], 0, 0xff) == 0 && field32(regs[CLK_TH2 as int], 8, 0xff) == 0
        && field32(regs[CLK_TH2 as int], 16, 0xff) == 0 && field32(regs[CLK_TH1 as int], 24, 0xff) == 0);
    assert(field32(regs[CLK_TH6 as int], 0, 0xff) == 0 && field32(regs[CLK_TH6 as int], 8, 0xff) == 0);
    assert(26_000_000int / ((0int + 1) * 2) == 13_000_000) by (nonlinear_arith);
}

/// Law: distinct DMA request lines are selected by distinct values of the
/// six-bit handshake select fields.
pub proof fn law_dma_select_codes_distinct(a: dma_select, b: dma_select)
    ensures
        dma_select_code(a) == dma_select_code(b) ==> a == b,
        dma_select_code(a) <= 0x3f,
{
}

/// The output of a PLL whose input runs at `fin` Hz and whose register is
/// `v`: the input times NF over NR times OD, each field plus one.
pub open spec fn pll_output(fin: int, v: u32) -> int {
    fin * (field32(v, 4, 0x3f) + 1) / ((field32(v, 0, 0x0f) + 1) * (field32(v, 10, 0x0f) + 1))
}

/// Law: PLL0 and PLL1 multiply IN0's 26 MHz by their register's NF over NR
/// times OD (each field plus one); PLL2 does so with the source its input
/// select names (0 IN0, 1 PLL0, 2 PLL1).
pub proof fn law_pll_outputs(regs: Seq<u32>)
    requires
        regs.len() == SYSCTL_REGS,
    ensures
        freq(regs, FreqQuery::Pll(pll::PLL0)) == pll_output(26_000_000, regs[PLL0 as int]),
        freq(regs, FreqQuery::Pll(pll::PLL1)) == pll_output(26_000_000, regs[PLL1 as int]),
        field32(regs[PLL2 as int], 26, 0x03) == 0 ==> freq(regs, FreqQuery::Pll(pll::PLL2)) == pll_output(
            26_000_000, regs[PLL2 as int]),
        field32(regs[PLL2 as int], 26, 0x03) == 1 ==> freq(regs, FreqQuery::Pll(pll::PLL2)) == pll_output(
            freq(regs, FreqQuery::Pll(pll::PLL0)), regs[PLL2 as int]),
        field32(regs[PLL2 as int], 26, 0x03) == 2 ==> freq(regs, FreqQuery::Pll(pll::PLL2)) == pll_output(
            freq(regs, FreqQuery::Pll(pll::PLL1)), regs[PLL2 as int]),
{
    reveal_with_fuel(freq, 2);
}

/// The ACLK frequency the registers ask for: IN0's 26 MHz when bit 0 of
/// `CLK_SEL0` is 0, otherwise PLL0 divided by 2, 4, 8 or 16 as its two-bit
/// divider (bits 1..2) is 0 to 3.
pub open spec fn aclk_from_registers(regs: Seq<u32>) -> int {
    let s0 = regs[CLK_SEL0 as int];
    if field32(s0, 0, 0x01) == 0 {
        26_000_000int
    } else {
        let f = field32(s0, 1, 0x03);
        freq(regs, FreqQuery::Pll(pll::PLL0)) / (if f == 0 { 2int } else if f == 1 { 4int } else if f == 2 {
            8int
        } else {
            16int
        })
    }
}

/// Law: the CPU clock, and the ACLK, DMA, FFT and HCLK clocks with it, run at
/// the ACLK frequency the registers ask for.
pub proof fn law_cpu_clock(regs: Seq<u32>)
    requires
        regs.len() == SYSCTL_REGS,
    ensures
        freq(regs, FreqQuery::Clock(clock::CPU)) == aclk_from_registers(regs),
        freq(regs, FreqQuery::Clock(clock::ACLK)) == aclk_from_registers(regs),
        freq(regs, FreqQuery::Clock(clock::DMA)) == aclk_from_registers(regs),
        freq(regs, FreqQuery::Clock(clock::FFT)) == aclk_from_registers(regs),
        freq(regs, FreqQuery::Clock(clock::HCLK)) == aclk_from_registers(regs),
{
    reveal_with_fuel(freq, 2);
    let s0 = regs[CLK_SEL0 as int];
    assert(field32(s0, 1, 0x03) <= 3) by (bit_vector);
}

/// Law: the clocks behind ACLK divide it by their divider plus one: the APB
/// buses by bits 3..5, 6..8 and 9..11 of `CLK_SEL0`, SRAM0, SRAM1, DVP and ROM
/// by their fields of `CLK_TH0`; AI divides PLL1 by its field of `CLK_TH0`.
pub proof fn law_aclk_dividers(regs: Seq<u32>)
    requires
        regs.len() == SYSCTL_REGS,
    ensures
        ({
            let s0 = regs[CLK_SEL0 as int];
            let t0 = regs[CLK_TH0 as int];
            let aclk = aclk_from_registers(regs);
            &&& freq(regs, FreqQuery::Clock(clock::APB0)) == aclk / (field32(s0, 3, 0x07) + 1)
            &&& freq(regs, FreqQuery::Clock(clock::UART1)) == aclk / (field32(s0, 3, 0x07) + 1)
            &&& freq(regs, FreqQuery::Clock(clock::APB1)) == aclk / (field32(s0, 6, 0x07) + 1)
            &&& freq(regs, FreqQuery::Clock(clock::APB2)) == aclk / (field32(s0, 9, 0x07) + 1)
            &&& freq(regs, FreqQuery::Clock(clock::SRAM0)) == aclk / (field32(t0, 0, 0x0f) + 1)
            &&& freq(regs, FreqQuery::Clock(clock::SRAM1)) == aclk / (field32(t0, 4, 0x0f) + 1)
            &&& freq(regs, FreqQuery::Clock(clock::DVP)) == aclk / (field32(t0, 12, 0x0f) + 1)
            &&& freq(regs, FreqQuery::Clock(clock::ROM)) == aclk / (field32(t0, 16, 0x0f) + 1)
            &&& freq(regs, FreqQuery::Clock(clock::AI)) == freq(regs, FreqQuery::Pll(pll::PLL1)) / (field32(t0, 8,
                0x0f) + 1)
        }),
{
    law_cpu_clock(regs);
    reveal_with_fuel(freq, 2);
}

} // verus!
