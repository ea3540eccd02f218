//! SPI0 (master): transfer configuration and clock rate over the
//! controller's 32-bit registers.
use vstd::prelude::*;
use vstd::std_specs::convert::FromSpecImpl;
use crate::regfield::{with_field32, set_field32, field32};
use crate::sysctl::{Sysctl, SYSCTL_REGS, clock, threshold, clock_enable, clock_set_threshold,
    clock_get_freq, enabled, set_reg_field, freq, freq_ok, FreqQuery, CLK_TH1, dma_channel, dma_select,
    dma_select_code, channel_index, DMA_SEL1, DMA_SEL0};
use crate::dmac::{address_increment, burst_length, transfer_width};

verus! {

/// Clock polarity and phase mode.
#[derive(Clone, Copy, Debug, PartialEq, Eq, Structural)]
pub enum WORK_MODE_A {
    MODE0,
    MODE1,
    MODE2,
    MODE3,
}

/// Register encoding of a clock polarity and phase mode.
pub open spec fn work_mode_a_code(v: WORK_MODE_A) -> u8 {
    match v {
        WORK_MODE_A::MODE0 => 0,
        WORK_MODE_A::MODE1 => 1,
        WORK_MODE_A::MODE2 => 2,
        WORK_MODE_A::MODE3 => 3,
    }
}

impl From<WORK_MODE_A> for u8 {
    fn from(variant: WORK_MODE_A) -> (r: u8) {
        match variant {
            WORK_MODE_A::MODE0 => 0,
            WORK_MODE_A::MODE1 => 1,
            WORK_MODE_A::MODE2 => 2,
            WORK_MODE_A::MODE3 => 3,
        }
    }
}

impl FromSpecImpl<WORK_MODE_A> for u8 {
    open spec fn obeys_from_spec() -> bool {
        true
    }

    open spec fn from_spec(variant: WORK_MODE_A) -> u8 {
        work_mode_a_code(variant)
    }
}

/// Transfer mode.
#[derive(Clone, Copy, Debug, PartialEq, Eq, Structural)]
pub enum TMOD_A {
    TRANS_RECV,
    TRANS,
    RECV,
    EEROM,
}

/// Register encoding of a transfer mode.
pub open spec fn tmod_a_code(v: TMOD_A) -> u8 {
    match v {
        TMOD_A::TRANS_RECV => 0,
        TMOD_A::TRANS => 1,
        TMOD_A::RECV => 2,
        TMOD_A::EEROM => 3,
    }
}

/// Law: the transfer modes are written as the documented values of the
/// two-bit transfer-mode field of control register 0 (both ways 0, transmit
/// only 1, receive only 2, EEPROM read 3), so distinct modes write distinct
/// values, and reading the field back gives the mode written.
pub proof fn law_transfer_mode_codes(a: TMOD_A, b: TMOD_A, v: u32)
    ensures
        tmod_a_code(a) == tmod_a_code(b) ==> a == b,
        (a is TRANS_RECV) <==> tmod_a_code(a) == 0,
        (a is TRANS) <==> tmod_a_code(a) == 1,
        (a is RECV) <==> tmod_a_code(a) == 2,
        (a is EEROM) <==> tmod_a_code(a) == 3,
        field32(with_field32(v, 8, 0x03, tmod_a_code(a) as u32), 8, 0x03) == tmod_a_code(a) as u32,
{
    let c = tmod_a_code(a) as u32;
    assert(c <= 3);
    assert((((v & !(0x03u32 << 8u32)) | ((c & 0x03u32) << 8u32)) >> 8u32) & 0x03u32 == c) by (bit_vector)
        requires
            c <= 3,
    ;
}

/// Law: distinct clock modes, frame formats and instruction/address
/// transfer formats write distinct values, each within its field (two bits).
pub proof fn law_spi_codes_distinct(
    w1: WORK_MODE_A,
    w2: WORK_MODE_A,
    f1: FRAME_FORMAT_A,
    f2: FRAME_FORMAT_A,
    a1: AITM_A,
    a2: AITM_A,
)
    ensures
        work_mode_a_code(w1) == work_mode_a_code(w2) ==> w1 == w2,
        work_mode_a_code(w1) <= 3,
        frame_format_a_code(f1) == frame_format_a_code(f2) ==> f1 == f2,
        frame_format_a_code(f1) <= 3,
        aitm_a_code(a1) == aitm_a_code(a2) ==> a1 == a2,
        aitm_a_code(a1) <= 3,
{
}

impl From<TMOD_A> for u8 {
    fn from(variant: TMOD_A) -> (r: u8) {
        match variant {
            TMOD_A::TRANS_RECV => 0,
            TMOD_A::TRANS => 1,
            TMOD_A::RECV => 2,
            TMOD_A::EEROM => 3,
        }
    }
}

impl FromSpecImpl<TMOD_A> for u8 {
    open spec fn obeys_from_spec() -> bool {
        true
    }

    open spec fn from_spec(variant: TMOD_A) -> u8 {
        tmod_a_code(variant)
    }
}

/// Frame format.
#[derive(Clone, Copy, Debug, PartialEq, Eq, Structural)]
pub enum FRAME_FORMAT_A {
    STANDARD,
    DUAL,
    QUAD,
    OCTAL,
}

/// Register encoding of a frame format.
pub open spec fn frame_format_a_code(v: FRAME_FORMAT_A) -> u8 {
    match v {
        FRAME_FORMAT_A::STANDARD => 0,
        FRAME_FORMAT_A::DUAL => 1,
        FRAME_FORMAT_A::QUAD => 2,
        FRAME_FORMAT_A::OCTAL => 3,
    }
}

impl From<FRAME_FORMAT_A> for u8 {
    fn from(variant: FRAME_FORMAT_A) -> (r: u8) {
        match variant {
            FRAME_FORMAT_A::STANDARD => 0,
            FRAME_FORMAT_A::DUAL => 1,
            FRAME_FORMAT_A::QUAD => 2,
            FRAME_FORMAT_A::OCTAL => 3,
        }
    }
}

impl FromSpecImpl<FRAME_FORMAT_A> for u8 {
    open spec fn obeys_from_spec() -> bool {
        true
    }

    open spec fn from_spec(variant: FRAME_FORMAT_A) -> u8 {
        frame_format_a_code(variant)
    }
}

/// Instruction and address transfer format.
#[derive(Clone, Copy, Debug, PartialEq, Eq, Structural)]
pub enum AITM_A {
    STANDARD,
    ADDR_STANDARD,
    AS_FRAME_FORMAT,
}

/// Register encoding of a instruction and address transfer format.
pub open spec fn aitm_a_code(v: AITM_A) -> u8 {
    match v {
        AITM_A::STANDARD => 0,
        AITM_A::ADDR_STANDARD => 1,
        AITM_A::AS_FRAME_FORMAT => 2,
    }
}

impl From<AITM_A> for u8 {
    fn from(variant: AITM_A) -> (r: u8) {
        match variant {
            AITM_A::STANDARD => 0,
            AITM_A::ADDR_STANDARD => 1,
            AITM_A::AS_FRAME_FORMAT => 2,
        }
    }
}

impl FromSpecImpl<AITM_A> for u8 {
    open spec fn obeys_from_spec() -> bool {
        true
    }

    open spec fn from_spec(variant: AITM_A) -> u8 {
        aitm_a_code(variant)
    }
}

pub type work_mode = WORK_MODE_A;
pub type tmod = TMOD_A;
pub type frame_format = FRAME_FORMAT_A;
pub type aitm = AITM_A;

/// Control register 1: number of frames to receive, less one.
pub struct CTRLR1 {
    pub bits: u32,
}

impl CTRLR1 {
    pub fn read(&self) -> (r: u32)
        ensures
            r == self.bits,
    {
        self.bits
    }

    pub fn write(&mut self, value: u32) -> (r: &mut Self)
        ensures
            *final(self) == *final(r),
            r.bits == value,
    {
        self.bits = value;
        self
    }
}

/// Enable register.
pub struct SSIENR {
    pub bits: u32,
}

impl SSIENR {
    pub fn read(&self) -> (r: u32)
        ensures
            r == self.bits,
    {
        self.bits
    }

    pub fn write(&mut self, value: u32) -> (r: &mut Self)
        ensures
            *final(self) == *final(r),
            r.bits == value,
    {
        self.bits = value;
        self
    }
}

/// Slave enable register.
pub struct SER {
    pub bits: u32,
}

impl SER {
    pub fn read(&self) -> (r: u32)
        ensures
            r == self.bits,
    {
        self.bits
    }

    pub fn write(&mut self, value: u32) -> (r: &mut Self)
        ensures
            *final(self) == *final(r),
            r.bits == value,
    {
        self.bits = value;
        self
    }
}

/// Baud rate divider.
pub struct BAUDR {
    pub bits: u32,
}

impl BAUDR {
    pub fn read(&self) -> (r: u32)
        ensures
            r == self.bits,
    {
        self.bits
    }

    pub fn write(&mut self, value: u32) -> (r: &mut Self)
        ensures
            *final(self) == *final(r),
            r.bits == value,
    {
        self.bits = value;
        self
    }
}

/// Transmit FIFO level.
pub struct TXFLR {
    pub bits: u32,
}

impl TXFLR {
    pub fn read(&self) -> (r: u32)
        ensures
            r == self.bits,
    {
        self.bits
    }

    pub fn write(&mut self, value: u32) -> (r: &mut Self)
        ensures
            *final(self) == *final(r),
            r.bits == value,
    {
        self.bits = value;
        self
    }
}

/// Receive FIFO level.
pub struct RXFLR {
    pub bits: u32,
}

impl RXFLR {
    pub fn read(&self) -> (r: u32)
        ensures
            r == self.bits,
    {
        self.bits
    }

    pub fn write(&mut self, value: u32) -> (r: &mut Self)
        ensures
            *final(self) == *final(r),
            r.bits == value,
    {
        self.bits = value;
        self
    }
}

/// Status register.
pub struct SR {
    pub bits: u32,
}

impl SR {
    pub fn read(&self) -> (r: u32)
        ensures
            r == self.bits,
    {
        self.bits
    }

    pub fn write(&mut self, value: u32) -> (r: &mut Self)
        ensures
            *final(self) == *final(r),
            r.bits == value,
    {
        self.bits = value;
        self
    }
}

/// Interrupt mask register.
pub struct IMR {
    pub bits: u32,
}

impl IMR {
    pub fn read(&self) -> (r: u32)
        ensures
            r == self.bits,
    {
        self.bits
    }

    pub fn write(&mut self, value: u32) -> (r: &mut Self)
        ensures
            *final(self) == *final(r),
            r.bits == value,
    {
        self.bits = value;
        self
    }
}

/// DMA control register.
pub struct DMACR {
    pub bits: u32,
}

impl DMACR {
    pub fn read(&self) -> (r: u32)
        ensures
            r == self.bits,
    {
        self.bits
    }

    pub fn write(&mut self, value: u32) -> (r: &mut Self)
        ensures
            *final(self) == *final(r),
            r.bits == value,
    {
        self.bits = value;
        self
    }
}

/// DMA transmit data level.
pub struct DMATDLR {
    pub bits: u32,
}

impl DMATDLR {
    pub fn read(&self) -> (r: u32)
        ensures
            r == self.bits,
    {
        self.bits
    }

    pub fn write(&mut self, value: u32) -> (r: &mut Self)
        ensures
            *final(self) == *final(r),
            r.bits == value,
    {
        self.bits = value;
        self
    }
}

/// DMA receive data level.
pub struct DMARDLR {
    pub bits: u32,
}

impl DMARDLR {
    pub fn read(&self) -> (r: u32)
        ensures
            r == self.bits,
    {
        self.bits
    }

    pub fn write(&mut self, value: u32) -> (r: &mut Self)
        ensures
            *final(self) == *final(r),
            r.bits == value,
    {
        self.bits = value;
        self
    }
}

/// Data register.
pub struct DR {
    pub bits: u32,
}

impl DR {
    pub fn read(&self) -> (r: u32)
        ensures
            r == self.bits,
    {
        self.bits
    }

    pub fn write(&mut self, value: u32) -> (r: &mut Self)
        ensures
            *final(self) == *final(r),
            r.bits == value,
    {
        self.bits = value;
        self
    }
}

/// Endianness register.
pub struct ENDIAN {
    pub bits: u32,
}

impl ENDIAN {
    pub fn read(&self) -> (r: u32)
        ensures
            r == self.bits,
    {
        self.bits
    }

    pub fn write(&mut self, value: u32) -> (r: &mut Self)
        ensures
            *final(self) == *final(r),
            r.bits == value,
    {
        self.bits = value;
        self
    }
}

/// Control register 0.
pub struct CTRLR0 {
    pub bits: u32,
}

impl CTRLR0 {
    pub fn read(&self) -> (r: u32)
        ensures
            r == self.bits,
    {
        self.bits
    }

    pub fn write(&mut self, value: u32) -> (r: &mut Self)
        ensures
            *final(self) == *final(r),
            r.bits == value,
    {
        self.bits = value;
        self
    }

    pub fn write_work_mode(&mut self, variant: WORK_MODE_A) -> (r: &mut Self)
        ensures
            *final(self) == *final(r),
            r.bits == with_field32(old(self).bits, 6, 0x03, work_mode_a_code(variant) as u32),
    {
        let v: u8 = variant.into();
        self.bits = set_field32(self.bits, 6, 0x03, v as u32);
        self
    }

    pub fn write_tmod(&mut self, variant: TMOD_A) -> (r: &mut Self)
        ensures
            *final(self) == *final(r),
            r.bits == with_field32(old(self).bits, 8, 0x03, tmod_a_code(variant) as u32),
    {
        let v: u8 = variant.into();
        self.bits = set_field32(self.bits, 8, 0x03, v as u32);
        self
    }

    pub fn write_frame_format(&mut self, variant: FRAME_FORMAT_A) -> (r: &mut Self)
        ensures
            *final(self) == *final(r),
            r.bits == with_field32(old(self).bits, 21, 0x03, frame_format_a_code(variant) as u32),
    {
        let v: u8 = variant.into();
        self.bits = set_field32(self.bits, 21, 0x03, v as u32);
        self
    }

    pub fn write_data_length(&mut self, value: u8) -> (r: &mut Self)
        ensures
            *final(self) == *final(r),
            r.bits == with_field32(old(self).bits, 16, 0x1f, value as u32),
    {
        self.bits = set_field32(self.bits, 16, 0x1f, value as u32);
        self
    }

}

/// Enhanced SPI control register.
pub struct SPI_CTRLR0 {
    pub bits: u32,
}

impl SPI_CTRLR0 {
    pub fn read(&self) -> (r: u32)
        ensures
            r == self.bits,
    {
        self.bits
    }

    pub fn write(&mut self, value: u32) -> (r: &mut Self)
        ensures
            *final(self) == *final(r),
            r.bits == value,
    {
        self.bits = value;
        self
    }

    pub fn write_aitm(&mut self, variant: AITM_A) -> (r: &mut Self)
        ensures
            *final(self) == *final(r),
            r.bits == with_field32(old(self).bits, 0, 0x03, aitm_a_code(variant) as u32),
    {
        let v: u8 = variant.into();
        self.bits = set_field32(self.bits, 0, 0x03, v as u32);
        self
    }

    pub fn write_addr_length(&mut self, value: u8) -> (r: &mut Self)
        ensures
            *final(self) == *final(r),
            r.bits == with_field32(old(self).bits, 2, 0x0f, value as u32),
    {
        self.bits = set_field32(self.bits, 2, 0x0f, value as u32);
        self
    }

    pub fn write_inst_length(&mut self, value: u8) -> (r: &mut Self)
        ensures
            *final(self) == *final(r),
            r.bits == with_field32(old(self).bits, 8, 0x03, value as u32),
    {
        self.bits = set_field32(self.bits, 8, 0x03, value as u32);
        self
    }

    pub fn write_wait_cycle(&mut self, value: u8) -> (r: &mut Self)
        ensures
            *final(self) == *final(r),
            r.bits == with_field32(old(self).bits, 11, 0x1f, value as u32),
    {
        self.bits = set_field32(self.bits, 11, 0x1f, value as u32);
        self
    }

}

/// Serial Peripheral Interface 0 (master): its registers.
pub struct SPI0 {
    pub ctrlr0: CTRLR0,
    pub ctrlr1: CTRLR1,
    pub ssienr: SSIENR,
    pub ser: SER,
    pub baudr: BAUDR,
    pub txflr: TXFLR,
    pub rxflr: RXFLR,
    pub sr: SR,
    pub imr: IMR,
    pub dmacr: DMACR,
    pub dmatdlr: DMATDLR,
    pub dmardlr: DMARDLR,
    pub dr: DR,
    pub spi_ctrlr0: SPI_CTRLR0,
    pub endian: ENDIAN,
}

impl SPI0 {
    /// The registers, all zero.
    pub fn new() -> (s: Self)
        ensures
            s.ctrlr0.bits == 0,
            s.ctrlr1.bits == 0,
            s.ssienr.bits == 0,
            s.ser.bits == 0,
            s.baudr.bits == 0,
            s.txflr.bits == 0,
            s.rxflr.bits == 0,
            s.sr.bits == 0,
            s.imr.bits == 0,
            s.dmacr.bits == 0,
            s.dmatdlr.bits == 0,
            s.dmardlr.bits == 0,
            s.dr.bits == 0,
            s.spi_ctrlr0.bits == 0,
            s.endian.bits == 0,
    {
        SPI0 {
            ctrlr0: CTRLR0 { bits: 0 },
            ctrlr1: CTRLR1 { bits: 0 },
            ssienr: SSIENR { bits: 0 },
            ser: SER { bits: 0 },
            baudr: BAUDR { bits: 0 },
            txflr: TXFLR { bits: 0 },
            rxflr: RXFLR { bits: 0 },
            sr: SR { bits: 0 },
            imr: IMR { bits: 0 },
            dmacr: DMACR { bits: 0 },
            dmatdlr: DMATDLR { bits: 0 },
            dmardlr: DMARDLR { bits: 0 },
            dr: DR { bits: 0 },
            spi_ctrlr0: SPI_CTRLR0 { bits: 0 },
            endian: ENDIAN { bits: 0 },
        }
    }
}

/// The code of an instruction length in bits, if it is one the controller
/// takes.
pub open spec fn inst_code(instruction_length: u8) -> u8 {
    if instruction_length == 0 {
        0
    } else if instruction_length == 4 {
        1
    } else if instruction_length == 8 {
        2
    } else {
        3
    }
}

/// The sysctl registers once the SPI0 clock is enabled and its divider is 0.
pub open spec fn spi_clock_regs(regs: Seq<u32>) -> Seq<u32> {
    set_reg_field(enabled(regs, clock::SPI0), CLK_TH1 as int, 0, 0xff, 0)
}

/// The baud rate divider for a clock and a wanted rate, clamped to 2..=65534.
pub open spec fn baud_divider(clock_freq: int, spi_clk: int) -> int {
    let d = clock_freq / spi_clk;
    if d < 2 { 2 } else if d > 65534 { 65534 } else { d }
}

/// SPI0 peripheral.
pub struct SPI {
    pub spi: SPI0,
}

/// Truncation of a SPI frame from the 32-bit data register to other unsigned
/// integer types.
pub trait TruncU32: Sized {
    /// The value a register word truncates to.
    spec fn trunc_spec(val: u32) -> Self;

    fn trunc(val: u32) -> (r: Self)
        ensures
            r == Self::trunc_spec(val),
    ;
}

impl TruncU32 for u32 {
    open spec fn trunc_spec(val: u32) -> u32 {
        val
    }

    fn trunc(val: u32) -> (r: u32) {
        val
    }
}

impl TruncU32 for u16 {
    open spec fn trunc_spec(val: u32) -> u16 {
        (val & 0xffff) as u16
    }

    fn trunc(val: u32) -> (r: u16) {
        let m: u32 = val & 0xffff;
        assert(m <= 0xffff) by (bit_vector)
            requires
                m == val & 0xffff,
        ;
        m as u16
    }
}

impl TruncU32 for u8 {
    open spec fn trunc_spec(val: u32) -> u8 {
        (val & 0xff) as u8
    }

    fn trunc(val: u32) -> (r: u8) {
        let m: u32 = val & 0xff;
        assert(m <= 0xff) by (bit_vector)
            requires
                m == val & 0xff,
        ;
        m as u8
    }
}

impl SPI {
    pub fn new() -> (s: Self)
        ensures
            s.spi.ctrlr0.bits == 0 && s.spi.baudr.bits == 0 && s.spi.spi_ctrlr0.bits == 0,
    {
        SPI { spi: SPI0::new() }
    }

    /// Configure a transaction: interrupts and DMA off, the controller
    /// disabled, then the frame, instruction, address and wait-cycle settings.
    pub fn configure(
        &mut self,
        work_mode: work_mode,
        frame_format: frame_format,
        data_bit_length: u8,
        endian: u32,
        instruction_length: u8,
        address_length: u8,
        wait_cycles: u8,
        instruction_address_trans_mode: aitm,
        tmod: tmod,
    )
        requires
            4 <= data_bit_length <= 32,
            wait_cycles < 32,
            instruction_length == 0 || instruction_length == 4 || instruction_length == 8
                || instruction_length == 16,
            address_length % 4 == 0 && address_length <= 60,
        ensures
            final(self).spi.imr.bits == 0,
            final(self).spi.dmacr.bits == 0,
            final(self).spi.dmatdlr.bits == 0x10,
            final(self).spi.dmardlr.bits == 0,
            final(self).spi.ser.bits == 0,
            final(self).spi.ssienr.bits == 0,
            final(self).spi.ctrlr0.bits == with_field32(with_field32(with_field32(with_field32(
                old(self).spi.ctrlr0.bits, 6, 0x03, work_mode_a_code(work_mode) as u32), 8, 0x03,
                tmod_a_code(tmod) as u32), 21, 0x03, frame_format_a_code(frame_format) as u32), 16, 0x1f,
                (data_bit_length - 1) as u32),
            final(self).spi.spi_ctrlr0.bits == with_field32(with_field32(with_field32(with_field32(
                old(self).spi.spi_ctrlr0.bits, 0, 0x03, aitm_a_code(instruction_address_trans_mode) as u32),
                2, 0x0f, (address_length / 4) as u32), 8, 0x03, inst_code(instruction_length) as u32), 11,
                0x1f, wait_cycles as u32),
            final(self).spi.endian.bits == endian,
            final(self).spi.baudr == old(self).spi.baudr,
    {
        let inst_l: u8 = match instruction_length {
            0 => 0,
            4 => 1,
            8 => 2,
            _ => 3,
        };
        let addr_l: u8 = address_length / 4;
        self.spi.imr.write(0x00);
        self.spi.dmacr.write(0x00);
        self.spi.dmatdlr.write(0x10);
        self.spi.dmardlr.write(0x00);
        self.spi.ser.write(0x00);
        self.spi.ssienr.write(0x00);
        self.spi.ctrlr0.write_work_mode(work_mode).write_tmod(tmod).write_frame_format(frame_format).write_data_length(
            data_bit_length - 1);
        self.spi.spi_ctrlr0.write_aitm(instruction_address_trans_mode).write_addr_length(addr_l).write_inst_length(
            inst_l).write_wait_cycle(wait_cycles);
        self.spi.endian.write(endian);
    }

    /// Set the SPI clock rate: enable the SPI0 clock with divider 0, then set
    /// the baud divider to the clock over the wanted rate, clamped to
    /// 2..=65534. Returns the rate obtained.
    pub fn set_clk_rate(&mut self, sysctl: &mut Sysctl, spi_clk: u32) -> (r: u32)
        requires
            old(sysctl).regs@.len() == SYSCTL_REGS,
            spi_clk > 0,
            freq_ok(spi_clock_regs(old(sysctl).regs@), FreqQuery::Clock(clock::SPI0)),
        ensures
            final(sysctl).regs@ == spi_clock_regs(old(sysctl).regs@),
            ({
                let f = freq(spi_clock_regs(old(sysctl).regs@), FreqQuery::Clock(clock::SPI0));
                &&& final(self).spi.baudr.bits == baud_divider(f, spi_clk as int)
                &&& r == f / baud_divider(f, spi_clk as int)
            }),
            final(self).spi.ctrlr0 == old(self).spi.ctrlr0,
    {
        clock_enable(sysctl, clock::SPI0);
        clock_set_threshold(sysctl, threshold::SPI0, 0);
        let clock_freq: u32 = clock_get_freq(sysctl, clock::SPI0);
        let spi_baudr = clock_freq / spi_clk;
        let spi_baudr = if spi_baudr < 2 { 2 } else if spi_baudr > 65534 { 65534 } else { spi_baudr };
        self.spi.baudr.write(spi_baudr);
        clock_freq / spi_baudr
    }
}


/// Bus address of SPI0's data register, which DMA transfers read and write.
pub const SPI0_DR_ADDRESS: u64 = 0x5200_0060;

/// Whether a status register value shows the transmit FIFO empty and the
/// controller no longer busy.
pub open spec fn tx_idle(sr: u32) -> bool {
    sr & 0x05 == 0x04
}

/// Whether a status register value shows the transmit FIFO empty and the
/// controller no longer busy.
pub fn is_tx_idle(sr: u32) -> (r: bool)
    ensures
        r == tx_idle(sr),
{
    sr & 0x05 == 0x04
}

/// How many frames of a repeated value to push next: the free places of the
/// 32-frame transmit FIFO, given its level, but no more than remain.
pub fn fill_chunk(txflr: u32, tx_len: usize) -> (r: usize)
    requires
        txflr <= 32,
    ensures
        r == if (32 - txflr) < tx_len { (32 - txflr) as int } else { tx_len as int },
{
    let free = (32 - txflr) as usize;
    if free < tx_len {
        free
    } else {
        tx_len
    }
}

impl SPI {
    /// Select the slave on `chip_select` and enable the controller.
    pub fn begin_transfer(&mut self, chip_select: u32)
        requires
            chip_select < 32,
        ensures
            final(self).spi == (SPI0 {
                ser: SER { bits: 1u32 << chip_select },
                ssienr: SSIENR { bits: 1 },
                ..old(self).spi
            }),
    {
        self.spi.ser.write(1u32 << chip_select);
        self.spi.ssienr.write(0x01);
    }

    /// Deselect every slave and disable the controller.
    pub fn end_transfer(&mut self)
        ensures
            final(self).spi == (SPI0 { ser: SER { bits: 0 }, ssienr: SSIENR { bits: 0 }, ..old(self).spi }),
    {
        self.spi.ser.write(0x00);
        self.spi.ssienr.write(0x00);
    }

    /// Start of a receive of `len` frames (the transfer mode must be
    /// receive): the frame count less one into control register 1, the
    /// controller enabled, a dummy word into the data register, then the slave
    /// on `chip_select` selected. Returns those register writes, in order.
    pub fn recv_data_start(&mut self, chip_select: u32, len: usize) -> (writes: Vec<SpiWrite>)
        requires
            chip_select < 32,
            1 <= len <= 0x1_0000_0000,
        ensures
            writes@ == recv_start_writes(chip_select, len as nat),
            final(self).spi == (SPI0 {
                ctrlr1: CTRLR1 { bits: (len - 1) as u32 },
                dr: DR { bits: 0xffffffff },
                ser: SER { bits: 1u32 << chip_select },
                ssienr: SSIENR { bits: 1 },
                ..old(self).spi
            }),
    {
        let n = (len - 1) as u32;
        self.spi.ctrlr1.write(n);
        self.spi.ssienr.write(0x01);
        self.spi.dr.write(0xffffffff);
        self.spi.ser.write(1u32 << chip_select);
        let mut writes: Vec<SpiWrite> = Vec::new();
        writes.push(SpiWrite::Ctrlr1(n));
        writes.push(SpiWrite::Ssienr(1));
        writes.push(SpiWrite::Dr(0xffffffff));
        writes.push(SpiWrite::Ser(1u32 << chip_select));
        writes
    }

    /// End of a receive: each element of `rx` gets its frame, truncated to
    /// its type, then the slave is deselected and the controller disabled.
    /// Returns those two register writes, in order.
    pub fn recv_data_finish<X: TruncU32>(&mut self, rx: &mut Vec<X>, frames: &[u32]) -> (writes: Vec<SpiWrite>)
        requires
            frames@.len() == old(rx)@.len(),
        ensures
            final(rx)@.len() == old(rx)@.len(),
            forall|i: int| 0 <= i < frames@.len() ==> final(rx)@[i] == X::trunc_spec(#[trigger] frames@[i]),
            writes@ == deselect_writes(),
            final(self).spi == (SPI0 { ser: SER { bits: 0 }, ssienr: SSIENR { bits: 0 }, ..old(self).spi }),
    {
        let mut i: usize = 0;
        while i < rx.len()
            invariant
                i <= rx@.len(),
                rx@.len() == old(rx)@.len(),
                frames@.len() == rx@.len(),
                forall|j: int| 0 <= j < i ==> rx@[j] == X::trunc_spec(#[trigger] frames@[j]),
            decreases rx@.len() - i,
        {
            let v = X::trunc(frames[i]);
            rx.set(i, v);
            i = i + 1;
        }
        self.end_transfer();
        let mut writes: Vec<SpiWrite> = Vec::new();
        writes.push(SpiWrite::Ser(0));
        writes.push(SpiWrite::Ssienr(0));
        writes
    }

    /// Receive one frame per element of `rx` (the transfer mode must be
    /// receive). Returns the register writes, in order: the start of
    /// `recv_data_start`, which selects the slave on `chip_select` with the
    /// controller enabled, then the deselect and disable. `frames` are the
    /// words the data register gives, in order, between those two parts, as
    /// the receive FIFO fills; each element gets its frame truncated to its
    /// type. Nothing happens, and nothing is written, for an empty `rx`.
    pub fn recv_data<X: TruncU32>(&mut self, chip_select: u32, rx: &mut Vec<X>, frames: &[u32]) -> (writes: Vec<SpiWrite>)
        requires
            chip_select < 32,
            frames@.len() == old(rx)@.len(),
            old(rx)@.len() <= 0x1_0000_0000,
        ensures
            final(rx)@.len() == old(rx)@.len(),
            forall|i: int| 0 <= i < frames@.len() ==> final(rx)@[i] == X::trunc_spec(#[trigger] frames@[i]),
            old(rx)@.len() == 0 ==> writes@.len() == 0 && final(self).spi == old(self).spi,
            old(rx)@.len() > 0 ==> writes@ == recv_start_writes(chip_select, old(rx)@.len()) + deselect_writes(),
            old(rx)@.len() > 0 ==> final(self).spi == (SPI0 {
                ctrlr1: CTRLR1 { bits: (old(rx)@.len() - 1) as u32 },
                dr: DR { bits: 0xffffffff },
                ser: SER { bits: 0 },
                ssienr: SSIENR { bits: 0 },
                ..old(self).spi
            }),
    {
        if rx.len() == 0 {
            return Vec::new();
        }
        let mut writes = self.recv_data_start(chip_select, rx.len());
        let mut tail = self.recv_data_finish(rx, frames);
        writes.append(&mut tail);
        writes
    }

    /// Send `tx`, one frame per element. Returns the register writes, in
    /// order: the slave on `chip_select` selected and the controller
    /// enabled, one data register write per element with the element's
    /// frame, then the deselect and disable. The controller is left
    /// deselected and disabled, its data register holding the last frame.
    pub fn send_data<X: Into<u32> + Copy>(&mut self, chip_select: u32, tx: &[X]) -> (writes: Vec<SpiWrite>)
        requires
            chip_select < 32,
        ensures
            writes@.len() == tx@.len() + 4,
            writes@.take(2) == select_writes(chip_select),
            forall|i: int| 0 <= i < tx@.len() ==> (#[trigger] writes@[i + 2]) is Dr
                && call_ensures(X::into, (tx@[i],), writes@[i + 2]->Dr_0),
            writes@.skip(tx@.len() + 2 as int) == deselect_writes(),
            tx@.len() == 0 ==> final(self).spi == (SPI0 {
                ser: SER { bits: 0 },
                ssienr: SSIENR { bits: 0 },
                ..old(self).spi
            }),
            tx@.len() > 0 ==> writes@[tx@.len() + 1 as int] is Dr && final(self).spi == (SPI0 {
                dr: DR { bits: writes@[tx@.len() + 1 as int]->Dr_0 },
                ser: SER { bits: 0 },
                ssienr: SSIENR { bits: 0 },
                ..old(self).spi
            }),
    {
        self.begin_transfer(chip_select);
        let mut writes: Vec<SpiWrite> = Vec::new();
        writes.push(SpiWrite::Ser(1u32 << chip_select));
        writes.push(SpiWrite::Ssienr(1));
        let mut i: usize = 0;
        while i < tx.len()
            invariant
                i <= tx@.len(),
                writes@.len() == i + 2,
                writes@.take(2) == select_writes(chip_select),
                forall|j: int| 0 <= j < i ==> (#[trigger] writes@[j + 2]) is Dr
                    && call_ensures(X::into, (tx@[j],), writes@[j + 2]->Dr_0),
                i == 0 ==> self.spi == (SPI0 {
                    ser: SER { bits: 1u32 << chip_select },
                    ssienr: SSIENR { bits: 1 },
                    ..old(self).spi
                }),
                i > 0 ==> writes@[i + 1] is Dr && self.spi == (SPI0 {
                    dr: DR { bits: writes@[i + 1]->Dr_0 },
                    ser: SER { bits: 1u32 << chip_select },
                    ssienr: SSIENR { bits: 1 },
                    ..old(self).spi
                }),
            decreases tx@.len() - i,
        {
            let val: X = tx[i];
            let w: u32 = val.into();
            self.spi.dr.write(w);
            writes.push(SpiWrite::Dr(w));
            proof {
                assert(writes@[i + 2] == SpiWrite::Dr(w));
            }
            i = i + 1;
        }
        self.end_transfer();
        let ghost before = writes@;
        writes.push(SpiWrite::Ser(0));
        writes.push(SpiWrite::Ssienr(0));
        proof {
            assert(writes@.take(2) =~= before.take(2));
            assert(writes@.skip(tx@.len() + 2 as int) =~= deselect_writes());
            assert forall|j: int| 0 <= j < tx@.len() implies (#[trigger] writes@[j + 2]) is Dr
                && call_ensures(X::into, (tx@[j],), writes@[j + 2]->Dr_0) by {
                assert(writes@[j + 2] == before[j + 2]);
            }
        }
        writes
    }

    /// Send `value` `tx_len` times. Returns the register writes, in order:
    /// the slave on `chip_select` selected and the controller enabled, one
    /// data register write of `value` per frame, then the deselect and
    /// disable. The controller is left deselected and disabled.
    pub fn fill_data(&mut self, chip_select: u32, value: u32, tx_len: usize) -> (writes: Vec<SpiWrite>)
        requires
            chip_select < 32,
            tx_len + 4 <= usize::MAX,
        ensures
            writes@ == select_writes(chip_select) + fill_writes(value, tx_len as nat) + deselect_writes(),
            tx_len == 0 ==> final(self).spi == (SPI0 {
                ser: SER { bits: 0 },
                ssienr: SSIENR { bits: 0 },
                ..old(self).spi
            }),
            tx_len > 0 ==> final(self).spi == (SPI0 {
                dr: DR { bits: value },
                ser: SER { bits: 0 },
                ssienr: SSIENR { bits: 0 },
                ..old(self).spi
            }),
    {
        self.begin_transfer(chip_select);
        let mut writes: Vec<SpiWrite> = Vec::new();
        writes.push(SpiWrite::Ser(1u32 << chip_select));
        writes.push(SpiWrite::Ssienr(1));
        let mut n: usize = 0;
        while n < tx_len
            invariant
                n <= tx_len,
                tx_len + 4 <= usize::MAX,
                writes@ == select_writes(chip_select) + fill_writes(value, n as nat),
                n == 0 ==> self.spi == (SPI0 {
                    ser: SER { bits: 1u32 << chip_select },
                    ssienr: SSIENR { bits: 1 },
                    ..old(self).spi
                }),
                n > 0 ==> self.spi == (SPI0 {
                    dr: DR { bits: value },
                    ser: SER { bits: 1u32 << chip_select },
                    ssienr: SSIENR { bits: 1 },
                    ..old(self).spi
                }),
            decreases tx_len - n,
        {
            self.spi.dr.write(value);
            writes.push(SpiWrite::Dr(value));
            n = n + 1;
            proof {
                assert(fill_writes(value, n as nat) =~= fill_writes(value, (n - 1) as nat).push(SpiWrite::Dr(value)));
                assert(writes@ =~= select_writes(chip_select) + fill_writes(value, n as nat));
            }
        }
        self.end_transfer();
        let ghost before = writes@;
        writes.push(SpiWrite::Ser(0));
        writes.push(SpiWrite::Ssienr(0));
        proof {
            assert(writes@ =~= before + deselect_writes());
        }
        writes
    }
}

/// `count` writes of `value` to the data register.
pub open spec fn fill_writes(value: u32, count: nat) -> Seq<SpiWrite> {
    Seq::new(count, |i: int| SpiWrite::Dr(value))
}

/// A write to one of the controller's registers during a transfer.
#[derive(Clone, Copy, Debug, PartialEq, Eq, Structural)]
pub enum SpiWrite {
    /// Control register 1: the number of frames to receive, less one.
    Ctrlr1(u32),
    /// The enable register.
    Ssienr(u32),
    /// The data register.
    Dr(u32),
    /// The slave select register.
    Ser(u32),
}

/// The writes that select the slave on `chip_select` and enable the
/// controller.
pub open spec fn select_writes(chip_select: u32) -> Seq<SpiWrite> {
    seq![SpiWrite::Ser(1u32 << chip_select), SpiWrite::Ssienr(1)]
}

/// The writes that deselect every slave and disable the controller.
pub open spec fn deselect_writes() -> Seq<SpiWrite> {
    seq![SpiWrite::Ser(0), SpiWrite::Ssienr(0)]
}

/// The writes that start a receive of `len` frames from the slave on
/// `chip_select`.
pub open spec fn recv_start_writes(chip_select: u32, len: nat) -> Seq<SpiWrite> {
    seq![
        SpiWrite::Ctrlr1((len - 1) as u32),
        SpiWrite::Ssienr(1),
        SpiWrite::Dr(0xffffffff),
        SpiWrite::Ser(1u32 << chip_select),
    ]
}


/// The single-block DMA transfer an SPI operation asks of its channel.
#[derive(Clone, Copy, Debug, PartialEq, Eq, Structural)]
pub struct DmaPlan {
    pub src: u64,
    pub dest: u64,
    pub src_inc: address_increment,
    pub dest_inc: address_increment,
    pub burst_size: burst_length,
    pub trans_width: transfer_width,
    pub block_size: u32,
}

/// The sysctl registers once `channel` is tied to the request line `select`.
pub open spec fn dma_selected(regs: Seq<u32>, channel: dma_channel, select: dma_select) -> Seq<u32> {
    if channel is CHANNEL5 {
        set_reg_field(regs, DMA_SEL1 as int, 0, 0x3f, dma_select_code(select))
    } else {
        set_reg_field(regs, DMA_SEL0 as int, (6 * channel_index(channel)) as u32, 0x3f, dma_select_code(select))
    }
}

impl SPI {
    /// Select the slave on `chip_select`.
    pub fn select_slave(&mut self, chip_select: u32)
        requires
            chip_select < 32,
        ensures
            final(self).spi == (SPI0 { ser: SER { bits: 1u32 << chip_select }, ..old(self).spi }),
    {
        self.spi.ser.write(1u32 << chip_select);
    }

    /// Start of a 32-bit DMA receive of `len` frames into memory at
    /// `rx_address`: the frame count, the controller on, DMA receive on, and
    /// `channel_num` tied to SPI0 receive requests. Returns the transfer the
    /// channel is to make (from the data register, one frame per beat), or
    /// `None` with nothing changed when `len` is zero.
    pub fn recv_data_dma_begin(
        &mut self,
        sysctl: &mut Sysctl,
        channel_num: dma_channel,
        rx_address: u64,
        len: usize,
    ) -> (plan: Option<DmaPlan>)
        requires
            old(sysctl).regs@.len() == SYSCTL_REGS,
            len <= u32::MAX,
        ensures
            len == 0 ==> plan is None && final(self).spi == old(self).spi && final(sysctl).regs@ == old(
                sysctl,
            ).regs@,
            len > 0 ==> {
                &&& plan == Some(DmaPlan {
                    src: SPI0_DR_ADDRESS,
                    dest: rx_address,
                    src_inc: address_increment::NOCHANGE,
                    dest_inc: address_increment::INCREMENT,
                    burst_size: burst_length::LENGTH_1,
                    trans_width: transfer_width::WIDTH_32,
                    block_size: len as u32,
                })
                &&& final(self).spi == (SPI0 {
                    ctrlr1: CTRLR1 { bits: (len - 1) as u32 },
                    ssienr: SSIENR { bits: 1 },
                    dmacr: DMACR { bits: 3 },
                    ..old(self).spi
                })
                &&& final(sysctl).regs@ == dma_selected(old(sysctl).regs@, channel_num, dma_select::SSI0_RX_REQ)
            },
    {
        if len == 0 {
            return None;
        }
        self.spi.ctrlr1.write((len - 1) as u32);
        self.spi.ssienr.write(0x01);
        self.spi.dmacr.write(0x3);
        dma_select(sysctl, channel_num, dma_select::SSI0_RX_REQ);
        Some(
            DmaPlan {
                src: SPI0_DR_ADDRESS,
                dest: rx_address,
                src_inc: address_increment::NOCHANGE,
                dest_inc: address_increment::INCREMENT,
                burst_size: burst_length::LENGTH_1,
                trans_width: transfer_width::WIDTH_32,
                block_size: len as u32,
            },
        )
    }

    /// Once the receive channel is set up: write the data register to start
    /// the clock and select the slave.
    pub fn recv_data_dma_trigger(&mut self, chip_select: u32)
        requires
            chip_select < 32,
        ensures
            final(self).spi == (SPI0 {
                dr: DR { bits: 0xffffffff },
                ser: SER { bits: 1u32 << chip_select },
                ..old(self).spi
            }),
    {
        self.spi.dr.write(0xffffffff);
        self.spi.ser.write(1u32 << chip_select);
    }

    /// Start of a 32-bit DMA send of `len` words from memory at `tx_address`:
    /// DMA transmit on, the controller on, and `channel_num` tied to SPI0
    /// transmit requests. Returns the transfer the channel is to make (to the
    /// data register, four words a burst).
    pub fn send_data_dma_begin(
        &mut self,
        sysctl: &mut Sysctl,
        channel_num: dma_channel,
        tx_address: u64,
        len: usize,
    ) -> (plan: DmaPlan)
        requires
            old(sysctl).regs@.len() == SYSCTL_REGS,
            1 <= len <= u32::MAX,
        ensures
            plan == (DmaPlan {
                src: tx_address,
                dest: SPI0_DR_ADDRESS,
                src_inc: address_increment::INCREMENT,
                dest_inc: address_increment::NOCHANGE,
                burst_size: burst_length::LENGTH_4,
                trans_width: transfer_width::WIDTH_32,
                block_size: len as u32,
            }),
            final(self).spi == (SPI0 { dmacr: DMACR { bits: 2 }, ssienr: SSIENR { bits: 1 }, ..old(self).spi }),
            final(sysctl).regs@ == dma_selected(old(sysctl).regs@, channel_num, dma_select::SSI0_TX_REQ),
    {
        self.spi.dmacr.write(0x2);
        self.spi.ssienr.write(0x01);
        dma_select(sysctl, channel_num, dma_select::SSI0_TX_REQ);
        DmaPlan {
            src: tx_address,
            dest: SPI0_DR_ADDRESS,
            src_inc: address_increment::INCREMENT,
            dest_inc: address_increment::NOCHANGE,
            burst_size: burst_length::LENGTH_4,
            trans_width: transfer_width::WIDTH_32,
            block_size: len as u32,
        }
    }

    /// Start of a DMA send of one word, at `value_address`, repeated `tx_len`
    /// times: as `send_data_dma_begin`, but the source address stays put.
    pub fn fill_data_dma_begin(
        &mut self,
        sysctl: &mut Sysctl,
        channel_num: dma_channel,
        value_address: u64,
        tx_len: usize,
    ) -> (plan: DmaPlan)
        requires
            old(sysctl).regs@.len() == SYSCTL_REGS,
            1 <= tx_len <= u32::MAX,
        ensures
            plan == (DmaPlan {
                src: value_address,
                dest: SPI0_DR_ADDRESS,
                src_inc: address_increment::NOCHANGE,
                dest_inc: address_increment::NOCHANGE,
                burst_size: burst_length::LENGTH_4,
                trans_width: transfer_width::WIDTH_32,
                block_size: tx_len as u32,
            }),
            final(self).spi == (SPI0 { dmacr: DMACR { bits: 2 }, ssienr: SSIENR { bits: 1 }, ..old(self).spi }),
            final(sysctl).regs@ == dma_selected(old(sysctl).regs@, channel_num, dma_select::SSI0_TX_REQ),
    {
        self.spi.dmacr.write(0x2);
        self.spi.ssienr.write(0x01);
        dma_select(sysctl, channel_num, dma_select::SSI0_TX_REQ);
        DmaPlan {
            src: value_address,
            dest: SPI0_DR_ADDRESS,
            src_inc: address_increment::NOCHANGE,
            dest_inc: address_increment::NOCHANGE,
            burst_size: burst_length::LENGTH_4,
            trans_width: transfer_width::WIDTH_32,
            block_size: tx_len as u32,
        }
    }
}

} // verus!
