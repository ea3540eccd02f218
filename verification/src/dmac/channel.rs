//! The registers of one DMA channel, each held as its 64-bit value.
use vstd::prelude::*;
use vstd::std_specs::convert::FromSpecImpl;
use crate::regfield::{with_field64, flag64, set_field64, bit64};

verus! {

/// Source (or destination) master select.
#[derive(Clone, Copy, Debug, PartialEq, Eq, Structural)]
pub enum SMS_A {
    /// 0: AXI master 1
    AXI_MASTER_1,
    /// 1: AXI master 2
    AXI_MASTER_2,
}

impl From<SMS_A> for bool {
    fn from(variant: SMS_A) -> (r: bool) {
        match variant {
            SMS_A::AXI_MASTER_1 => false,
            SMS_A::AXI_MASTER_2 => true,
        }
    }
}

impl FromSpecImpl<SMS_A> for bool {
    open spec fn obeys_from_spec() -> bool {
        true
    }

    open spec fn from_spec(variant: SMS_A) -> bool {
        variant is AXI_MASTER_2
    }
}

/// Destination master select.
pub type DMS_A = SMS_A;

/// Source (or destination) address increment.
#[derive(Clone, Copy, Debug, PartialEq, Eq, Structural)]
pub enum SINC_A {
    /// 0: Increment address
    INCREMENT,
    /// 1: Don't increment address
    NOCHANGE,
}

impl From<SINC_A> for bool {
    fn from(variant: SINC_A) -> (r: bool) {
        match variant {
            SINC_A::INCREMENT => false,
            SINC_A::NOCHANGE => true,
        }
    }
}

impl FromSpecImpl<SINC_A> for bool {
    open spec fn obeys_from_spec() -> bool {
        true
    }

    open spec fn from_spec(variant: SINC_A) -> bool {
        variant is NOCHANGE
    }
}

/// Destination address increment.
pub type DINC_A = SINC_A;

/// Transfer width.
#[derive(Clone, Copy, Debug, PartialEq, Eq, Structural)]
pub enum SRC_TR_WIDTH_A {
    WIDTH_8,
    WIDTH_16,
    WIDTH_32,
    WIDTH_64,
    WIDTH_128,
    WIDTH_256,
    WIDTH_512,
}

/// The register encoding of a transfer width.
pub open spec fn tr_width_code(v: SRC_TR_WIDTH_A) -> u8 {
    match v {
        SRC_TR_WIDTH_A::WIDTH_8 => 0,
        SRC_TR_WIDTH_A::WIDTH_16 => 1,
        SRC_TR_WIDTH_A::WIDTH_32 => 2,
        SRC_TR_WIDTH_A::WIDTH_64 => 3,
        SRC_TR_WIDTH_A::WIDTH_128 => 4,
        SRC_TR_WIDTH_A::WIDTH_256 => 5,
        SRC_TR_WIDTH_A::WIDTH_512 => 6,
    }
}

impl From<SRC_TR_WIDTH_A> for u8 {
    fn from(variant: SRC_TR_WIDTH_A) -> (r: u8) {
        match variant {
            SRC_TR_WIDTH_A::WIDTH_8 => 0,
            SRC_TR_WIDTH_A::WIDTH_16 => 1,
            SRC_TR_WIDTH_A::WIDTH_32 => 2,
            SRC_TR_WIDTH_A::WIDTH_64 => 3,
            SRC_TR_WIDTH_A::WIDTH_128 => 4,
            SRC_TR_WIDTH_A::WIDTH_256 => 5,
            SRC_TR_WIDTH_A::WIDTH_512 => 6,
        }
    }
}

impl FromSpecImpl<SRC_TR_WIDTH_A> for u8 {
    open spec fn obeys_from_spec() -> bool {
        true
    }

    open spec fn from_spec(variant: SRC_TR_WIDTH_A) -> u8 {
        tr_width_code(variant)
    }
}

/// Destination transfer width.
pub type DST_TR_WIDTH_A = SRC_TR_WIDTH_A;

/// Burst transaction length.
#[derive(Clone, Copy, Debug, PartialEq, Eq, Structural)]
pub enum SRC_MSIZE_A {
    LENGTH_1,
    LENGTH_4,
    LENGTH_8,
    LENGTH_16,
    LENGTH_32,
    LENGTH_64,
    LENGTH_128,
    LENGTH_256,
    LENGTH_512,
    LENGTH_1024,
}

/// The register encoding of a burst length.
pub open spec fn msize_code(v: SRC_MSIZE_A) -> u8 {
    match v {
        SRC_MSIZE_A::LENGTH_1 => 0,
        SRC_MSIZE_A::LENGTH_4 => 1,
        SRC_MSIZE_A::LENGTH_8 => 2,
        SRC_MSIZE_A::LENGTH_16 => 3,
        SRC_MSIZE_A::LENGTH_32 => 4,
        SRC_MSIZE_A::LENGTH_64 => 5,
        SRC_MSIZE_A::LENGTH_128 => 6,
        SRC_MSIZE_A::LENGTH_256 => 7,
        SRC_MSIZE_A::LENGTH_512 => 8,
        SRC_MSIZE_A::LENGTH_1024 => 9,
    }
}

impl From<SRC_MSIZE_A> for u8 {
    fn from(variant: SRC_MSIZE_A) -> (r: u8) {
        match variant {
            SRC_MSIZE_A::LENGTH_1 => 0,
            SRC_MSIZE_A::LENGTH_4 => 1,
            SRC_MSIZE_A::LENGTH_8 => 2,
            SRC_MSIZE_A::LENGTH_16 => 3,
            SRC_MSIZE_A::LENGTH_32 => 4,
            SRC_MSIZE_A::LENGTH_64 => 5,
            SRC_MSIZE_A::LENGTH_128 => 6,
            SRC_MSIZE_A::LENGTH_256 => 7,
            SRC_MSIZE_A::LENGTH_512 => 8,
            SRC_MSIZE_A::LENGTH_1024 => 9,
        }
    }
}

impl FromSpecImpl<SRC_MSIZE_A> for u8 {
    open spec fn obeys_from_spec() -> bool {
        true
    }

    open spec fn from_spec(variant: SRC_MSIZE_A) -> u8 {
        msize_code(variant)
    }
}

/// Destination burst transaction length.
pub type DST_MSIZE_A = SRC_MSIZE_A;

/// Transfer type and flow control.
#[derive(Clone, Copy, Debug, PartialEq, Eq, Structural)]
pub enum TT_FC_A {
    MEM2MEM_DMA,
    MEM2PRF_DMA,
    PRF2MEM_DMA,
    PRF2PRF_DMA,
    PRF2MEM_PRF,
    PRF2PRF_SRCPRF,
    MEM2PRF_PRF,
    PRF2PRF_DSTPRF,
}

/// The register encoding of a transfer type.
pub open spec fn tt_fc_code(v: TT_FC_A) -> u8 {
    match v {
        TT_FC_A::MEM2MEM_DMA => 0,
        TT_FC_A::MEM2PRF_DMA => 1,
        TT_FC_A::PRF2MEM_DMA => 2,
        TT_FC_A::PRF2PRF_DMA => 3,
        TT_FC_A::PRF2MEM_PRF => 4,
        TT_FC_A::PRF2PRF_SRCPRF => 5,
        TT_FC_A::MEM2PRF_PRF => 6,
        TT_FC_A::PRF2PRF_DSTPRF => 7,
    }
}

/// Law: distinct transfer widths, burst lengths and transfer types write
/// distinct values, each within its field (three, four and three bits).
pub proof fn law_channel_codes_distinct(
    w1: SRC_TR_WIDTH_A,
    w2: SRC_TR_WIDTH_A,
    m1: SRC_MSIZE_A,
    m2: SRC_MSIZE_A,
    t1: TT_FC_A,
    t2: TT_FC_A,
)
    ensures
        tr_width_code(w1) == tr_width_code(w2) ==> w1 == w2,
        tr_width_code(w1) <= 7,
        msize_code(m1) == msize_code(m2) ==> m1 == m2,
        msize_code(m1) <= 15,
        tt_fc_code(t1) == tt_fc_code(t2) ==> t1 == t2,
        tt_fc_code(t1) <= 7,
{
}

impl From<TT_FC_A> for u8 {
    fn from(variant: TT_FC_A) -> (r: u8) {
        match variant {
            TT_FC_A::MEM2MEM_DMA => 0,
            TT_FC_A::MEM2PRF_DMA => 1,
            TT_FC_A::PRF2MEM_DMA => 2,
            TT_FC_A::PRF2PRF_DMA => 3,
            TT_FC_A::PRF2MEM_PRF => 4,
            TT_FC_A::PRF2PRF_SRCPRF => 5,
            TT_FC_A::MEM2PRF_PRF => 6,
            TT_FC_A::PRF2PRF_DSTPRF => 7,
        }
    }
}

impl FromSpecImpl<TT_FC_A> for u8 {
    open spec fn obeys_from_spec() -> bool {
        true
    }

    open spec fn from_spec(variant: TT_FC_A) -> u8 {
        tt_fc_code(variant)
    }
}

/// Source (or destination) handshaking select.
#[derive(Clone, Copy, Debug, PartialEq, Eq, Structural)]
pub enum HS_SEL_SRC_A {
    /// 0: Hardware handshaking is used
    HARDWARE,
    /// 1: Software handshaking is used
    SOFTWARE,
}

impl From<HS_SEL_SRC_A> for bool {
    fn from(variant: HS_SEL_SRC_A) -> (r: bool) {
        match variant {
            HS_SEL_SRC_A::HARDWARE => false,
            HS_SEL_SRC_A::SOFTWARE => true,
        }
    }
}

impl FromSpecImpl<HS_SEL_SRC_A> for bool {
    open spec fn obeys_from_spec() -> bool {
        true
    }

    open spec fn from_spec(variant: HS_SEL_SRC_A) -> bool {
        variant is SOFTWARE
    }
}

/// Destination handshaking select.
pub type HS_SEL_DST_A = HS_SEL_SRC_A;

/// Source address register.
pub struct SAR {
    pub bits: u64,
}

impl SAR {
    pub fn read(&self) -> (r: u64)
        ensures
            r == self.bits,
    {
        self.bits
    }

    pub fn write(&mut self, value: u64)
        ensures
            final(self).bits == value,
    {
        self.bits = value;
    }
}

/// Destination address register.
pub struct DAR {
    pub bits: u64,
}

impl DAR {
    pub fn read(&self) -> (r: u64)
        ensures
            r == self.bits,
    {
        self.bits
    }

    pub fn write(&mut self, value: u64)
        ensures
            final(self).bits == value,
    {
        self.bits = value;
    }
}

/// Block transfer size register: bits 0 to 21.
pub struct BLOCK_TS {
    pub bits: u64,
}

impl BLOCK_TS {
    pub fn read(&self) -> (r: u64)
        ensures
            r == self.bits,
    {
        self.bits
    }

    pub fn write_block_ts(&mut self, value: u32) -> (r: &mut Self)
        ensures
            *final(self) == *final(r),
            r.bits == with_field64(old(self).bits, 0, 0x003f_ffff, value as u64),
    {
        self.bits = set_field64(self.bits, 0, 0x003f_ffff, value as u64);
        self
    }
}

/// Control register of a channel.
pub struct CTL {
    pub bits: u64,
}

impl CTL {
    pub fn read(&self) -> (r: u64)
        ensures
            r == self.bits,
    {
        self.bits
    }

    pub fn write_sms(&mut self, variant: SMS_A) -> (r: &mut Self)
        ensures
            *final(self) == *final(r),
            r.bits == with_field64(old(self).bits, 0, 1, flag64(variant is AXI_MASTER_2)),
    {
        let var: bool = variant.into();
        self.bits = set_field64(self.bits, 0, 1, bit64(var));
        self
    }

    pub fn write_dms(&mut self, variant: DMS_A) -> (r: &mut Self)
        ensures
            *final(self) == *final(r),
            r.bits == with_field64(old(self).bits, 2, 1, flag64(variant is AXI_MASTER_2)),
    {
        let var: bool = variant.into();
        self.bits = set_field64(self.bits, 2, 1, bit64(var));
        self
    }

    pub fn write_sinc(&mut self, variant: SINC_A) -> (r: &mut Self)
        ensures
            *final(self) == *final(r),
            r.bits == with_field64(old(self).bits, 4, 1, flag64(variant is NOCHANGE)),
    {
        let var: bool = variant.into();
        self.bits = set_field64(self.bits, 4, 1, bit64(var));
        self
    }

    pub fn write_dinc(&mut self, variant: DINC_A) -> (r: &mut Self)
        ensures
            *final(self) == *final(r),
            r.bits == with_field64(old(self).bits, 6, 1, flag64(variant is NOCHANGE)),
    {
        let var: bool = variant.into();
        self.bits = set_field64(self.bits, 6, 1, bit64(var));
        self
    }

    pub fn write_src_tr_width(&mut self, variant: SRC_TR_WIDTH_A) -> (r: &mut Self)
        ensures
            *final(self) == *final(r),
            r.bits == with_field64(old(self).bits, 8, 0x07, tr_width_code(variant) as u64),
    {
        let var: u8 = variant.into();
        self.bits = set_field64(self.bits, 8, 0x07, var as u64);
        self
    }

    pub fn write_dst_tr_width(&mut self, variant: DST_TR_WIDTH_A) -> (r: &mut Self)
        ensures
            *final(self) == *final(r),
            r.bits == with_field64(old(self).bits, 11, 0x07, tr_width_code(variant) as u64),
    {
        let var: u8 = variant.into();
        self.bits = set_field64(self.bits, 11, 0x07, var as u64);
        self
    }

    pub fn write_src_msize(&mut self, variant: SRC_MSIZE_A) -> (r: &mut Self)
        ensures
            *final(self) == *final(r),
            r.bits == with_field64(old(self).bits, 14, 0x0f, msize_code(variant) as u64),
    {
        let var: u8 = variant.into();
        self.bits = set_field64(self.bits, 14, 0x0f, var as u64);
        self
    }

    pub fn write_dst_msize(&mut self, variant: DST_MSIZE_A) -> (r: &mut Self)
        ensures
            *final(self) == *final(r),
            r.bits == with_field64(old(self).bits, 18, 0x0f, msize_code(variant) as u64),
    {
        let var: u8 = variant.into();
        self.bits = set_field64(self.bits, 18, 0x0f, var as u64);
        self
    }
}

/// AXI ID register of a channel.
pub struct AXI_ID {
    pub bits: u64,
}

impl AXI_ID {
    pub fn read(&self) -> (r: u64)
        ensures
            r == self.bits,
    {
        self.bits
    }
}

/// Interrupt status enable register of a channel.
pub struct INTSTATUS_EN {
    pub bits: u64,
}

impl INTSTATUS_EN {
    pub fn read(&self) -> (r: u64)
        ensures
            r == self.bits,
    {
        self.bits
    }

    pub fn write(&mut self, value: u64) -> (r: &mut Self)
        ensures
            *final(self) == *final(r),
            r.bits == value,
    {
        self.bits = value;
        self
    }

    pub fn write_src_transcomp(&mut self, value: bool) -> (r: &mut Self)
        ensures
            *final(self) == *final(r),
            r.bits == with_field64(old(self).bits, 3, 1, flag64(value)),
    {
        self.bits = set_field64(self.bits, 3, 1, bit64(value));
        self
    }
}

/// Interrupt clear register of a channel.
pub struct INTCLEAR {
    pub bits: u64,
}

impl INTCLEAR {
    pub fn read(&self) -> (r: u64)
        ensures
            r == self.bits,
    {
        self.bits
    }

    pub fn write(&mut self, value: u64)
        ensures
            final(self).bits == value,
    {
        self.bits = value;
    }
}

/// Configure register of a channel.
pub struct CFG {
    pub bits: u64,
}

impl CFG {
    pub fn read(&self) -> (r: u64)
        ensures
            r == self.bits,
    {
        self.bits
    }

    pub fn write_tt_fc(&mut self, variant: TT_FC_A) -> (r: &mut Self)
        ensures
            *final(self) == *final(r),
            r.bits == with_field64(old(self).bits, 32, 0x07, tt_fc_code(variant) as u64),
    {
        let var: u8 = variant.into();
        self.bits = set_field64(self.bits, 32, 0x07, var as u64);
        self
    }

    pub fn write_hs_sel_src(&mut self, variant: HS_SEL_SRC_A) -> (r: &mut Self)
        ensures
            *final(self) == *final(r),
            r.bits == with_field64(old(self).bits, 35, 1, flag64(variant is SOFTWARE)),
    {
        let var: bool = variant.into();
        self.bits = set_field64(self.bits, 35, 1, bit64(var));
        self
    }

    pub fn write_hs_sel_dst(&mut self, variant: HS_SEL_DST_A) -> (r: &mut Self)
        ensures
            *final(self) == *final(r),
            r.bits == with_field64(old(self).bits, 36, 1, flag64(variant is SOFTWARE)),
    {
        let var: bool = variant.into();
        self.bits = set_field64(self.bits, 36, 1, bit64(var));
        self
    }

    pub fn write_src_per(&mut self, value: u8) -> (r: &mut Self)
        ensures
            *final(self) == *final(r),
            r.bits == with_field64(old(self).bits, 39, 0x0f, value as u64),
    {
        self.bits = set_field64(self.bits, 39, 0x0f, value as u64);
        self
    }

    pub fn write_dst_per(&mut self, value: u8) -> (r: &mut Self)
        ensures
            *final(self) == *final(r),
            r.bits == with_field64(old(self).bits, 44, 0x0f, value as u64),
    {
        self.bits = set_field64(self.bits, 44, 0x0f, value as u64);
        self
    }

    pub fn write_src_multblk_type(&mut self, value: u8) -> (r: &mut Self)
        ensures
            *final(self) == *final(r),
            r.bits == with_field64(old(self).bits, 0, 0x03, value as u64),
    {
        self.bits = set_field64(self.bits, 0, 0x03, value as u64);
        self
    }

    pub fn write_dst_multblk_type(&mut self, value: u8) -> (r: &mut Self)
        ensures
            *final(self) == *final(r),
            r.bits == with_field64(old(self).bits, 2, 0x03, value as u64),
    {
        self.bits = set_field64(self.bits, 2, 0x03, value as u64);
        self
    }
}

/// The registers of one DMA channel.
pub struct CHANNEL {
    pub sar: SAR,
    pub dar: DAR,
    pub block_ts: BLOCK_TS,
    pub ctl: CTL,
    pub cfg: CFG,
    pub axi_id: AXI_ID,
    pub intstatus_en: INTSTATUS_EN,
    pub intclear: INTCLEAR,
}


impl CHANNEL {
    /// A channel's registers, all zero.
    pub fn new() -> (r: Self)
        ensures
            r.sar.bits == 0 && r.dar.bits == 0 && r.block_ts.bits == 0 && r.ctl.bits == 0 && r.cfg.bits == 0
                && r.axi_id.bits == 0 && r.intstatus_en.bits == 0 && r.intclear.bits == 0,
    {
        CHANNEL {
            sar: SAR { bits: 0 },
            dar: DAR { bits: 0 },
            block_ts: BLOCK_TS { bits: 0 },
            ctl: CTL { bits: 0 },
            cfg: CFG { bits: 0 },
            axi_id: AXI_ID { bits: 0 },
            intstatus_en: INTSTATUS_EN { bits: 0 },
            intclear: INTCLEAR { bits: 0 },
        }
    }
}

} // verus!
