//! The common registers of the DMA controller, each held as its 64-bit value.
use vstd::prelude::*;
use crate::regfield::{with_field64, field64, flag64, set_field64, get_field64, bit64};
use crate::dmac::channel::CHANNEL;

verus! {

/// ID register.
pub struct ID {
    pub bits: u64,
}

impl ID {
    pub fn read(&self) -> (r: u64)
        ensures
            r == self.bits,
    {
        self.bits
    }
}

/// Component version register.
pub struct COMPVER {
    pub bits: u64,
}

impl COMPVER {
    pub fn read(&self) -> (r: u64)
        ensures
            r == self.bits,
    {
        self.bits
    }
}

/// Configure register: bit 0 enables the controller, bit 1 its interrupts.
pub struct CFG {
    pub bits: u64,
}

impl CFG {
    pub fn read(&self) -> (r: u64)
        ensures
            r == self.bits,
    {
        self.bits
    }

    pub fn write(&mut self, value: u64)
        ensures
            final(self).bits == value,
    {
        self.bits = value;
    }

    pub fn write_dmac_en(&mut self, value: bool) -> (r: &mut Self)
        ensures
            *final(self) == *final(r),
            r.bits == with_field64(old(self).bits, 0, 1, flag64(value)),
    {
        self.bits = set_field64(self.bits, 0, 1, bit64(value));
        self
    }

    pub fn write_int_en(&mut self, value: bool) -> (r: &mut Self)
        ensures
            *final(self) == *final(r),
            r.bits == with_field64(old(self).bits, 1, 1, flag64(value)),
    {
        self.bits = set_field64(self.bits, 1, 1, bit64(value));
        self
    }
}

/// Channel enable register: bit `n - 1` enables channel `n`, bit `n + 7`
/// lets that enable bit be written.
pub struct CHEN {
    pub bits: u64,
}

impl CHEN {
    pub fn read(&self) -> (r: u64)
        ensures
            r == self.bits,
    {
        self.bits
    }

    pub fn write(&mut self, value: u64)
        ensures
            final(self).bits == value,
    {
        self.bits = value;
    }

    pub fn write_ch_en(&mut self, value: bool, n: usize) -> (r: &mut Self)
        requires
            n < 64,
        ensures
            *final(self) == *final(r),
            r.bits == with_field64(old(self).bits, n as u64, 1, flag64(value)),
    {
        self.bits = set_field64(self.bits, n as u64, 1, bit64(value));
        self
    }

    pub fn write_ch_en_ew(&mut self, value: bool, n: usize) -> (r: &mut Self)
        requires
            n < 64,
        ensures
            *final(self) == *final(r),
            r.bits == with_field64(old(self).bits, n as u64, 1, flag64(value)),
    {
        self.bits = set_field64(self.bits, n as u64, 1, bit64(value));
        self
    }

    /// Enable channel `n` (counted from 1).
    pub fn channel_n_enable(&mut self, n: usize) -> (r: &mut Self)
        requires
            1 <= n <= 56,
        ensures
            *final(self) == *final(r),
            r.bits == with_field64(with_field64(old(self).bits, (n - 1) as u64, 1, 1), (n + 7) as u64, 1, 1),
    {
        self.write_ch_en(true, n - 1).write_ch_en_ew(true, n - 1 + 8)
    }

    /// Disable channel `n` (counted from 1).
    pub fn channel_n_disable(&mut self, n: usize) -> (r: &mut Self)
        requires
            1 <= n <= 56,
        ensures
            *final(self) == *final(r),
            r.bits == with_field64(with_field64(old(self).bits, (n - 1) as u64, 1, 0), (n + 7) as u64, 1, 1),
    {
        self.write_ch_en(false, n - 1).write_ch_en_ew(true, n - 1 + 8)
    }

    /// Whether channel `n` (counted from 1) is enabled.
    pub fn read_ch_n_en(&self, n: usize) -> (r: bool)
        requires
            1 <= n <= 64,
        ensures
            r == (field64(self.bits, (n - 1) as u64, 1) != 0),
    {
        get_field64(self.bits, (n - 1) as u64, 1) != 0
    }
}

/// The five slave-interface error bits shared by the common interrupt
/// registers: bits 0 to 3 and bit 8.
pub open spec fn slvif_all(v: u64, value: bool) -> u64 {
    with_field64(with_field64(with_field64(with_field64(with_field64(v, 0, 1, flag64(value)), 1, 1,
        flag64(value)), 2, 1, flag64(value)), 3, 1, flag64(value)), 8, 1, flag64(value))
}

/// Common interrupt clear register.
pub struct COM_INTCLEAR {
    pub bits: u64,
}

impl COM_INTCLEAR {
    pub fn read(&self) -> (r: u64)
        ensures
            r == self.bits,
    {
        self.bits
    }

    pub fn write_slvif_dec_err(&mut self, value: bool) -> (r: &mut Self)
        ensures
            *final(self) == *final(r),
            r.bits == with_field64(old(self).bits, 0, 1, flag64(value)),
    {
        self.bits = set_field64(self.bits, 0, 1, bit64(value));
        self
    }

    pub fn write_slvif_wr2ro_err(&mut self, value: bool) -> (r: &mut Self)
        ensures
            *final(self) == *final(r),
            r.bits == with_field64(old(self).bits, 1, 1, flag64(value)),
    {
        self.bits = set_field64(self.bits, 1, 1, bit64(value));
        self
    }

    pub fn write_slvif_rd2wo_err(&mut self, value: bool) -> (r: &mut Self)
        ensures
            *final(self) == *final(r),
            r.bits == with_field64(old(self).bits, 2, 1, flag64(value)),
    {
        self.bits = set_field64(self.bits, 2, 1, bit64(value));
        self
    }

    pub fn write_slvif_wronhold_err(&mut self, value: bool) -> (r: &mut Self)
        ensures
            *final(self) == *final(r),
            r.bits == with_field64(old(self).bits, 3, 1, flag64(value)),
    {
        self.bits = set_field64(self.bits, 3, 1, bit64(value));
        self
    }

    pub fn write_slvif_undefinedreg_dec_err(&mut self, value: bool) -> (r: &mut Self)
        ensures
            *final(self) == *final(r),
            r.bits == with_field64(old(self).bits, 8, 1, flag64(value)),
    {
        self.bits = set_field64(self.bits, 8, 1, bit64(value));
        self
    }
}

/// Common interrupt status enable register.
pub struct COM_INTSTATUS_EN {
    pub bits: u64,
}

impl COM_INTSTATUS_EN {
    pub fn read(&self) -> (r: u64)
        ensures
            r == self.bits,
    {
        self.bits
    }

    pub fn write_slvif_dec_err(&mut self, value: bool) -> (r: &mut Self)
        ensures
            *final(self) == *final(r),
            r.bits == with_field64(old(self).bits, 0, 1, flag64(value)),
    {
        self.bits = set_field64(self.bits, 0, 1, bit64(value));
        self
    }

    pub fn write_slvif_wr2ro_err(&mut self, value: bool) -> (r: &mut Self)
        ensures
            *final(self) == *final(r),
            r.bits == with_field64(old(self).bits, 1, 1, flag64(value)),
    {
        self.bits = set_field64(self.bits, 1, 1, bit64(value));
        self
    }

    pub fn write_slvif_rd2wo_err(&mut self, value: bool) -> (r: &mut Self)
        ensures
            *final(self) == *final(r),
            r.bits == with_field64(old(self).bits, 2, 1, flag64(value)),
    {
        self.bits = set_field64(self.bits, 2, 1, bit64(value));
        self
    }

    pub fn write_slvif_wronhold_err(&mut self, value: bool) -> (r: &mut Self)
        ensures
            *final(self) == *final(r),
            r.bits == with_field64(old(self).bits, 3, 1, flag64(value)),
    {
        self.bits = set_field64(self.bits, 3, 1, bit64(value));
        self
    }

    pub fn write_slvif_undefinedreg_dec_err(&mut self, value: bool) -> (r: &mut Self)
        ensures
            *final(self) == *final(r),
            r.bits == with_field64(old(self).bits, 8, 1, flag64(value)),
    {
        self.bits = set_field64(self.bits, 8, 1, bit64(value));
        self
    }
}

/// Common interrupt signal enable register.
pub struct COM_INTSIGNAL_EN {
    pub bits: u64,
}

impl COM_INTSIGNAL_EN {
    pub fn read(&self) -> (r: u64)
        ensures
            r == self.bits,
    {
        self.bits
    }

    pub fn write_slvif_dec_err(&mut self, value: bool) -> (r: &mut Self)
        ensures
            *final(self) == *final(r),
            r.bits == with_field64(old(self).bits, 0, 1, flag64(value)),
    {
        self.bits = set_field64(self.bits, 0, 1, bit64(value));
        self
    }

    pub fn write_slvif_wr2ro_err(&mut self, value: bool) -> (r: &mut Self)
        ensures
            *final(self) == *final(r),
            r.bits == with_field64(old(self).bits, 1, 1, flag64(value)),
    {
        self.bits = set_field64(self.bits, 1, 1, bit64(value));
        self
    }

    pub fn write_slvif_rd2wo_err(&mut self, value: bool) -> (r: &mut Self)
        ensures
            *final(self) == *final(r),
            r.bits == with_field64(old(self).bits, 2, 1, flag64(value)),
    {
        self.bits = set_field64(self.bits, 2, 1, bit64(value));
        self
    }

    pub fn write_slvif_wronhold_err(&mut self, value: bool) -> (r: &mut Self)
        ensures
            *final(self) == *final(r),
            r.bits == with_field64(old(self).bits, 3, 1, flag64(value)),
    {
        self.bits = set_field64(self.bits, 3, 1, bit64(value));
        self
    }

    pub fn write_slvif_undefinedreg_dec_err(&mut self, value: bool) -> (r: &mut Self)
        ensures
            *final(self) == *final(r),
            r.bits == with_field64(old(self).bits, 8, 1, flag64(value)),
    {
        self.bits = set_field64(self.bits, 8, 1, bit64(value));
        self
    }
}

/// Reset register: bit 0 resets the controller.
pub struct RESET {
    pub bits: u64,
}

impl RESET {
    pub fn read(&self) -> (r: u64)
        ensures
            r == self.bits,
    {
        self.bits
    }

    pub fn write_rst(&mut self, value: bool)
        ensures
            final(self).bits == with_field64(old(self).bits, 0, 1, flag64(value)),
    {
        self.bits = set_field64(self.bits, 0, 1, bit64(value));
    }

    pub fn read_rst(&self) -> (r: bool)
        ensures
            r == (self.bits & 1 != 0),
    {
        (self.bits & 0x01) != 0
    }
}

/// The DMA controller's registers.
pub struct Dmac {
    pub id: ID,
    pub compver: COMPVER,
    pub cfg: CFG,
    pub chen: CHEN,
    pub com_intclear: COM_INTCLEAR,
    pub com_intstatus_en: COM_INTSTATUS_EN,
    pub com_intsignal_en: COM_INTSIGNAL_EN,
    pub reset: RESET,
    pub channel: Vec<CHANNEL>,
}


impl Dmac {
    /// The controller's registers, all zero, with its six channels.
    pub fn new() -> (r: Self)
        ensures
            r.id.bits == 0 && r.compver.bits == 0 && r.cfg.bits == 0 && r.chen.bits == 0 && r.reset.bits == 0,
            r.com_intclear.bits == 0 && r.com_intstatus_en.bits == 0 && r.com_intsignal_en.bits == 0,
            r.channel@.len() == 6,
            forall|i: int| 0 <= i < 6 ==> (#[trigger] r.channel@[i]).cfg.bits == 0 && r.channel@[i].ctl.bits == 0
                && r.channel@[i].intclear.bits == 0 && r.channel@[i].block_ts.bits == 0,
    {
        let mut channel: Vec<CHANNEL> = Vec::new();
        let mut i: usize = 0;
        while i < 6
            invariant
                i <= 6,
                channel@.len() == i,
                forall|j: int| 0 <= j < i ==> (#[trigger] channel@[j]).cfg.bits == 0 && channel@[j].ctl.bits == 0
                    && channel@[j].intclear.bits == 0 && channel@[j].block_ts.bits == 0,
            decreases 6 - i,
        {
            channel.push(CHANNEL::new());
            i = i + 1;
        }
        Dmac {
            id: ID { bits: 0 },
            compver: COMPVER { bits: 0 },
            cfg: CFG { bits: 0 },
            chen: CHEN { bits: 0 },
            com_intclear: COM_INTCLEAR { bits: 0 },
            com_intstatus_en: COM_INTSTATUS_EN { bits: 0 },
            com_intsignal_en: COM_INTSIGNAL_EN { bits: 0 },
            reset: RESET { bits: 0 },
            channel,
        }
    }
}

} // verus!
