//! DMAC peripheral: channel control and transfer setup over the controller's
//! registers.
use vstd::prelude::*;
use crate::regfield::{with_field64, field64, flag64};
use crate::sysctl::{dma_channel, channel_index, Sysctl, SYSCTL_REGS, clock, clock_enable, enabled};
use crate::dmac::regs::{Dmac, slvif_all, CHEN, COM_INTCLEAR, COM_INTSTATUS_EN, COM_INTSIGNAL_EN, RESET};
use crate::dmac::channel::{CHANNEL, SAR, DAR, BLOCK_TS, CTL, INTSTATUS_EN, INTCLEAR, SMS_A, SINC_A, SRC_MSIZE_A, SRC_TR_WIDTH_A, TT_FC_A, HS_SEL_SRC_A,
    tt_fc_code, tr_width_code, msize_code};

pub mod channel;
pub mod regs;

verus! {

/// Which side of a transfer a setting applies to.
#[derive(Copy, Clone, Debug, PartialEq, Eq, Structural)]
pub enum src_dst_select {
    SRC,
    DST,
    SRC_DST,
}

/// Master number of a transfer side.
pub type master_number = SMS_A;
/// Address increment of a transfer side.
pub type address_increment = SINC_A;
/// Burst length of a transfer.
pub type burst_length = SRC_MSIZE_A;
/// Transfer width.
pub type transfer_width = SRC_TR_WIDTH_A;

/// Whether an address is memory (as opposed to a peripheral): the 6 MiB of
/// cached memory at 0x8000_0000, the 8 MiB of uncached memory at
/// 0x4000_0000, and the AES accelerator input at 0x5045_0040.
pub open spec fn memory_address(address: u64) -> bool {
    (0x8000_0000 <= address < 0x8000_0000 + 6 * 1024 * 1024) || (0x4000_0000 <= address < 0x4000_0000 + 8
        * 1024 * 1024) || address == 0x5045_0040
}

/// Return whether a specific address is considered memory or peripheral.
pub fn is_memory(address: u64) -> (r: bool)
    ensures
        r == memory_address(address),
{
    let mem_len: u64 = 6 * 1024 * 1024;
    let mem_no_cache_len: u64 = 8 * 1024 * 1024;
    ((address >= 0x80000000) && (address < 0x80000000 + mem_len)) || ((address >= 0x40000000) && (address
        < 0x40000000 + mem_no_cache_len)) || (address == 0x50450040)
}

/// The transfer type for a source and a destination, the DMAC controlling
/// the flow.
pub open spec fn flow_control(src_is_mem: bool, dest_is_mem: bool) -> TT_FC_A {
    if !src_is_mem && !dest_is_mem {
        TT_FC_A::PRF2PRF_DMA
    } else if src_is_mem && !dest_is_mem {
        TT_FC_A::MEM2PRF_DMA
    } else if !src_is_mem && dest_is_mem {
        TT_FC_A::PRF2MEM_DMA
    } else {
        TT_FC_A::MEM2MEM_DMA
    }
}

/// The channel configuration written for a transfer.
pub open spec fn param_cfg(v: u64, ch: int, src_is_mem: bool, dest_is_mem: bool) -> u64 {
    with_field64(with_field64(with_field64(with_field64(with_field64(with_field64(with_field64(v, 32, 0x07,
        tt_fc_code(flow_control(src_is_mem, dest_is_mem)) as u64), 35, 1, flag64(src_is_mem)), 36, 1, flag64(
        dest_is_mem)), 39, 0x0f, ch as u64), 44, 0x0f, ch as u64), 0, 0x03, 0), 2, 0x03, 0)
}

/// The channel control written for a transfer: source on AXI master 1,
/// destination on AXI master 2.
pub open spec fn param_ctl(
    v: u64,
    src_inc: SINC_A,
    dest_inc: SINC_A,
    burst: SRC_MSIZE_A,
    width: SRC_TR_WIDTH_A,
) -> u64 {
    with_field64(with_field64(with_field64(with_field64(with_field64(with_field64(with_field64(with_field64(v,
        0, 1, 0), 2, 1, 1), 4, 1, flag64(src_inc is NOCHANGE)), 6, 1, flag64(dest_inc is NOCHANGE)), 8, 0x07,
        tr_width_code(width) as u64), 11, 0x07, tr_width_code(width) as u64), 14, 0x0f, msize_code(burst)
        as u64), 18, 0x0f, msize_code(burst) as u64)
}

/// `d` is `o` with channel `i`'s registers replaced by `c`: every common
/// register and every other channel kept.
pub open spec fn only_channel(o: Dmac, d: Dmac, i: int, c: CHANNEL) -> bool {
    &&& d == (Dmac { channel: d.channel, ..o })
    &&& d.channel@ == o.channel@.update(i, c)
}

/// Channel registers `o` of channel `i` once a transfer from `src` to `dest`
/// is set up: configuration, addresses, control and block size written, the
/// AXI ID and interrupt registers kept.
pub open spec fn with_params(
    o: CHANNEL,
    i: int,
    src: u64,
    dest: u64,
    src_inc: SINC_A,
    dest_inc: SINC_A,
    burst: SRC_MSIZE_A,
    width: SRC_TR_WIDTH_A,
    block_size: u32,
) -> CHANNEL {
    CHANNEL {
        cfg: channel::CFG { bits: param_cfg(o.cfg.bits, i, memory_address(src), memory_address(dest)) },
        sar: SAR { bits: src },
        dar: DAR { bits: dest },
        ctl: CTL { bits: param_ctl(o.ctl.bits, src_inc, dest_inc, burst, width) },
        block_ts: BLOCK_TS { bits: with_field64(o.block_ts.bits, 0, 0x003f_ffff, (block_size - 1) as u64) },
        ..o
    }
}

/// DMAC peripheral abstraction.
pub struct DMAC {
    pub dmac: Dmac,
}

/// Extension trait for adding configure() to the DMAC registers.
pub trait DMACExt: Sized {
    /// Take the registers as a DMAC peripheral.
    fn configure(self) -> DMAC;
}

impl DMACExt for Dmac {
    fn configure(self) -> (r: DMAC)
        ensures
            r.dmac == self,
    {
        DMAC { dmac: self }
    }
}

impl DMAC {
    /// Six channels.
    pub open spec fn wf(&self) -> bool {
        self.dmac.channel@.len() == 6
    }

    /// Get DMAC ID.
    pub fn read_id(&self) -> (r: u64)
        ensures
            r == self.dmac.id.bits,
    {
        self.dmac.id.read()
    }

    /// Get DMAC version.
    pub fn read_version(&self) -> (r: u64)
        ensures
            r == self.dmac.compver.bits,
    {
        self.dmac.compver.read()
    }

    /// Get AXI ID for channel.
    pub fn read_channel_id(&self, channel_num: dma_channel) -> (r: u64)
        requires
            self.wf(),
        ensures
            r == self.dmac.channel@[channel_index(channel_num)].axi_id.bits,
    {
        self.dmac.channel[channel_num.idx()].axi_id.read()
    }

    /// Enable DMAC peripheral and its interrupts.
    pub fn enable(&mut self)
        ensures
            final(self).dmac == (Dmac {
                cfg: regs::CFG { bits: with_field64(with_field64(old(self).dmac.cfg.bits, 0, 1, 1), 1, 1, 1) },
                ..old(self).dmac
            }),
    {
        self.dmac.cfg.write_dmac_en(true).write_int_en(true);
    }

    /// Disable DMAC peripheral and its interrupts.
    pub fn disable(&mut self)
        ensures
            final(self).dmac == (Dmac {
                cfg: regs::CFG { bits: with_field64(with_field64(old(self).dmac.cfg.bits, 0, 1, 0), 1, 1, 0) },
                ..old(self).dmac
            }),
    {
        self.dmac.cfg.write_dmac_en(false).write_int_en(false);
    }

    /// Enable the source transaction complete interrupt of a channel.
    pub fn src_transaction_complete_int_enable(&mut self, channel_num: dma_channel)
        requires
            old(self).wf(),
        ensures
            final(self).wf(),
            ({
                let i = channel_index(channel_num);
                let o = old(self).dmac.channel@[i];
                only_channel(old(self).dmac, final(self).dmac, i, CHANNEL {
                    intstatus_en: INTSTATUS_EN { bits: with_field64(o.intstatus_en.bits, 3, 1, 1) },
                    ..o
                })
            }),
    {
        let i = channel_num.idx();
        self.dmac.channel[i].intstatus_en.write_src_transcomp(true);
    }

    /// Enable a DMA channel: its enable bit and the bit that lets it be
    /// written.
    pub fn channel_enable(&mut self, channel_num: dma_channel)
        ensures
            final(self).dmac == (Dmac {
                chen: CHEN { bits: with_field64(with_field64(old(self).dmac.chen.bits,
                    channel_index(channel_num) as u64, 1, 1), (channel_index(channel_num) + 8) as u64, 1, 1) },
                ..old(self).dmac
            }),
    {
        match channel_num {
            dma_channel::CHANNEL0 => {
                self.dmac.chen.channel_n_enable(1);
            },
            dma_channel::CHANNEL1 => {
                self.dmac.chen.channel_n_enable(2);
            },
            dma_channel::CHANNEL2 => {
                self.dmac.chen.channel_n_enable(3);
            },
            dma_channel::CHANNEL3 => {
                self.dmac.chen.channel_n_enable(4);
            },
            dma_channel::CHANNEL4 => {
                self.dmac.chen.channel_n_enable(5);
            },
            dma_channel::CHANNEL5 => {
                self.dmac.chen.channel_n_enable(6);
            },
        }
    }

    /// Disable a DMA channel: clear its enable bit, set the bit that lets it
    /// be written.
    pub fn channel_disable(&mut self, channel_num: dma_channel)
        ensures
            final(self).dmac == (Dmac {
                chen: CHEN { bits: with_field64(with_field64(old(self).dmac.chen.bits,
                    channel_index(channel_num) as u64, 1, 0), (channel_index(channel_num) + 8) as u64, 1, 1) },
                ..old(self).dmac
            }),
    {
        match channel_num {
            dma_channel::CHANNEL0 => {
                self.dmac.chen.channel_n_disable(1);
            },
            dma_channel::CHANNEL1 => {
                self.dmac.chen.channel_n_disable(2);
            },
            dma_channel::CHANNEL2 => {
                self.dmac.chen.channel_n_disable(3);
            },
            dma_channel::CHANNEL3 => {
                self.dmac.chen.channel_n_disable(4);
            },
            dma_channel::CHANNEL4 => {
                self.dmac.chen.channel_n_disable(5);
            },
            dma_channel::CHANNEL5 => {
                self.dmac.chen.channel_n_disable(6);
            },
        }
    }

    /// Check if a DMA channel is busy: its enable bit is set.
    pub fn check_channel_busy(&self, channel_num: dma_channel) -> (r: bool)
        ensures
            r == (field64(self.dmac.chen.bits, channel_index(channel_num) as u64, 1) != 0),
    {
        match channel_num {
            dma_channel::CHANNEL0 => self.dmac.chen.read_ch_n_en(1),
            dma_channel::CHANNEL1 => self.dmac.chen.read_ch_n_en(2),
            dma_channel::CHANNEL2 => self.dmac.chen.read_ch_n_en(3),
            dma_channel::CHANNEL3 => self.dmac.chen.read_ch_n_en(4),
            dma_channel::CHANNEL4 => self.dmac.chen.read_ch_n_en(5),
            dma_channel::CHANNEL5 => self.dmac.chen.read_ch_n_en(6),
        }
    }

    /// Determine if a DMA channel is idle or not.
    pub fn is_idle(&self, channel_num: dma_channel) -> (r: bool)
        ensures
            r == (field64(self.dmac.chen.bits, channel_index(channel_num) as u64, 1) == 0),
    {
        !self.check_channel_busy(channel_num)
    }

    /// Select the AXI master of a channel's source, destination or both;
    /// refused while the channel is busy.
    pub fn set_list_master_select(
        &mut self,
        channel_num: dma_channel,
        sd_sel: src_dst_select,
        mst_num: master_number,
    ) -> (r: Result<(), ()>)
        requires
            old(self).wf(),
        ensures
            final(self).wf(),
            ({
                let i = channel_index(channel_num);
                let o = old(self).dmac.channel@[i];
                let m = flag64(mst_num is AXI_MASTER_2);
                let with_src = if sd_sel is SRC || sd_sel is SRC_DST { with_field64(o.ctl.bits, 0, 1, m) } else { o.ctl.bits };
                let with_dst = if sd_sel is DST || sd_sel is SRC_DST { with_field64(with_src, 2, 1, m) } else { with_src };
                if field64(old(self).dmac.chen.bits, i as u64, 1) != 0 {
                    r is Err && final(self).dmac == old(self).dmac
                } else {
                    r is Ok && only_channel(old(self).dmac, final(self).dmac, i, CHANNEL { ctl: CTL { bits: with_dst }, ..o })
                }
            }),
    {
        if !self.check_channel_busy(channel_num) {
            let i = channel_num.idx();
            if sd_sel == src_dst_select::SRC || sd_sel == src_dst_select::SRC_DST {
                self.dmac.channel[i].ctl.write_sms(mst_num);
            }
            if sd_sel == src_dst_select::DST || sd_sel == src_dst_select::SRC_DST {
                self.dmac.channel[i].ctl.write_dms(mst_num);
            }
            proof {
                assert(self.dmac.channel@ =~= old(self).dmac.channel@.update(i as int, CHANNEL {
                    ctl: self.dmac.channel@[i as int].ctl,
                    ..old(self).dmac.channel@[i as int]
                }));
            }
            Ok(())
        } else {
            Err(())
        }
    }

    /// Enable the status of every common slave-interface error interrupt.
    pub fn enable_common_interrupt_status(&mut self)
        ensures
            final(self).dmac == (Dmac {
                com_intstatus_en: COM_INTSTATUS_EN { bits: slvif_all(old(self).dmac.com_intstatus_en.bits, true) },
                ..old(self).dmac
            }),
    {
        self.dmac.com_intstatus_en.write_slvif_dec_err(true).write_slvif_wr2ro_err(true).write_slvif_rd2wo_err(
            true).write_slvif_wronhold_err(true).write_slvif_undefinedreg_dec_err(true);
    }

    /// Enable the signal of every common slave-interface error interrupt.
    pub fn enable_common_interrupt_signal(&mut self)
        ensures
            final(self).dmac == (Dmac {
                com_intsignal_en: COM_INTSIGNAL_EN { bits: slvif_all(old(self).dmac.com_intsignal_en.bits, true) },
                ..old(self).dmac
            }),
    {
        self.dmac.com_intsignal_en.write_slvif_dec_err(true).write_slvif_wr2ro_err(true).write_slvif_rd2wo_err(
            true).write_slvif_wronhold_err(true).write_slvif_undefinedreg_dec_err(true);
    }

    /// Clear every interrupt of a channel and enable only its transfer-done
    /// interrupt.
    pub fn enable_channel_interrupt(&mut self, channel_num: dma_channel)
        requires
            old(self).wf(),
        ensures
            final(self).wf(),
            only_channel(old(self).dmac, final(self).dmac, channel_index(channel_num), CHANNEL {
                intclear: INTCLEAR { bits: 0xffffffff },
                intstatus_en: INTSTATUS_EN { bits: 0x2 },
                ..old(self).dmac.channel@[channel_index(channel_num)]
            }),
    {
        let i = channel_num.idx();
        self.dmac.channel[i].intclear.write(0xffffffff);
        self.dmac.channel[i].intstatus_en.write(0x2);
        proof {
            assert(self.dmac.channel@ =~= old(self).dmac.channel@.update(i as int, CHANNEL {
                intclear: INTCLEAR { bits: 0xffffffff },
                intstatus_en: INTSTATUS_EN { bits: 0x2 },
                ..old(self).dmac.channel@[i as int]
            }));
        }
    }

    /// Disable every interrupt of a channel.
    pub fn disable_channel_interrupt(&mut self, channel_num: dma_channel)
        requires
            old(self).wf(),
        ensures
            final(self).wf(),
            only_channel(old(self).dmac, final(self).dmac, channel_index(channel_num), CHANNEL {
                intstatus_en: INTSTATUS_EN { bits: 0 },
                ..old(self).dmac.channel@[channel_index(channel_num)]
            }),
    {
        let i = channel_num.idx();
        self.dmac.channel[i].intstatus_en.write(0x0);
    }

    /// Clear every interrupt of a channel.
    pub fn channel_interrupt_clear(&mut self, channel_num: dma_channel)
        requires
            old(self).wf(),
        ensures
            final(self).wf(),
            only_channel(old(self).dmac, final(self).dmac, channel_index(channel_num), CHANNEL {
                intclear: INTCLEAR { bits: 0xffffffff },
                ..old(self).dmac.channel@[channel_index(channel_num)]
            }),
    {
        let i = channel_num.idx();
        self.dmac.channel[i].intclear.write(0xffffffff);
    }

    /// Set DMA channel parameters: flow control from whether each end is
    /// memory (memory ends use software handshaking), the channel's own
    /// handshake interface at both ends, addresses, increments, widths,
    /// bursts, and the block size less one.
    pub fn set_channel_param(
        &mut self,
        channel_num: dma_channel,
        src: u64,
        dest: u64,
        src_inc: address_increment,
        dest_inc: address_increment,
        burst_size: burst_length,
        trans_width: transfer_width,
        block_size: u32,
    )
        requires
            old(self).wf(),
            block_size >= 1,
        ensures
            final(self).wf(),
            only_channel(old(self).dmac, final(self).dmac, channel_index(channel_num), with_params(
                old(self).dmac.channel@[channel_index(channel_num)], channel_index(channel_num), src, dest,
                src_inc, dest_inc, burst_size, trans_width, block_size)),
    {
        let i = channel_num.idx();
        let src_is_mem = is_memory(src);
        let dest_is_mem = is_memory(dest);
        let flow_control = match (src_is_mem, dest_is_mem) {
            (false, false) => TT_FC_A::PRF2PRF_DMA,
            (true, false) => TT_FC_A::MEM2PRF_DMA,
            (false, true) => TT_FC_A::PRF2MEM_DMA,
            (true, true) => TT_FC_A::MEM2MEM_DMA,
        };
        let per: u8 = i as u8;
        self.dmac.channel[i].cfg.write_tt_fc(flow_control).write_hs_sel_src(
            if src_is_mem {
                HS_SEL_SRC_A::SOFTWARE
            } else {
                HS_SEL_SRC_A::HARDWARE
            },
        ).write_hs_sel_dst(
            if dest_is_mem {
                HS_SEL_SRC_A::SOFTWARE
            } else {
                HS_SEL_SRC_A::HARDWARE
            },
        ).write_src_per(per).write_dst_per(per).write_src_multblk_type(0).write_dst_multblk_type(0);
        self.dmac.channel[i].sar.write(src);
        self.dmac.channel[i].dar.write(dest);
        self.dmac.channel[i].ctl.write_sms(SMS_A::AXI_MASTER_1).write_dms(SMS_A::AXI_MASTER_2).write_sinc(
            src_inc).write_dinc(dest_inc).write_src_tr_width(trans_width).write_dst_tr_width(
            trans_width).write_src_msize(burst_size).write_dst_msize(burst_size);
        self.dmac.channel[i].block_ts.write_block_ts(block_size - 1);
        proof {
            assert(self.dmac.channel@ =~= old(self).dmac.channel@.update(i as int, with_params(
                old(self).dmac.channel@[i as int], i as int, src, dest, src_inc, dest_inc, burst_size,
                trans_width, block_size)));
        }
    }

    /// First step of initialising the controller: enable its clock and start
    /// a reset. The controller clears the reset bit when the reset is done.
    pub fn init_reset(&mut self, sysctl: &mut Sysctl)
        requires
            old(sysctl).regs@.len() == SYSCTL_REGS,
        ensures
            final(sysctl).regs@ == enabled(old(sysctl).regs@, clock::DMA),
            final(self).dmac == (Dmac {
                reset: RESET { bits: with_field64(old(self).dmac.reset.bits, 0, 1, 1) },
                ..old(self).dmac
            }),
    {
        clock_enable(sysctl, clock::DMA);
        self.dmac.reset.write_rst(true);
    }

    /// Second step, once the reset is done: clear the common interrupts, then
    /// disable the controller and its interrupts. The configure register
    /// reads zero once the controller has stopped.
    pub fn init_stop(&mut self)
        ensures
            final(self).dmac == (Dmac {
                com_intclear: COM_INTCLEAR { bits: slvif_all(old(self).dmac.com_intclear.bits, true) },
                cfg: regs::CFG { bits: with_field64(with_field64(old(self).dmac.cfg.bits, 0, 1, 0), 1, 1, 0) },
                ..old(self).dmac
            }),
    {
        self.dmac.com_intclear.write_slvif_dec_err(true).write_slvif_wr2ro_err(true).write_slvif_rd2wo_err(
            true).write_slvif_wronhold_err(true).write_slvif_undefinedreg_dec_err(true);
        self.dmac.cfg.write_dmac_en(false).write_int_en(false);
    }

    /// Last step, once the controller has stopped: disable all six channels
    /// (with their write-enable bits), then enable the controller.
    pub fn init_channels(&mut self)
        ensures
            final(self).dmac == (Dmac {
                chen: CHEN { bits: all_channels_disabled(old(self).dmac.chen.bits) },
                cfg: regs::CFG { bits: with_field64(with_field64(old(self).dmac.cfg.bits, 0, 1, 1), 1, 1, 1) },
                ..old(self).dmac
            }),
    {
        self.dmac.chen.channel_n_disable(1).channel_n_disable(2).channel_n_disable(3).channel_n_disable(
            4).channel_n_disable(5).channel_n_disable(6);
        self.enable();
    }

    /// First step of a single transfer: clear the channel's interrupts and
    /// disable it. The channel's enable bit clears once it is idle.
    pub fn single_mode_stop(&mut self, channel_num: dma_channel)
        requires
            old(self).wf(),
        ensures
            final(self).wf(),
            only_channel(old(self).dmac, Dmac { chen: old(self).dmac.chen, ..final(self).dmac },
                channel_index(channel_num), CHANNEL {
                    intclear: INTCLEAR { bits: 0xffffffff },
                    ..old(self).dmac.channel@[channel_index(channel_num)]
                }),
            final(self).dmac.chen.bits == with_field64(with_field64(old(self).dmac.chen.bits,
                channel_index(channel_num) as u64, 1, 0), (channel_index(channel_num) + 8) as u64, 1, 1),
    {
        self.channel_interrupt_clear(channel_num);
        self.channel_disable(channel_num);
    }

    /// Last step, once the channel is idle and its interrupts cleared: set
    /// its parameters, enable the controller and start the channel.
    pub fn single_mode_start(
        &mut self,
        channel_num: dma_channel,
        src: u64,
        dest: u64,
        src_inc: address_increment,
        dest_inc: address_increment,
        burst_size: burst_length,
        trans_width: transfer_width,
        block_size: u32,
    )
        requires
            old(self).wf(),
            block_size >= 1,
        ensures
            final(self).wf(),
            only_channel(old(self).dmac, Dmac { chen: old(self).dmac.chen, cfg: old(self).dmac.cfg, ..final(self).dmac },
                channel_index(channel_num), with_params(old(self).dmac.channel@[channel_index(channel_num)],
                channel_index(channel_num), src, dest, src_inc, dest_inc, burst_size, trans_width, block_size)),
            final(self).dmac.cfg.bits == with_field64(with_field64(old(self).dmac.cfg.bits, 0, 1, 1), 1, 1, 1),
            final(self).dmac.chen.bits == with_field64(with_field64(old(self).dmac.chen.bits,
                channel_index(channel_num) as u64, 1, 1), (channel_index(channel_num) + 8) as u64, 1, 1),
    {
        self.set_channel_param(channel_num, src, dest, src_inc, dest_inc, burst_size, trans_width, block_size);
        self.enable();
        self.channel_enable(channel_num);
    }
}

/// The channel enable register after disabling channels 1 to 6 in turn.
pub open spec fn all_channels_disabled(v: u64) -> u64 {
    let d1 = with_field64(with_field64(v, 0, 1, 0), 8, 1, 1);
    let d2 = with_field64(with_field64(d1, 1, 1, 0), 9, 1, 1);
    let d3 = with_field64(with_field64(d2, 2, 1, 0), 10, 1, 1);
    let d4 = with_field64(with_field64(d3, 3, 1, 0), 11, 1, 1);
    let d5 = with_field64(with_field64(d4, 4, 1, 0), 12, 1, 1);
    with_field64(with_field64(d5, 5, 1, 0), 13, 1, 1)
}


/// Law: a channel reads busy after it is enabled and idle after it is
/// disabled, whatever the enable register held before; the other channels'
/// enable bits are kept.
pub proof fn law_channel_enable_disable(v: u64, i: u64, j: u64)
    requires
        i < 6,
        j < 6,
        i != j,
    ensures
        field64(with_field64(with_field64(v, i, 1, 1), (i + 8) as u64, 1, 1), i, 1) != 0,
        field64(with_field64(with_field64(v, i, 1, 0), (i + 8) as u64, 1, 1), i, 1) == 0,
        field64(with_field64(with_field64(v, i, 1, 1), (i + 8) as u64, 1, 1), j, 1) == field64(v, j, 1),
        field64(with_field64(with_field64(v, i, 1, 0), (i + 8) as u64, 1, 1), j, 1) == field64(v, j, 1),
{
    let e = (i + 8) as u64;
    let a = with_field64(with_field64(v, i, 1, 1), e, 1, 1);
    let d = with_field64(with_field64(v, i, 1, 0), e, 1, 1);
    let a1 = with_field64(v, i, 1, 1);
    let d1 = with_field64(v, i, 1, 0);
    assert((a >> i) & 1 != 0 && (d >> i) & 1 == 0 && (a >> j) & 1 == (v >> j) & 1 && (d >> j) & 1 == (v >> j) & 1)
        by (bit_vector)
        requires
            i < 6,
            j < 6,
            i != j,
            e == i + 8,
            a1 == (v & !(1u64 << i)) | ((1u64 & 1u64) << i),
            d1 == (v & !(1u64 << i)) | ((0u64 & 1u64) << i),
            a == (a1 & !(1u64 << e)) | ((1u64 & 1u64) << e),
            d == (d1 & !(1u64 << e)) | ((1u64 & 1u64) << e),
    ;
}


/// Law: the transfer type written for a transfer names the kind of both its
/// ends: memory to memory exactly when both are memory (code 0), memory to
/// peripheral when only the source is (1), peripheral to memory when only
/// the destination is (2), peripheral to peripheral when neither is (3);
/// each memory end gets software handshaking, and both peripheral fields
/// name the channel.
pub proof fn law_transfer_type_names_both_ends(v: u64, ch: int, s: bool, d: bool)
    requires
        0 <= ch < 6,
    ensures
        flow_control(s, d) is MEM2MEM_DMA <==> (s && d),
        flow_control(s, d) is MEM2PRF_DMA <==> (s && !d),
        flow_control(s, d) is PRF2MEM_DMA <==> (!s && d),
        flow_control(s, d) is PRF2PRF_DMA <==> (!s && !d),
        field64(param_cfg(v, ch, s, d), 32, 0x07) == (if s && d { 0u64 } else if s { 1u64 } else if d { 2u64 } else { 3u64 }),
        field64(param_cfg(v, ch, s, d), 35, 0x01) == flag64(s),
        field64(param_cfg(v, ch, s, d), 36, 0x01) == flag64(d),
        field64(param_cfg(v, ch, s, d), 39, 0x0f) == ch as u64,
        field64(param_cfg(v, ch, s, d), 44, 0x0f) == ch as u64,
{
    let c: u64 = tt_fc_code(flow_control(s, d)) as u64;
    let fs = flag64(s);
    let fd = flag64(d);
    let c6 = ch as u64;
    let w1 = with_field64(v, 32, 0x07, c);
    let w2 = with_field64(w1, 35, 1, fs);
    let w3 = with_field64(w2, 36, 1, fd);
    let w4 = with_field64(w3, 39, 0x0f, c6);
    let w5 = with_field64(w4, 44, 0x0f, c6);
    let w6 = with_field64(w5, 0, 0x03, 0);
    let w7 = with_field64(w6, 2, 0x03, 0);
    assert(param_cfg(v, ch, s, d) == w7);
    assert(c <= 3 && fs <= 1 && fd <= 1 && c6 < 6);
    assert((w7 >> 32u64) & 0x07u64 == c && (w7 >> 35u64) & 0x01u64 == fs && (w7 >> 36u64) & 0x01u64 == fd
        && (w7 >> 39u64) & 0x0fu64 == c6 && (w7 >> 44u64) & 0x0fu64 == c6) by (bit_vector)
        requires
            c <= 3,
            fs <= 1,
            fd <= 1,
            c6 < 6,
            w1 == (v & !(0x07u64 << 32u64)) | ((c & 0x07u64) << 32u64),
            w2 == (w1 & !(1u64 << 35u64)) | ((fs & 1u64) << 35u64),
            w3 == (w2 & !(1u64 << 36u64)) | ((fd & 1u64) << 36u64),
            w4 == (w3 & !(0x0fu64 << 39u64)) | ((c6 & 0x0fu64) << 39u64),
            w5 == (w4 & !(0x0fu64 << 44u64)) | ((c6 & 0x0fu64) << 44u64),
            w6 == (w5 & !(0x03u64 << 0u64)) | ((0u64 & 0x03u64) << 0u64),
            w7 == (w6 & !(0x03u64 << 2u64)) | ((0u64 & 0x03u64) << 2u64),
    ;
}

} // verus!
