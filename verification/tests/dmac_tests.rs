use userspace::dmac::channel::{SINC_A, SMS_A, SRC_MSIZE_A, SRC_TR_WIDTH_A};
use userspace::dmac::regs::Dmac;
use userspace::dmac::{is_memory, src_dst_select, DMACExt, DMAC};
use userspace::sysctl::{dma_channel, Sysctl, CLK_EN_PERI};

fn controller() -> DMAC {
    Dmac::new().configure()
}

#[test]
fn memory_ranges() {
    assert!(is_memory(0x8000_0000));
    assert!(is_memory(0x805f_ffff));
    assert!(!is_memory(0x8060_0000));
    assert!(is_memory(0x4000_0000));
    assert!(!is_memory(0x4080_0000));
    assert!(is_memory(0x5045_0040));
    assert!(!is_memory(0x5200_0060));
}

#[test]
fn enable_and_disable_controller() {
    let mut d = controller();
    d.enable();
    assert_eq!(d.dmac.cfg.bits, 3);
    d.disable();
    assert_eq!(d.dmac.cfg.bits, 0);
    d.dmac.com_intstatus_en.bits = 0x5;
    d.dmac.cfg.bits = 0xf0;
    d.disable();
    assert_eq!(d.dmac.cfg.bits, 0xf0);
    assert_eq!(d.dmac.com_intstatus_en.bits, 0x5);
    assert_eq!(d.dmac.com_intclear.bits, 0);
}

#[test]
fn channel_enable_disable_and_busy() {
    let mut d = controller();
    assert!(d.is_idle(dma_channel::CHANNEL2));
    d.channel_enable(dma_channel::CHANNEL2);
    assert_eq!(d.dmac.chen.bits, 0x404);
    assert!(d.check_channel_busy(dma_channel::CHANNEL2));
    assert!(!d.is_idle(dma_channel::CHANNEL2));
    d.channel_disable(dma_channel::CHANNEL2);
    assert_eq!(d.dmac.chen.bits, 0x400);
    assert!(d.is_idle(dma_channel::CHANNEL2));
}

#[test]
fn channel_parameters_for_memory_to_peripheral() {
    let mut d = controller();
    d.set_channel_param(
        dma_channel::CHANNEL0,
        0x8000_0000,
        0x5200_0060,
        SINC_A::INCREMENT,
        SINC_A::NOCHANGE,
        SRC_MSIZE_A::LENGTH_4,
        SRC_TR_WIDTH_A::WIDTH_32,
        16,
    );
    let ch = &d.dmac.channel[0];
    assert_eq!(ch.sar.bits, 0x8000_0000);
    assert_eq!(ch.dar.bits, 0x5200_0060);
    assert_eq!(ch.block_ts.bits, 15);
    assert_eq!(ch.cfg.bits, 0x9_0000_0000);
    assert_eq!(ch.ctl.bits, 0x45244);
}

#[test]
fn channel_parameters_carry_the_channel_number() {
    let mut d = controller();
    d.set_channel_param(
        dma_channel::CHANNEL2,
        0x5200_0060,
        0x8000_1000,
        SINC_A::NOCHANGE,
        SINC_A::INCREMENT,
        SRC_MSIZE_A::LENGTH_1,
        SRC_TR_WIDTH_A::WIDTH_8,
        1,
    );
    let ch = &d.dmac.channel[2];
    // PRF2MEM, destination handshake on memory, channel 2 in both priority fields.
    assert_eq!(ch.cfg.bits, (2u64 << 32) | (1u64 << 36) | (2u64 << 39) | (2u64 << 44));
    assert_eq!(ch.ctl.bits, (1 << 2) | (1 << 4));
    assert_eq!(ch.block_ts.bits, 0);
    assert_eq!(d.dmac.channel[0].cfg.bits, 0);
}

#[test]
fn master_select_refused_while_busy() {
    let mut d = controller();
    assert_eq!(d.set_list_master_select(dma_channel::CHANNEL1, src_dst_select::SRC_DST, SMS_A::AXI_MASTER_2), Ok(()));
    assert_eq!(d.dmac.channel[1].ctl.bits, 0b101);
    d.channel_enable(dma_channel::CHANNEL1);
    assert_eq!(d.set_list_master_select(dma_channel::CHANNEL1, src_dst_select::SRC, SMS_A::AXI_MASTER_1), Err(()));
    assert_eq!(d.dmac.channel[1].ctl.bits, 0b101);
}

#[test]
fn interrupts() {
    let mut d = controller();
    d.enable_channel_interrupt(dma_channel::CHANNEL3);
    assert_eq!(d.dmac.channel[3].intclear.bits, 0xffff_ffff);
    assert_eq!(d.dmac.channel[3].intstatus_en.bits, 0x2);
    d.disable_channel_interrupt(dma_channel::CHANNEL3);
    assert_eq!(d.dmac.channel[3].intstatus_en.bits, 0);
    d.enable_common_interrupt_status();
    assert_eq!(d.dmac.com_intstatus_en.bits, 0x10f);
    d.enable_common_interrupt_signal();
    assert_eq!(d.dmac.com_intsignal_en.bits, 0x10f);
    d.src_transaction_complete_int_enable(dma_channel::CHANNEL3);
    assert_eq!(d.dmac.channel[3].intstatus_en.bits, 0x8);
}

#[test]
fn init_steps() {
    let mut d = controller();
    let mut s = Sysctl::new();
    d.init_reset(&mut s);
    assert_eq!(d.dmac.reset.bits, 1);
    assert_eq!(s.regs[CLK_EN_PERI], 0x2);
    d.init_stop();
    assert_eq!(d.dmac.com_intclear.bits, 0x10f);
    assert_eq!(d.dmac.cfg.bits, 0);
    d.init_channels();
    assert_eq!(d.dmac.chen.bits, 0x3f00);
    assert_eq!(d.dmac.cfg.bits, 3);
}

#[test]
fn single_transfer_steps() {
    let mut d = controller();
    d.channel_enable(dma_channel::CHANNEL4);
    d.single_mode_stop(dma_channel::CHANNEL4);
    assert!(d.is_idle(dma_channel::CHANNEL4));
    assert_eq!(d.dmac.channel[4].intclear.bits, 0xffff_ffff);
    // Once the clear has gone out, the start writes no clear again.
    d.dmac.channel[4].intclear.bits = 0;
    d.single_mode_start(
        dma_channel::CHANNEL4,
        0x8000_0000,
        0x8000_2000,
        SINC_A::INCREMENT,
        SINC_A::INCREMENT,
        SRC_MSIZE_A::LENGTH_4,
        SRC_TR_WIDTH_A::WIDTH_32,
        8,
    );
    assert!(d.check_channel_busy(dma_channel::CHANNEL4));
    assert_eq!(d.dmac.cfg.bits, 3);
    assert_eq!(d.dmac.channel[4].block_ts.bits, 7);
    assert_eq!(d.dmac.channel[4].intclear.bits, 0);
    assert_eq!(d.read_id(), 0);
    assert_eq!(d.read_version(), 0);
    assert_eq!(d.read_channel_id(dma_channel::CHANNEL4), 0);
}
