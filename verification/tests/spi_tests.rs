use userspace::spi::{
    aitm, fill_chunk, frame_format, is_tx_idle, tmod, work_mode, DmaPlan, SpiWrite, TruncU32, SPI, SPI0_DR_ADDRESS,
};
use userspace::dmac::channel::{SINC_A, SRC_MSIZE_A, SRC_TR_WIDTH_A};
use userspace::sysctl::{dma_channel, Sysctl, CLK_EN_CENT, CLK_EN_PERI, DMA_SEL0};

#[test]
fn truncation_of_frames() {
    assert_eq!(<u32 as TruncU32>::trunc(0x1234_5678), 0x1234_5678);
    assert_eq!(<u16 as TruncU32>::trunc(0x1234_5678), 0x5678);
    assert_eq!(<u8 as TruncU32>::trunc(0x1234_5678), 0x78);
}

#[test]
fn configure_writes_frame_and_transfer_settings() {
    let mut spi = SPI::new();
    spi.configure(work_mode::MODE0, frame_format::STANDARD, 8, 0, 8, 24, 0, aitm::STANDARD, tmod::TRANS);
    assert_eq!(spi.spi.imr.bits, 0);
    assert_eq!(spi.spi.dmacr.bits, 0);
    assert_eq!(spi.spi.dmatdlr.bits, 0x10);
    assert_eq!(spi.spi.ser.bits, 0);
    assert_eq!(spi.spi.ssienr.bits, 0);
    // tmod TRANS (1) at bit 8, data length 7 at bit 16.
    assert_eq!(spi.spi.ctrlr0.bits, (1 << 8) | (7 << 16));
    // address length 24/4 = 6 at bit 2, instruction length code 2 at bit 8.
    assert_eq!(spi.spi.spi_ctrlr0.bits, (6 << 2) | (2 << 8));
}

#[test]
fn clock_rate_divider_is_clamped() {
    let mut s = Sysctl::new();
    let mut spi = SPI::new();
    // SPI0 runs at 13 MHz: divider 13 for 1 MHz.
    assert_eq!(spi.set_clk_rate(&mut s, 1_000_000), 1_000_000);
    assert_eq!(spi.spi.baudr.bits, 13);
    assert_eq!(s.regs[CLK_EN_CENT], 0x20);
    assert_eq!(s.regs[CLK_EN_PERI], 0x40);
    // Too fast a rate: the divider stays at 2.
    assert_eq!(spi.set_clk_rate(&mut s, 100_000_000), 6_500_000);
    assert_eq!(spi.spi.baudr.bits, 2);
    // Too slow a rate: the divider stops at 65534.
    assert_eq!(spi.set_clk_rate(&mut s, 1), 13_000_000 / 65534);
    assert_eq!(spi.spi.baudr.bits, 65534);
}

#[test]
fn receive_truncates_each_frame() {
    let mut spi = SPI::new();
    let mut rx: Vec<u8> = vec![0; 3];
    let writes = spi.recv_data(2, &mut rx, &[0x1ff, 0x2aa, 0x355]);
    assert_eq!(rx, vec![0xff, 0xaa, 0x55]);
    assert_eq!(
        writes,
        vec![
            SpiWrite::Ctrlr1(2),
            SpiWrite::Ssienr(1),
            SpiWrite::Dr(0xffff_ffff),
            SpiWrite::Ser(4),
            SpiWrite::Ser(0),
            SpiWrite::Ssienr(0),
        ]
    );
    assert_eq!(spi.spi.ctrlr1.bits, 2);
    assert_eq!(spi.spi.dr.bits, 0xffff_ffff);
    assert_eq!(spi.spi.ser.bits, 0);
    assert_eq!(spi.spi.ssienr.bits, 0);
}

#[test]
fn receive_nothing_changes_nothing() {
    let mut spi = SPI::new();
    let mut rx: Vec<u32> = Vec::new();
    let writes = spi.recv_data(1, &mut rx, &[]);
    assert!(writes.is_empty());
    assert_eq!(spi.spi.ctrlr1.bits, 0);
    assert_eq!(spi.spi.dr.bits, 0);
}

#[test]
fn send_pushes_each_element() {
    let mut spi = SPI::new();
    let writes = spi.send_data(5, &[1u8, 2, 0xff]);
    assert_eq!(
        writes,
        vec![
            SpiWrite::Ser(1 << 5),
            SpiWrite::Ssienr(1),
            SpiWrite::Dr(1),
            SpiWrite::Dr(2),
            SpiWrite::Dr(0xff),
            SpiWrite::Ser(0),
            SpiWrite::Ssienr(0),
        ]
    );
    assert_eq!(spi.spi.dr.bits, 0xff);
    assert_eq!(spi.spi.ser.bits, 0);
    assert_eq!(spi.spi.ssienr.bits, 0);
}

#[test]
fn transfer_begin_and_end() {
    let mut spi = SPI::new();
    spi.begin_transfer(3);
    assert_eq!(spi.spi.ser.bits, 8);
    assert_eq!(spi.spi.ssienr.bits, 1);
    spi.end_transfer();
    assert_eq!(spi.spi.ser.bits, 0);
    assert_eq!(spi.spi.ssienr.bits, 0);
    spi.select_slave(1);
    assert_eq!(spi.spi.ser.bits, 2);
}

#[test]
fn fill_chunks_and_idle_status() {
    assert_eq!(fill_chunk(0, 100), 32);
    assert_eq!(fill_chunk(30, 100), 2);
    assert_eq!(fill_chunk(0, 5), 5);
    assert_eq!(fill_chunk(32, 5), 0);
    assert!(is_tx_idle(0x04));
    assert!(is_tx_idle(0x06));
    assert!(!is_tx_idle(0x05));
    assert!(!is_tx_idle(0x00));
}

#[test]
fn dma_receive_plan() {
    let mut spi = SPI::new();
    let mut s = Sysctl::new();
    assert_eq!(spi.recv_data_dma_begin(&mut s, dma_channel::CHANNEL1, 0x8000_0000, 0), None);
    assert_eq!(spi.spi.ssienr.bits, 0);
    let plan = spi.recv_data_dma_begin(&mut s, dma_channel::CHANNEL1, 0x8000_0000, 4).unwrap();
    assert_eq!(
        plan,
        DmaPlan {
            src: SPI0_DR_ADDRESS,
            dest: 0x8000_0000,
            src_inc: SINC_A::NOCHANGE,
            dest_inc: SINC_A::INCREMENT,
            burst_size: SRC_MSIZE_A::LENGTH_1,
            trans_width: SRC_TR_WIDTH_A::WIDTH_32,
            block_size: 4,
        }
    );
    assert_eq!(spi.spi.ctrlr1.bits, 3);
    assert_eq!(spi.spi.dmacr.bits, 3);
    assert_eq!(s.regs[DMA_SEL0], 0);
    spi.recv_data_dma_trigger(2);
    assert_eq!(spi.spi.dr.bits, 0xffff_ffff);
    assert_eq!(spi.spi.ser.bits, 4);
}

#[test]
fn dma_send_and_fill_plans() {
    let mut spi = SPI::new();
    let mut s = Sysctl::new();
    let plan = spi.send_data_dma_begin(&mut s, dma_channel::CHANNEL2, 0x8000_1000, 16);
    assert_eq!(plan.src, 0x8000_1000);
    assert_eq!(plan.dest, SPI0_DR_ADDRESS);
    assert_eq!(plan.src_inc, SINC_A::INCREMENT);
    assert_eq!(plan.dest_inc, SINC_A::NOCHANGE);
    assert_eq!(plan.burst_size, SRC_MSIZE_A::LENGTH_4);
    assert_eq!(plan.block_size, 16);
    assert_eq!(spi.spi.dmacr.bits, 2);
    assert_eq!(s.regs[DMA_SEL0], 1 << 12);
    let fill = spi.fill_data_dma_begin(&mut s, dma_channel::CHANNEL0, 0x8000_2000, 100);
    assert_eq!(fill.src_inc, SINC_A::NOCHANGE);
    assert_eq!(fill.dest_inc, SINC_A::NOCHANGE);
    assert_eq!(fill.block_size, 100);
    assert_eq!(s.regs[DMA_SEL0], (1 << 12) | 1);
}

#[test]
fn send_nothing_still_selects_and_deselects() {
    let mut spi = SPI::new();
    let writes = spi.send_data::<u8>(1, &[]);
    assert_eq!(writes, vec![SpiWrite::Ser(2), SpiWrite::Ssienr(1), SpiWrite::Ser(0), SpiWrite::Ssienr(0)]);
}

#[test]
fn receive_in_two_parts() {
    let mut spi = SPI::new();
    let start = spi.recv_data_start(7, 2);
    assert_eq!(start, vec![SpiWrite::Ctrlr1(1), SpiWrite::Ssienr(1), SpiWrite::Dr(0xffff_ffff), SpiWrite::Ser(1 << 7)]);
    assert_eq!(spi.spi.ser.bits, 1 << 7);
    let mut rx: Vec<u16> = vec![0; 2];
    let end = spi.recv_data_finish(&mut rx, &[0x1_0002, 3]);
    assert_eq!(rx, vec![2, 3]);
    assert_eq!(end, vec![SpiWrite::Ser(0), SpiWrite::Ssienr(0)]);
}

#[test]
fn fill_writes_the_value_the_asked_number_of_times() {
    let mut spi = SPI::new();
    let writes = spi.fill_data(4, 0xab, 3);
    assert_eq!(
        writes,
        vec![
            SpiWrite::Ser(1 << 4),
            SpiWrite::Ssienr(1),
            SpiWrite::Dr(0xab),
            SpiWrite::Dr(0xab),
            SpiWrite::Dr(0xab),
            SpiWrite::Ser(0),
            SpiWrite::Ssienr(0),
        ]
    );
    assert_eq!(spi.spi.dr.bits, 0xab);
    let none = spi.fill_data(0, 7, 0);
    assert_eq!(none, vec![SpiWrite::Ser(1), SpiWrite::Ssienr(1), SpiWrite::Ser(0), SpiWrite::Ssienr(0)]);
}
