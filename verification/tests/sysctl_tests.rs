use userspace::sysctl::{
    clock, clock_enable, clock_get_clock_select, clock_get_freq, clock_get_threshold, clock_select,
    clock_set_clock_select, clock_set_threshold, clock_source, clock_source_get_freq, dma_channel, dma_select,
    pll, pll2_cksel_to_source, pll2_source_to_cksel, pll_clear_slip, pll_get_freq, pll_is_lock,
    pll_set_freq_finish, pll_set_freq_prepare, pll_source_set_freq, pll_write_reset, reset, reset_ctl,
    set_power_mode, sysctl_clock_disable, threshold, io_power_mode, power_bank, PllParams, Sysctl,
    clock_freq_defined, pll_freq_defined,
    CLK_EN_CENT, CLK_EN_PERI, CLK_SEL0, DMA_SEL0, PLL0, PLL2, POWER_SEL, SOFT_RESET, PERI_RESET, DMA_SEL1, PLL_LOCK,
};

#[test]
fn fresh_controller_runs_everything_from_in0() {
    let s = Sysctl::new();
    assert_eq!(clock_get_freq(&s, clock::IN0), 26_000_000);
    assert_eq!(pll_get_freq(&s, pll::PLL0), 26_000_000);
    assert_eq!(clock_get_freq(&s, clock::CPU), 26_000_000);
    assert_eq!(clock_source_get_freq(&s, clock_source::ACLK), 26_000_000);
    // SPI0 runs from PLL0 halved.
    assert_eq!(clock_get_freq(&s, clock::SPI0), 13_000_000);
}

#[test]
fn dividers_divide() {
    let mut s = Sysctl::new();
    clock_set_threshold(&mut s, threshold::APB0, 3);
    assert_eq!(clock_get_threshold(&s, threshold::APB0), 3);
    assert_eq!(clock_get_freq(&s, clock::APB0), 6_500_000);
    assert_eq!(clock_get_freq(&s, clock::GPIO), 6_500_000);
}

#[test]
fn threshold_read_after_set_is_cut_to_the_field() {
    let mut s = Sysctl::new();
    clock_set_threshold(&mut s, threshold::ACLK, 7);
    assert_eq!(clock_get_threshold(&s, threshold::ACLK), 3);
    clock_set_threshold(&mut s, threshold::SPI0, 0x1ff);
    assert_eq!(clock_get_threshold(&s, threshold::SPI0), 0xff);
}

#[test]
fn cpu_runs_from_pll0_when_selected() {
    let mut s = Sysctl::new();
    clock_set_clock_select(&mut s, clock_select::ACLK, 1);
    assert_eq!(clock_get_clock_select(&s, clock_select::ACLK), 1);
    assert_eq!(s.regs[CLK_SEL0], 1);
    // PLL0 over 2 << 0.
    assert_eq!(clock_get_freq(&s, clock::CPU), 13_000_000);
}

#[test]
fn clock_enable_switches_bus_and_device() {
    let mut s = Sysctl::new();
    clock_enable(&mut s, clock::SPI0);
    assert_eq!(s.regs[CLK_EN_CENT], 0x20);
    assert_eq!(s.regs[CLK_EN_PERI], 0x40);
    sysctl_clock_disable(&mut s, clock::SPI0);
    assert_eq!(s.regs[CLK_EN_PERI], 0);
}

#[test]
fn reset_lines_are_bits_of_the_reset_register() {
    let mut s = Sysctl::new();
    reset_ctl(&mut s, reset::SPI0, true);
    assert_eq!(s.regs[PERI_RESET], 0x40);
    reset_ctl(&mut s, reset::RTC, true);
    assert_eq!(s.regs[PERI_RESET], 0x2000_0040);
    reset_ctl(&mut s, reset::SPI0, false);
    assert_eq!(s.regs[PERI_RESET], 0x2000_0000);
    assert_eq!(s.regs[SOFT_RESET], 0);
    reset_ctl(&mut s, reset::ROM, true);
    assert_eq!(s.regs[PERI_RESET], 0x2000_0001);
    assert_eq!(s.regs[SOFT_RESET], 0);
    reset_ctl(&mut s, reset::SOC, true);
    assert_eq!(s.regs[SOFT_RESET], 1);
    assert_eq!(s.regs[PERI_RESET], 0x2000_0001);
}

#[test]
fn dma_select_fields() {
    let mut s = Sysctl::new();
    dma_select(&mut s, dma_channel::CHANNEL1, dma_select::SSI0_TX_REQ);
    assert_eq!(s.regs[DMA_SEL0], 1 << 6);
    dma_select(&mut s, dma_channel::CHANNEL5, dma_select::SSI1_RX_REQ);
    assert_eq!(s.regs[DMA_SEL1], 2);
    assert_eq!(s.regs[POWER_SEL], 0);
}

#[test]
fn power_mode_bits() {
    let mut s = Sysctl::new();
    set_power_mode(&mut s, power_bank::BANK2, io_power_mode::V18);
    assert_eq!(s.regs[POWER_SEL], 1 << 2);
}

#[test]
fn pll2_input_select_round_trip() {
    assert_eq!(pll2_cksel_to_source(0), clock_source::IN0);
    assert_eq!(pll2_cksel_to_source(1), clock_source::PLL0);
    assert_eq!(pll2_cksel_to_source(2), clock_source::PLL1);
    for bits in 0u8..3 {
        assert_eq!(pll2_source_to_cksel(pll2_cksel_to_source(bits)), bits);
    }
}

#[test]
fn pll_refuses_other_sources_and_missing_settings() {
    let mut s = Sysctl::new();
    let params = PllParams { clkr: 0, clkf: 15, clkod: 1, bwadj: 15 };
    assert_eq!(pll_source_set_freq(&mut s, pll::PLL0, clock_source::PLL1, Some(params)), Err(()));
    assert_eq!(pll_source_set_freq(&mut s, pll::PLL0, clock_source::IN0, None), Err(()));
    assert_eq!(s.regs[PLL0], 0);
}

#[test]
fn pll_programmed_frequency() {
    let mut s = Sysctl::new();
    let params = PllParams { clkr: 0, clkf: 15, clkod: 1, bwadj: 15 };
    // 26 MHz * 16 / (1 * 2).
    assert_eq!(pll_source_set_freq(&mut s, pll::PLL0, clock_source::IN0, Some(params)), Ok(208_000_000));
    assert_eq!(s.regs[PLL0], 0x3c4f0);
    assert_eq!(pll_get_freq(&s, pll::PLL0), 208_000_000);
    assert_eq!(clock_get_freq(&s, clock::SPI0), 104_000_000);
}

#[test]
fn pll_frequency_change_steps() {
    let mut s = Sysctl::new();
    clock_set_clock_select(&mut s, clock_select::ACLK, 1);
    let params = PllParams { clkr: 1, clkf: 39, clkod: 1, bwadj: 39 };
    // 26 MHz * 40 / (2 * 2).
    assert_eq!(pll_set_freq_prepare(&mut s, pll::PLL0, Some(params)), Ok(260_000_000));
    // The CPU was moved to IN0 and the PLL powered on again, output still off.
    assert_eq!(s.regs[CLK_SEL0] & 1, 0);
    assert_eq!(s.regs[PLL0] & (1 << 21), 1 << 21);
    assert_eq!(s.regs[PLL0] & (1 << 25), 0);
    pll_write_reset(&mut s, pll::PLL0, true);
    assert_eq!(s.regs[PLL0] & (1 << 20), 1 << 20);
    pll_write_reset(&mut s, pll::PLL0, false);
    pll_set_freq_finish(&mut s, pll::PLL0);
    assert_eq!(s.regs[PLL0] & (1 << 25), 1 << 25);
    assert_eq!(s.regs[CLK_SEL0] & 1, 1);
    assert_eq!(clock_get_freq(&s, clock::CPU), 130_000_000);
}

#[test]
fn pll2_follows_its_input_select() {
    let mut s = Sysctl::new();
    clock_set_clock_select(&mut s, clock_select::PLL2, 1);
    assert_eq!(s.regs[PLL2], 1 << 26);
    let params = PllParams { clkr: 0, clkf: 3, clkod: 0, bwadj: 3 };
    assert_eq!(pll_set_freq_prepare(&mut s, pll::PLL2, Some(params)), Ok(104_000_000));
}

#[test]
fn pll_lock_and_slip() {
    let mut s = Sysctl::new();
    assert!(!pll_is_lock(&s, pll::PLL0));
    s.regs[PLL_LOCK] = 0x3;
    assert!(pll_is_lock(&s, pll::PLL0));
    assert!(!pll_is_lock(&s, pll::PLL1));
    assert!(!pll_clear_slip(&mut s, pll::PLL1));
    assert_eq!(s.regs[PLL_LOCK], 0x403);
}

#[test]
fn pll0_ignores_the_pll2_input_select() {
    let mut s = Sysctl::new();
    s.regs[PLL2] = 3 << 26;
    assert!(!pll_freq_defined(&s, pll::PLL2));
    assert!(pll_freq_defined(&s, pll::PLL0));
    assert!(clock_freq_defined(&s, clock::CPU));
    assert!(!clock_freq_defined(&s, clock::I2S0));
    let r = pll_set_freq_prepare(&mut s, pll::PLL0, None);
    assert_eq!(r, Err(()));
}
