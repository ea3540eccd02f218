use userspace::rtc::{
    get_weekday, is_leap_year, leaps_thru_end_of, read_alarm_date, read_alarm_time, read_date, read_time,
    rtc_alarm_irq_register, rtc_month_days, rtc_tick_irq_register, rtc_timer_set_mode, set_date, set_time,
    write_current_count, write_initial_count, Rtc, RtcRegs, RtcTime, RtcWkAlarm, TimerMode, days_in_month,
};
use userspace::sysctl::{Sysctl, CLK_EN_CENT, CLK_EN_PERI};

#[test]
fn leap_years() {
    assert!(is_leap_year(2000));
    assert!(!is_leap_year(1900));
    assert!(is_leap_year(2024));
    assert!(!is_leap_year(2023));
    assert_eq!(leaps_thru_end_of(2000), 485);
    assert_eq!(leaps_thru_end_of(3), 0);
}

#[test]
fn month_lengths() {
    assert_eq!(days_in_month(0), 31);
    assert_eq!(days_in_month(1), 28);
    assert_eq!(days_in_month(8), 30);
    assert_eq!(rtc_month_days(1, 2024), 29);
    assert_eq!(rtc_month_days(1, 2023), 28);
    assert_eq!(rtc_month_days(3, 2024), 30);
    assert_eq!(rtc_month_days(11, 2024), 31);
}

#[test]
fn weekday_formula() {
    assert_eq!(get_weekday(2022, 4, 27), 3);
    // Day plus month under 3: the year before, modulo 7.
    assert_eq!(get_weekday(2022, 0, 1), 2021 % 7);
}

#[test]
fn broken_down_time() {
    let t = RtcTime::new(2022, 5, 27, 19, 55, 0);
    assert_eq!(t.tm_year, 122);
    assert_eq!(t.tm_mon, 4);
    assert_eq!(t.tm_mday, 27);
    assert_eq!(t.tm_hour, 19);
    assert_eq!(t.tm_min, 55);
    assert_eq!(t.tm_sec, 0);
    assert_eq!(t.tm_wday, 3);
    assert_eq!(t.tm_yday, 58);
    assert_eq!(t.tm_isdst, -1);
    let d = RtcTime::default();
    assert_eq!((d.tm_year, d.tm_mon, d.tm_sec, d.tm_isdst), (2000, 10, 10, 0));
    let a = RtcWkAlarm::new(2022, 5, 27, 19, 56, 0);
    assert_eq!(a.time.tm_min, 56);
    assert_eq!(RtcWkAlarm::default().time, RtcTime::default());
}

#[test]
fn time_set_then_read_back() {
    let mut rtc = Rtc::new();
    let (y, mn, d, h, m, s) = (2022, 5, 27, 19, 55, 0);
    rtc.timer_set(y, mn, d, h, m, s);
    let (hour, min, sec) = rtc.read_time();
    let (year, mon, day) = rtc.read_date();
    assert!(year == y && mon == mn && day == d && hour == h && min == m && sec == s);
    // The registers hold the same time, the year since 1900 and the month from 0.
    assert_eq!(read_time(&rtc.regs), (19, 55, 0));
    assert_eq!(read_date(&rtc.regs), (122, 4, 27, 3));
}

#[test]
fn alarm_set_then_read_back() {
    let mut rtc = Rtc::new();
    rtc.set_alarm(2022, 5, 27, 19, 56, 0);
    let (hour, min, sec) = rtc.read_alarm_time();
    let (year, mon, day) = rtc.read_alarm_date();
    assert!(year == 2022 && mon == 5 && day == 27 && hour == 19 && min == 56 && sec == 0);
    assert_eq!(read_alarm_time(&rtc.regs), (19, 56, 0));
    // The weekday read from the alarm date register is the day field.
    assert_eq!(read_alarm_date(&rtc.regs), (122, 4, 27, 27));
}

#[test]
fn register_fields_are_cut_to_width() {
    let mut regs = RtcRegs::new();
    set_time(&mut regs, 33, 70, 61);
    assert_eq!(read_time(&regs), (1, 6, 61));
    set_date(&mut regs, 4096 + 5, 17, 33, 9);
    assert_eq!(read_date(&regs), (5, 1, 1, 1));
}

#[test]
fn control_registers() {
    let mut regs = RtcRegs::new();
    rtc_timer_set_mode(&mut regs, TimerMode::RtcTimerSetting);
    assert_eq!(regs.register_ctrl, 0b10);
    rtc_timer_set_mode(&mut regs, TimerMode::RtcTimerRunning);
    assert_eq!(regs.register_ctrl, 0b01);
    rtc_timer_set_mode(&mut regs, TimerMode::RtcTimerMax);
    assert_eq!(regs.register_ctrl, 0);
    write_initial_count(&mut regs, 26_000_000);
    write_current_count(&mut regs, 1);
    assert_eq!((regs.initial_count, regs.current_count), (26_000_000, 1));
    rtc_tick_irq_register(&mut regs, 2);
    assert_eq!(regs.interrupt_ctrl, (2 << 2) | 1);
    rtc_alarm_irq_register(&mut regs, 1);
    assert_eq!(regs.interrupt_ctrl, (1 << 2) | 0b11);
}

#[test]
fn driver_init_and_interrupts() {
    let mut rtc = Rtc::new();
    let mut s = Sysctl::new();
    rtc.init(&mut s);
    assert_eq!(s.regs[CLK_EN_CENT], 1 << 4);
    assert_eq!(s.regs[CLK_EN_PERI], 1 << 29);
    assert_eq!(rtc.regs.initial_count, 26_000_000);
    assert_eq!(rtc.regs.register_ctrl, (0xfe << 21) | (0xfe << 13) | (1 << 29) | (1 << 30));
    rtc.set_mode(TimerMode::RtcTimerRunning);
    assert_eq!(rtc.regs.register_ctrl & 0b11, 0b01);
    rtc.irq_register(1);
    assert_eq!(rtc.regs.interrupt_ctrl, (1 << 2) | 1);
    rtc.tick_interrupt_enable(false);
    assert_eq!(rtc.regs.interrupt_ctrl, 1 << 2);
}
