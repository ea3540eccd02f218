//! Real-time clock: calendar arithmetic, the RTC's date, time, alarm and
//! control registers, and the driver that keeps the last time and alarm set.
use vstd::prelude::*;
use crate::regfield::{with_field32, field32, flag32, set_field32, get_field32, bit32};
use crate::sysctl::{Sysctl, SYSCTL_REGS, clock, clock_enable, clock_get_freq, enabled, SYSCTRL_CLOCK_FREQ_IN0};

verus! {

/// Whether `year` is a leap year of the Gregorian calendar.
pub open spec fn leap(year: int) -> bool {
    (year % 4 == 0 && year % 100 != 0) || year % 400 == 0
}

/// Days in month `month` (0 for January) of a common year.
pub open spec fn common_month_days(month: int) -> int {
    if month == 1 {
        28
    } else if month == 3 || month == 5 || month == 8 || month == 10 {
        30
    } else {
        31
    }
}

/// The weekday formula of the driver, for a month counted from 0.
pub open spec fn weekday(year: int, month: int, day: int) -> int {
    let d = day + month;
    if d < 3 {
        (year - 1) % 7
    } else {
        let y = year - 2;
        (23 * month / 9 + d + 4 + y / 4 - y / 100 + y / 400) % 7
    }
}

/// The weekday formula can be computed without overflow or a negative year.
pub open spec fn weekday_computable(year: int, month: int, day: int) -> bool {
    &&& day + month <= usize::MAX
    &&& (day + month < 3 ==> year >= 1)
    &&& (day + month >= 3 ==> year >= 2 && 23 * month <= usize::MAX && 23 * month / 9 + day + month + 4 + (year - 2) / 4 + (year - 2)
        / 400 <= usize::MAX)
}

/// Days in a month of a common year, January first.
pub fn days_in_month(month: usize) -> (r: u8)
    requires
        month < 12,
    ensures
        r == common_month_days(month as int),
{
    match month {
        1 => 28,
        3 | 5 | 8 | 10 => 30,
        _ => 31,
    }
}

/// Whether `year` is a leap year.
pub fn is_leap_year(year: usize) -> (r: bool)
    ensures
        r == leap(year as int),
{
    (year % 4 == 0 && year % 100 != 0) || year % 400 == 0
}

/// Leap years from year 0 to the end of year `y`, by the Gregorian rule.
pub fn leaps_thru_end_of(y: usize) -> (r: usize)
    ensures
        r == y / 4 - y / 100 + y / 400,
{
    assert(y / 100 <= y / 4) by (nonlinear_arith);
    assert(y / 4 - y / 100 + y / 400 <= y) by (nonlinear_arith);
    y / 4 - y / 100 + y / 400
}

/// Days in month `month` (0 for January) of `year`.
pub fn rtc_month_days(month: usize, year: usize) -> (r: usize)
    requires
        month < 12,
    ensures
        r == common_month_days(month as int) + if leap(year as int) && month == 1 { 1int } else { 0int },
{
    let extra: usize = if is_leap_year(year) && month == 1 { 1 } else { 0 };
    days_in_month(month) as usize + extra
}

/// Day of the week for a date with the month counted from 0.
pub fn get_weekday(year: usize, month: usize, day: usize) -> (r: usize)
    requires
        weekday_computable(year as int, month as int, day as int),
    ensures
        r == weekday(year as int, month as int, day as int),
{
    let day = day + month;
    if day < 3 {
        let year = year - 1;
        year % 7
    } else {
        let year = year - 2;
        assert(year / 100 <= year / 4) by (nonlinear_arith);
        (23 * month / 9 + day + 4 + year / 4 - year / 100 + year / 400) % 7
    }
}

/// Mode of the RTC timer.
#[derive(Clone, Copy, Debug, PartialEq, Eq, Structural)]
pub enum TimerMode {
    RtcTimerPause,
    RtcTimerRunning,
    RtcTimerSetting,
    RtcTimerMax,
}

/// A broken-down time: year counted from 1900, month from 0.
#[derive(Clone, Copy, Debug, PartialEq, Eq, Structural)]
pub struct RtcTime {
    pub tm_sec: usize,
    pub tm_min: usize,
    pub tm_hour: usize,
    pub tm_mday: usize,
    pub tm_mon: usize,
    pub tm_year: usize,
    pub tm_wday: usize,
    pub tm_yday: usize,
    pub tm_isdst: isize,
}

/// A date and time `RtcTime::new` accepts: a month from 1 to 12, a year from
/// 1900, and a day for which the weekday and day-of-year sums fit.
pub open spec fn valid_date(year: int, month: int, day: int) -> bool {
    &&& 1 <= month <= 12
    &&& year >= 1900
    &&& weekday_computable(year, month - 1, day)
    &&& day + 31 <= usize::MAX
}

/// Whether `RtcTime::new` accepts a date (see `valid_date`).
pub fn valid_date_checked(year: usize, month: usize, day: usize) -> (r: bool)
    ensures
        r == valid_date(year as int, month as int, day as int),
{
    if month < 1 || month > 12 || year < 1900 {
        return false;
    }
    let m = (month - 1) as u128;
    let d = day as u128;
    let y = year as u128;
    let max = usize::MAX as u128;
    if d + m > max || d + 31 > max {
        return false;
    }
    if d + m < 3 {
        return true;
    }
    let yy = y - 2;
    23 * m / 9 + d + m + 4 + yy / 4 + yy / 400 <= max
}

/// The broken-down time of a calendar date and time.
pub open spec fn rtc_time(year: int, month: int, day: int, hour: int, minute: int, second: int) -> RtcTime {
    RtcTime {
        tm_sec: second as usize,
        tm_min: minute as usize,
        tm_hour: hour as usize,
        tm_mday: day as usize,
        tm_mon: (month - 1) as usize,
        tm_year: (year - 1900) as usize,
        tm_wday: weekday(year, month - 1, day) as usize,
        tm_yday: (common_month_days(month - 1) + (if leap(year) && month - 1 == 1 { 1int } else { 0int })
            + day) as usize,
        tm_isdst: -1isize,
    }
}

impl RtcTime {
    /// The broken-down time of a calendar date (month from 1) and time.
    pub fn new(year: usize, month: usize, day: usize, hour: usize, minute: usize, second: usize) -> (r: Self)
        requires
            valid_date(year as int, month as int, day as int),
        ensures
            r == rtc_time(year as int, month as int, day as int, hour as int, minute as int, second as int),
    {
        RtcTime {
            tm_sec: second,
            tm_min: minute,
            tm_hour: hour,
            tm_mday: day,
            tm_mon: month - 1,
            tm_year: year - 1900,
            tm_wday: get_weekday(year, month - 1, day),
            tm_yday: rtc_month_days(month - 1, year) + day,
            tm_isdst: -1,
        }
    }

    /// The time a driver starts with.
    pub open spec fn default_spec() -> Self {
        RtcTime {
            tm_sec: 10,
            tm_min: 20,
            tm_hour: 10,
            tm_mday: 10,
            tm_mon: 10,
            tm_year: 2000,
            tm_wday: 10,
            tm_yday: 10,
            tm_isdst: 0,
        }
    }

    /// The time a driver starts with.
    pub fn default() -> (r: Self)
        ensures
            r == Self::default_spec(),
    {
        RtcTime {
            tm_sec: 10,
            tm_min: 20,
            tm_hour: 10,
            tm_mday: 10,
            tm_mon: 10,
            tm_year: 2000,
            tm_wday: 10,
            tm_yday: 10,
            tm_isdst: 0,
        }
    }
}

/// A wake-up alarm: the time it is set to.
#[derive(Clone, Copy, Debug, PartialEq, Eq, Structural)]
pub struct RtcWkAlarm {
    pub time: RtcTime,
}

impl RtcWkAlarm {
    /// An alarm at a calendar date (month from 1) and time.
    pub fn new(year: usize, month: usize, day: usize, hour: usize, minute: usize, second: usize) -> (r: Self)
        requires
            valid_date(year as int, month as int, day as int),
        ensures
            r.time == rtc_time(year as int, month as int, day as int, hour as int, minute as int, second as int),
    {
        RtcWkAlarm { time: RtcTime::new(year, month, day, hour, minute, second) }
    }

    /// The alarm a driver starts with.
    pub fn default() -> (r: Self)
        ensures
            r.time == RtcTime::default_spec(),
    {
        RtcWkAlarm { time: RtcTime::default() }
    }
}

/// The RTC's registers.
#[derive(Clone, Copy, Debug, PartialEq, Eq, Structural)]
pub struct RtcRegs {
    pub date: u32,
    pub time: u32,
    pub alarm_date: u32,
    pub alarm_time: u32,
    pub initial_count: u32,
    pub current_count: u32,
    pub interrupt_ctrl: u32,
    pub register_ctrl: u32,
}

impl RtcRegs {
    /// The registers, all zero.
    pub fn new() -> (r: Self)
        ensures
            r == (RtcRegs {
                date: 0,
                time: 0,
                alarm_date: 0,
                alarm_time: 0,
                initial_count: 0,
                current_count: 0,
                interrupt_ctrl: 0,
                register_ctrl: 0,
            }),
    {
        RtcRegs {
            date: 0,
            time: 0,
            alarm_date: 0,
            alarm_time: 0,
            initial_count: 0,
            current_count: 0,
            interrupt_ctrl: 0,
            register_ctrl: 0,
        }
    }
}

/// A time register holding an hour, minute and second.
pub open spec fn time_word(v: u32, hour: u32, minute: u32, second: u32) -> u32 {
    with_field32(with_field32(with_field32(v, 10, 0x3f, second), 16, 0x3f, minute), 24, 0x1f, hour)
}

/// A date register holding a year, month, day and weekday.
pub open spec fn date_word(v: u32, year: u32, month: u32, day: u32, week: u32) -> u32 {
    with_field32(with_field32(with_field32(with_field32(v, 20, 0x0fff, year), 16, 0x0f, month), 8, 0x1f, day), 0, 0x07, week)
}

/// Register control word after a mode change: read enable (bit 0) and
/// write enable (bit 1) as the mode asks.
pub open spec fn mode_word(v: u32, mode: TimerMode) -> u32 {
    let (rd, wr) = match mode {
        TimerMode::RtcTimerRunning => (1u32, 0u32),
        TimerMode::RtcTimerSetting => (0u32, 1u32),
        _ => (0u32, 0u32),
    };
    with_field32(with_field32(v, 0, 0x01, rd), 1, 0x01, wr)
}

/// Set the time register: second, then minute, then hour, each cut to a
/// byte and then to its field.
pub fn set_time(regs: &mut RtcRegs, hour: usize, minute: usize, second: usize)
    ensures
        *final(regs) == (RtcRegs {
            time: time_word(old(regs).time, (hour as u8) as u32, (minute as u8) as u32, (second as u8) as u32),
            ..*old(regs)
        }),
{
    let v = set_field32(regs.time, 10, 0x3f, (second as u8) as u32);
    let v = set_field32(v, 16, 0x3f, (minute as u8) as u32);
    regs.time = set_field32(v, 24, 0x1f, (hour as u8) as u32);
}

/// Read the time register: hour, minute, second.
pub fn read_time(regs: &RtcRegs) -> (r: (u8, u8, u8))
    ensures
        r.0 as u32 == field32(regs.time, 24, 0x1f),
        r.1 as u32 == field32(regs.time, 16, 0x3f),
        r.2 as u32 == field32(regs.time, 10, 0x3f),
{
    let h = get_field32(regs.time, 24, 0x1f);
    let m = get_field32(regs.time, 16, 0x3f);
    let s = get_field32(regs.time, 10, 0x3f);
    (h as u8, m as u8, s as u8)
}

/// Set the date register: year, month, day, then weekday, each cut to its
/// integer type and then to its field.
pub fn set_date(regs: &mut RtcRegs, year: usize, month: usize, day: usize, week: usize)
    ensures
        *final(regs) == (RtcRegs {
            date: date_word(old(regs).date, (year as u16) as u32, (month as u8) as u32, (day as u8) as u32, (
            week as u8) as u32),
            ..*old(regs)
        }),
{
    let v = set_field32(regs.date, 20, 0x0fff, (year as u16) as u32);
    let v = set_field32(v, 16, 0x0f, (month as u8) as u32);
    let v = set_field32(v, 8, 0x1f, (day as u8) as u32);
    regs.date = set_field32(v, 0, 0x07, (week as u8) as u32);
}

/// Read the date register: year, month, day, weekday.
pub fn read_date(regs: &RtcRegs) -> (r: (usize, usize, usize, usize))
    ensures
        r.0 as u32 == field32(regs.date, 20, 0x0fff),
        r.1 as u32 == field32(regs.date, 16, 0x0f),
        r.2 as u32 == field32(regs.date, 8, 0x1f),
        r.3 as u32 == field32(regs.date, 0, 0x07),
{
    (
        get_field32(regs.date, 20, 0x0fff) as usize,
        get_field32(regs.date, 16, 0x0f) as usize,
        get_field32(regs.date, 8, 0x1f) as usize,
        get_field32(regs.date, 0, 0x07) as usize,
    )
}

/// Set the alarm time register: second, minute, then hour, each cut to 32
/// bits and then to its field.
pub fn set_alarm_time(regs: &mut RtcRegs, hour: usize, minute: usize, second: usize)
    ensures
        *final(regs) == (RtcRegs {
            alarm_time: time_word(old(regs).alarm_time, hour as u32, minute as u32, second as u32),
            ..*old(regs)
        }),
{
    let v = set_field32(regs.alarm_time, 10, 0x3f, second as u32);
    let v = set_field32(v, 16, 0x3f, minute as u32);
    regs.alarm_time = set_field32(v, 24, 0x1f, hour as u32);
}

/// Read the alarm time register: hour, minute, second.
pub fn read_alarm_time(regs: &RtcRegs) -> (r: (u8, u8, u8))
    ensures
        r.0 as u32 == field32(regs.alarm_time, 24, 0x1f),
        r.1 as u32 == field32(regs.alarm_time, 16, 0x3f),
        r.2 as u32 == field32(regs.alarm_time, 10, 0x3f),
{
    let h = get_field32(regs.alarm_time, 24, 0x1f);
    let m = get_field32(regs.alarm_time, 16, 0x3f);
    let s = get_field32(regs.alarm_time, 10, 0x3f);
    (h as u8, m as u8, s as u8)
}

/// Set the alarm date register, as `set_date` does the date register.
pub fn set_alarm_date(regs: &mut RtcRegs, year: usize, month: usize, day: usize, week: usize)
    ensures
        *final(regs) == (RtcRegs {
            alarm_date: date_word(old(regs).alarm_date, (year as u16) as u32, (month as u8) as u32, (day as u8) as u32,
            (week as u8) as u32),
            ..*old(regs)
        }),
{
    let v = set_field32(regs.alarm_date, 20, 0x0fff, (year as u16) as u32);
    let v = set_field32(v, 16, 0x0f, (month as u8) as u32);
    let v = set_field32(v, 8, 0x1f, (day as u8) as u32);
    regs.alarm_date = set_field32(v, 0, 0x07, (week as u8) as u32);
}

/// Read the alarm date register: year, month, day, and as weekday the
/// field at bits 8..13, which is the day again.
pub fn read_alarm_date(regs: &RtcRegs) -> (r: (usize, usize, usize, usize))
    ensures
        r.0 as u32 == field32(regs.alarm_date, 20, 0x0fff),
        r.1 as u32 == field32(regs.alarm_date, 16, 0x0f),
        r.2 as u32 == field32(regs.alarm_date, 8, 0x1f),
        r.3 as u32 == field32(regs.alarm_date, 8, 0x1f),
{
    (
        get_field32(regs.alarm_date, 20, 0x0fff) as usize,
        get_field32(regs.alarm_date, 16, 0x0f) as usize,
        get_field32(regs.alarm_date, 8, 0x1f) as usize,
        get_field32(regs.alarm_date, 8, 0x1f) as usize,
    )
}

/// Enable or disable reading the timer (register control bit 0).
pub fn write_read_enable(regs: &mut RtcRegs, value: bool)
    ensures
        *final(regs) == (RtcRegs {
            register_ctrl: with_field32(old(regs).register_ctrl, 0, 0x01, flag32(value)),
            ..*old(regs)
        }),
{
    regs.register_ctrl = set_field32(regs.register_ctrl, 0, 0x01, bit32(value));
}

/// Enable or disable writing the timer (register control bit 1).
pub fn write_write_enable(regs: &mut RtcRegs, value: bool)
    ensures
        *final(regs) == (RtcRegs {
            register_ctrl: with_field32(old(regs).register_ctrl, 1, 0x01, flag32(value)),
            ..*old(regs)
        }),
{
    regs.register_ctrl = set_field32(regs.register_ctrl, 1, 0x01, bit32(value));
}

/// Set the timer write mask (register control bits 13..21).
pub fn write_timer_mask(regs: &mut RtcRegs, value: u8)
    ensures
        *final(regs) == (RtcRegs {
            register_ctrl: with_field32(old(regs).register_ctrl, 13, 0xff, value as u32),
            ..*old(regs)
        }),
{
    regs.register_ctrl = set_field32(regs.register_ctrl, 13, 0xff, value as u32);
}

/// Set the alarm write mask (register control bits 21..29).
pub fn write_alarm_mask(regs: &mut RtcRegs, value: u8)
    ensures
        *final(regs) == (RtcRegs {
            register_ctrl: with_field32(old(regs).register_ctrl, 21, 0xff, value as u32),
            ..*old(regs)
        }),
{
    regs.register_ctrl = set_field32(regs.register_ctrl, 21, 0xff, value as u32);
}

/// Set the initial count write mask (register control bit 29).
pub fn write_initial_count_mask(regs: &mut RtcRegs, value: bool)
    ensures
        *final(regs) == (RtcRegs {
            register_ctrl: with_field32(old(regs).register_ctrl, 29, 0x01, flag32(value)),
            ..*old(regs)
        }),
{
    regs.register_ctrl = set_field32(regs.register_ctrl, 29, 0x01, bit32(value));
}

/// Set the interrupt register write mask (register control bit 30).
pub fn interrupt_register_mask(regs: &mut RtcRegs, value: bool)
    ensures
        *final(regs) == (RtcRegs {
            register_ctrl: with_field32(old(regs).register_ctrl, 30, 0x01, flag32(value)),
            ..*old(regs)
        }),
{
    regs.register_ctrl = set_field32(regs.register_ctrl, 30, 0x01, bit32(value));
}

/// Set the timer's initial count: its input clock's frequency.
pub fn write_initial_count(regs: &mut RtcRegs, count: u32)
    ensures
        *final(regs) == (RtcRegs { initial_count: count, ..*old(regs) }),
{
    let v = regs.initial_count;
    let w = (v & !0xffff_ffffu32) | (count & 0xffff_ffff);
    assert(w == count) by (bit_vector)
        requires
            w == (v & !0xffff_ffffu32) | (count & 0xffff_ffff),
    ;
    regs.initial_count = w;
}

/// Set the timer's current count.
pub fn write_current_count(regs: &mut RtcRegs, count: u32)
    ensures
        *final(regs) == (RtcRegs { current_count: count, ..*old(regs) }),
{
    let v = regs.current_count;
    let w = (v & !0xffff_ffffu32) | (count & 0xffff_ffff);
    assert(w == count) by (bit_vector)
        requires
            w == (v & !0xffff_ffffu32) | (count & 0xffff_ffff),
    ;
    regs.current_count = w;
}

/// Put the timer in a mode: running reads, setting writes, pause and the
/// rest do neither. The hardware needs one timer cycle after the change
/// before the next access.
pub fn rtc_timer_set_mode(regs: &mut RtcRegs, mode: TimerMode)
    ensures
        *final(regs) == (RtcRegs { register_ctrl: mode_word(old(regs).register_ctrl, mode), ..*old(regs) }),
{
    match mode {
        TimerMode::RtcTimerPause => {
            write_read_enable(regs, false);
            write_write_enable(regs, false);
        },
        TimerMode::RtcTimerRunning => {
            write_read_enable(regs, true);
            write_write_enable(regs, false);
        },
        TimerMode::RtcTimerSetting => {
            write_read_enable(regs, false);
            write_write_enable(regs, true);
        },
        _ => {
            write_read_enable(regs, false);
            write_write_enable(regs, false);
        },
    }
}

/// Enable or disable the tick interrupt (interrupt control bit 0).
pub fn write_tick_enable(regs: &mut RtcRegs, value: bool)
    ensures
        *final(regs) == (RtcRegs {
            interrupt_ctrl: with_field32(old(regs).interrupt_ctrl, 0, 0x01, flag32(value)),
            ..*old(regs)
        }),
{
    regs.interrupt_ctrl = set_field32(regs.interrupt_ctrl, 0, 0x01, bit32(value));
}

/// Enable or disable the alarm interrupt (interrupt control bit 1).
fn write_alarm_enable(regs: &mut RtcRegs, value: bool)
    ensures
        *final(regs) == (RtcRegs {
            interrupt_ctrl: with_field32(old(regs).interrupt_ctrl, 1, 0x01, flag32(value)),
            ..*old(regs)
        }),
{
    regs.interrupt_ctrl = set_field32(regs.interrupt_ctrl, 1, 0x01, bit32(value));
}

/// Set the tick interrupt period (interrupt control bits 2..4): 0 a second,
/// 1 a minute, 2 an hour, 3 a day.
fn write_tick_interrupt_mode(regs: &mut RtcRegs, value: u8)
    ensures
        *final(regs) == (RtcRegs {
            interrupt_ctrl: with_field32(old(regs).interrupt_ctrl, 2, 0x03, value as u32),
            ..*old(regs)
        }),
{
    regs.interrupt_ctrl = set_field32(regs.interrupt_ctrl, 2, 0x03, value as u32);
}

/// Interrupt control word after registering the tick interrupt with a period.
pub open spec fn tick_irq_word(v: u32, mode: u8) -> u32 {
    with_field32(with_field32(with_field32(v, 0, 0x01, 0), 2, 0x03, mode as u32), 0, 0x01, 1)
}

/// Interrupt control word after registering the alarm interrupt.
pub open spec fn alarm_irq_word(v: u32, mode: u8) -> u32 {
    with_field32(
        with_field32(
            with_field32(with_field32(with_field32(v, 0, 0x01, 0), 1, 0x01, 0), 2, 0x03, mode as u32),
            0,
            0x01,
            1,
        ),
        1,
        0x01,
        1,
    )
}

/// Register the tick interrupt: disable it, set its period, enable it.
pub fn rtc_tick_irq_register(regs: &mut RtcRegs, mode: u8)
    ensures
        *final(regs) == (RtcRegs { interrupt_ctrl: tick_irq_word(old(regs).interrupt_ctrl, mode), ..*old(regs) }),
{
    write_tick_enable(regs, false);
    write_tick_interrupt_mode(regs, mode);
    write_tick_enable(regs, true);
}

/// Register the alarm interrupt: disable tick and alarm, set the period,
/// enable tick and alarm.
pub fn rtc_alarm_irq_register(regs: &mut RtcRegs, mode: u8)
    ensures
        *final(regs) == (RtcRegs { interrupt_ctrl: alarm_irq_word(old(regs).interrupt_ctrl, mode), ..*old(regs) }),
{
    write_tick_enable(regs, false);
    write_alarm_enable(regs, false);
    write_tick_interrupt_mode(regs, mode);
    write_tick_enable(regs, true);
    write_alarm_enable(regs, true);
}


/// The RTC driver: the time and alarm last set, and the device registers.
pub struct Rtc {
    pub time: RtcTime,
    pub alarm: RtcWkAlarm,
    pub regs: RtcRegs,
}

/// The date `read_date` gives for a broken-down time: year, month from 1, day.
pub open spec fn date_of(t: RtcTime) -> (int, int, int) {
    (t.tm_year + 1900, t.tm_mon + 1, t.tm_mday as int)
}

/// The time `read_time` gives for a broken-down time: hour, minute, second.
pub open spec fn time_of(t: RtcTime) -> (int, int, int) {
    (t.tm_hour as int, t.tm_min as int, t.tm_sec as int)
}

impl Rtc {
    /// A driver holding the default time and alarm, over zeroed registers.
    pub fn new() -> (r: Self)
        ensures
            r.time == RtcTime::default_spec(),
            r.alarm.time == RtcTime::default_spec(),
            r.regs == (RtcRegs {
                date: 0,
                time: 0,
                alarm_date: 0,
                alarm_time: 0,
                initial_count: 0,
                current_count: 0,
                interrupt_ctrl: 0,
                register_ctrl: 0,
            }),
    {
        Rtc { time: RtcTime::default(), alarm: RtcWkAlarm::default(), regs: RtcRegs::new() }
    }

    /// Set up a freshly reset RTC: enable its clock, open the alarm and timer
    /// write masks (all but bit 0), the initial count and interrupt register
    /// masks, and count the IN0 clock. Putting the timer in setting mode,
    /// writing the current count, and back to running follow, each mode
    /// change with its timer-cycle wait.
    pub fn init(&mut self, sysctl: &mut Sysctl)
        requires
            old(sysctl).regs@.len() == SYSCTL_REGS,
        ensures
            final(sysctl).regs@ == enabled(old(sysctl).regs@, clock::RTC),
            final(self).time == old(self).time,
            final(self).alarm == old(self).alarm,
            final(self).regs == (RtcRegs {
                register_ctrl: with_field32(
                    with_field32(
                        with_field32(with_field32(old(self).regs.register_ctrl, 21, 0xff, 0xfe), 13, 0xff, 0xfe),
                        29,
                        0x01,
                        1,
                    ),
                    30,
                    0x01,
                    1,
                ),
                initial_count: SYSCTRL_CLOCK_FREQ_IN0,
                ..old(self).regs
            }),
    {
        clock_enable(sysctl, clock::RTC);
        write_alarm_mask(&mut self.regs, 0xfe);
        write_timer_mask(&mut self.regs, 0xfe);
        write_initial_count_mask(&mut self.regs, true);
        interrupt_register_mask(&mut self.regs, true);
        proof {
            crate::sysctl::lemma_in0_freq(sysctl.regs@);
        }
        let f = clock_get_freq(sysctl, clock::IN0);
        write_initial_count(&mut self.regs, f);
    }

    /// Put the timer in a mode (the device then needs a timer cycle).
    pub fn set_mode(&mut self, mode: TimerMode)
        ensures
            final(self).time == old(self).time,
            final(self).alarm == old(self).alarm,
            final(self).regs == (RtcRegs { register_ctrl: mode_word(old(self).regs.register_ctrl, mode), ..old(self).regs }),
    {
        rtc_timer_set_mode(&mut self.regs, mode);
    }

    /// The date last set: year, month from 1, day.
    pub fn read_date(&self) -> (r: (usize, usize, usize))
        requires
            self.time.tm_year + 1900 <= usize::MAX,
            self.time.tm_mon + 1 <= usize::MAX,
        ensures
            (r.0 as int, r.1 as int, r.2 as int) == date_of(self.time),
    {
        (self.time.tm_year + 1900, self.time.tm_mon + 1, self.time.tm_mday)
    }

    /// The time last set: hour, minute, second.
    pub fn read_time(&self) -> (r: (usize, usize, usize))
        ensures
            (r.0 as int, r.1 as int, r.2 as int) == time_of(self.time),
    {
        (self.time.tm_hour, self.time.tm_min, self.time.tm_sec)
    }

    /// Set the date and time (month from 1), with the timer in setting mode:
    /// the time register takes hour, minute and second; the date register
    /// the year since 1900, the month from 0, the day and the weekday; the
    /// driver keeps the broken-down time.
    pub fn timer_set(&mut self, year: usize, month: usize, day: usize, hour: usize, minute: usize, second: usize)
        requires
            valid_date(year as int, month as int, day as int),
        ensures
            ({
                let tm = rtc_time(year as int, month as int, day as int, hour as int, minute as int, second as int);
                &&& final(self).time == tm
                &&& final(self).alarm == old(self).alarm
                &&& final(self).regs == (RtcRegs {
                    time: time_word(old(self).regs.time, (hour as u8) as u32, (minute as u8) as u32, (second as u8) as u32),
                    date: date_word(old(self).regs.date, (tm.tm_year as u16) as u32, (tm.tm_mon as u8) as u32, (
                    tm.tm_mday as u8) as u32, (tm.tm_wday as u8) as u32),
                    ..old(self).regs
                })
            }),
    {
        let tm = RtcTime::new(year, month, day, hour, minute, second);
        set_time(&mut self.regs, tm.tm_hour, tm.tm_min, tm.tm_sec);
        set_date(&mut self.regs, tm.tm_year, tm.tm_mon, tm.tm_mday, tm.tm_wday);
        self.time = tm;
    }

    /// The alarm's date: year, month from 1, day.
    pub fn read_alarm_date(&self) -> (r: (usize, usize, usize))
        requires
            self.alarm.time.tm_year + 1900 <= usize::MAX,
            self.alarm.time.tm_mon + 1 <= usize::MAX,
        ensures
            (r.0 as int, r.1 as int, r.2 as int) == date_of(self.alarm.time),
    {
        (self.alarm.time.tm_year + 1900, self.alarm.time.tm_mon + 1, self.alarm.time.tm_mday)
    }

    /// The alarm's time: hour, minute, second.
    pub fn read_alarm_time(&mut self) -> (r: (usize, usize, usize))
        ensures
            *final(self) == *old(self),
            (r.0 as int, r.1 as int, r.2 as int) == time_of(old(self).alarm.time),
    {
        (self.alarm.time.tm_hour, self.alarm.time.tm_min, self.alarm.time.tm_sec)
    }

    /// Set the alarm (month from 1): the alarm time and date registers, as
    /// for `timer_set`, and the alarm the driver keeps.
    pub fn set_alarm(&mut self, year: usize, month: usize, day: usize, hour: usize, minute: usize, second: usize)
        requires
            valid_date(year as int, month as int, day as int),
        ensures
            ({
                let tm = rtc_time(year as int, month as int, day as int, hour as int, minute as int, second as int);
                &&& final(self).alarm.time == tm
                &&& final(self).time == old(self).time
                &&& final(self).regs == (RtcRegs {
                    alarm_time: time_word(old(self).regs.alarm_time, hour as u32, minute as u32, second as u32),
                    alarm_date: date_word(old(self).regs.alarm_date, (tm.tm_year as u16) as u32, (tm.tm_mon as u8) as u32,
                    (tm.tm_mday as u8) as u32, (tm.tm_wday as u8) as u32),
                    ..old(self).regs
                })
            }),
    {
        let tm = RtcWkAlarm::new(year, month, day, hour, minute, second);
        set_alarm_time(&mut self.regs, tm.time.tm_hour, tm.time.tm_min, tm.time.tm_sec);
        set_alarm_date(&mut self.regs, tm.time.tm_year, tm.time.tm_mon, tm.time.tm_mday, tm.time.tm_wday);
        self.alarm = tm;
    }

    /// Register the tick interrupt with a period.
    pub fn irq_register(&mut self, mode: u8)
        ensures
            final(self).time == old(self).time,
            final(self).alarm == old(self).alarm,
            final(self).regs == (RtcRegs { interrupt_ctrl: tick_irq_word(old(self).regs.interrupt_ctrl, mode), ..old(self).regs }),
    {
        rtc_tick_irq_register(&mut self.regs, mode);
    }

    /// Enable or disable the tick interrupt.
    pub fn tick_interrupt_enable(&mut self, enable: bool)
        ensures
            final(self).time == old(self).time,
            final(self).alarm == old(self).alarm,
            final(self).regs == (RtcRegs {
                interrupt_ctrl: with_field32(old(self).regs.interrupt_ctrl, 0, 0x01, flag32(enable)),
                ..old(self).regs
            }),
    {
        write_tick_enable(&mut self.regs, enable);
    }
}

/// Law: reading back after setting the time gives the date and time set.
pub proof fn law_timer_set_read_back(year: usize, month: usize, day: usize, hour: usize, minute: usize, second: usize)
    requires
        valid_date(year as int, month as int, day as int),
    ensures
        ({
            let tm = rtc_time(year as int, month as int, day as int, hour as int, minute as int, second as int);
            &&& date_of(tm) == (year as int, month as int, day as int)
            &&& time_of(tm) == (hour as int, minute as int, second as int)
        }),
{
}

/// Law: the time register gives back an hour, minute and second that fit
/// their fields.
pub proof fn law_time_register_read_back(v: u32, hour: u32, minute: u32, second: u32)
    requires
        hour < 32,
        minute < 64,
        second < 64,
    ensures
        field32(time_word(v, hour, minute, second), 24, 0x1f) == hour,
        field32(time_word(v, hour, minute, second), 16, 0x3f) == minute,
        field32(time_word(v, hour, minute, second), 10, 0x3f) == second,
{
    let w1 = with_field32(v, 10, 0x3f, second);
    let w2 = with_field32(w1, 16, 0x3f, minute);
    let w3 = with_field32(w2, 24, 0x1f, hour);
    assert(((w3 >> 24u32) & 0x1fu32) == hour && ((w3 >> 16u32) & 0x3fu32) == minute && ((w3 >> 10u32) & 0x3fu32)
        == second) by (bit_vector)
        requires
            hour < 32,
            minute < 64,
            second < 64,
            w1 == (v & !(0x3fu32 << 10u32)) | ((second & 0x3fu32) << 10u32),
            w2 == (w1 & !(0x3fu32 << 16u32)) | ((minute & 0x3fu32) << 16u32),
            w3 == (w2 & !(0x1fu32 << 24u32)) | ((hour & 0x1fu32) << 24u32),
    ;
}

/// Law: the date register gives back a year, month, day and weekday that
/// fit their fields.
pub proof fn law_date_register_read_back(v: u32, year: u32, month: u32, day: u32, week: u32)
    requires
        year < 4096,
        month < 16,
        day < 32,
        week < 8,
    ensures
        field32(date_word(v, year, month, day, week), 20, 0x0fff) == year,
        field32(date_word(v, year, month, day, week), 16, 0x0f) == month,
        field32(date_word(v, year, month, day, week), 8, 0x1f) == day,
        field32(date_word(v, year, month, day, week), 0, 0x07) == week,
{
    let w1 = with_field32(v, 20, 0x0fff, year);
    let w2 = with_field32(w1, 16, 0x0f, month);
    let w3 = with_field32(w2, 8, 0x1f, day);
    let w4 = with_field32(w3, 0, 0x07, week);
    assert(((w4 >> 20u32) & 0x0fffu32) == year && ((w4 >> 16u32) & 0x0fu32) == month && ((w4 >> 8u32) & 0x1fu32)
        == day && ((w4 >> 0u32) & 0x07u32) == week) by (bit_vector)
        requires
            year < 4096,
            month < 16,
            day < 32,
            week < 8,
            w1 == (v & !(0x0fffu32 << 20u32)) | ((year & 0x0fffu32) << 20u32),
            w2 == (w1 & !(0x0fu32 << 16u32)) | ((month & 0x0fu32) << 16u32),
            w3 == (w2 & !(0x1fu32 << 8u32)) | ((day & 0x1fu32) << 8u32),
            w4 == (w3 & !(0x07u32 << 0u32)) | ((week & 0x07u32) << 0u32),
    ;
}


/// Dividing the next number by `k` gives one more exactly when it is a
/// multiple of `k`.
proof fn lemma_div_next(y: int, k: int)
    requires
        y >= 0,
        k > 0,
    ensures
        (y + 1) / k == y / k + (if (y + 1) % k == 0 { 1int } else { 0int }),
{
    vstd::arithmetic::div_mod::lemma_fundamental_div_mod(y, k);
    vstd::arithmetic::div_mod::lemma_mod_pos_bound(y, k);
    let q = y / k;
    let r = y % k;
    assert(y == q * k + r) by (nonlinear_arith)
        requires
            y == k * q + r,
    ;
    assert((q + 1) * k == q * k + k) by (nonlinear_arith);
    if r == k - 1 {
        vstd::arithmetic::div_mod::lemma_fundamental_div_mod_converse(y + 1, k, q + 1, 0);
    } else {
        vstd::arithmetic::div_mod::lemma_fundamental_div_mod_converse(y + 1, k, q, r + 1);
    }
}

/// Law: past the first days of the year (where the day plus the month is at
/// least 3), the next day of the same month falls one weekday later.
pub proof fn law_weekday_next_day(year: int, month: int, day: int)
    requires
        year >= 2,
        day + month >= 3,
    ensures
        weekday(year, month, day + 1) == (weekday(year, month, day) + 1) % 7,
{
    let y = year - 2;
    let s = 23 * month / 9 + (day + month) + 4 + y / 4 - y / 100 + y / 400;
    vstd::arithmetic::div_mod::lemma_add_mod_noop(s, 1, 7);
    assert(1int % 7 == 1);
}

/// Law: past the first days of the year, the same date a year later falls on
/// the same weekday, or one weekday later when the year before `year` is a
/// leap year.
pub proof fn law_weekday_next_year(year: int, month: int, day: int)
    requires
        year >= 2,
        day + month >= 3,
    ensures
        weekday(year + 1, month, day) == (weekday(year, month, day) + (if leap(year - 1) { 1int } else { 0int })) % 7,
{
    let y = year - 2;
    lemma_div_next(y, 4);
    lemma_div_next(y, 100);
    lemma_div_next(y, 400);
    let l: int = if leap(year - 1) { 1 } else { 0 };
    let s = 23 * month / 9 + (day + month) + 4 + y / 4 - y / 100 + y / 400;
    let s1 = 23 * month / 9 + (day + month) + 4 + (y + 1) / 4 - (y + 1) / 100 + (y + 1) / 400;
    assert((y + 1) % 100 == 0 ==> (y + 1) % 4 == 0) by {
        vstd::arithmetic::div_mod::lemma_fundamental_div_mod(y + 1, 100);
        if (y + 1) % 100 == 0 {
            vstd::arithmetic::div_mod::lemma_fundamental_div_mod_converse(y + 1, 4, 25 * ((y + 1) / 100), 0);
        }
    }
    assert((y + 1) % 400 == 0 ==> (y + 1) % 100 == 0) by {
        vstd::arithmetic::div_mod::lemma_fundamental_div_mod(y + 1, 400);
        if (y + 1) % 400 == 0 {
            vstd::arithmetic::div_mod::lemma_fundamental_div_mod_converse(y + 1, 100, 4 * ((y + 1) / 400), 0);
        }
    }
    assert(s1 == s + l);
    vstd::arithmetic::div_mod::lemma_add_mod_noop(s, l, 7);
    assert(l % 7 == l);
}

/// Law: the first days of a year (where the day plus the month is below 3)
/// all fall on one weekday, and a year later on the next weekday.
pub proof fn law_weekday_first_days(year: int, month: int, day: int, month2: int, day2: int)
    requires
        year >= 1,
        day + month < 3,
        day2 + month2 < 3,
    ensures
        weekday(year, month, day) == weekday(year, month2, day2),
        weekday(year + 1, month, day) == (weekday(year, month, day) + 1) % 7,
{
    vstd::arithmetic::div_mod::lemma_add_mod_noop(year - 1, 1, 7);
    assert(1int % 7 == 1);
}

/// Law: the first days of 2023 fall on weekday 6.
pub proof fn law_weekday_first_days_reference()
    ensures
        weekday(2023, 0, 1) == 6,
{
    assert(2022int % 7 == 6) by (nonlinear_arith);
}

/// Law: 27 May 2022 (month 4 counted from 0) falls on weekday 3; with the two
/// laws above this fixes the weekday of every date past the first days of a
/// year.
pub proof fn law_weekday_reference()
    ensures
        weekday(2022, 4, 27) == 3,
{
    assert(23 * 4 / 9 == 10int) by (nonlinear_arith);
    assert(2020int / 4 == 505 && 2020int / 100 == 20 && 2020int / 400 == 5) by (nonlinear_arith);
    assert(535int % 7 == 3) by (nonlinear_arith);
}

} // verus!
