//! Busy-wait timing derived from the CPU clock.
use vstd::prelude::*;
use crate::sysctl::{Sysctl, SYSCTL_REGS, clock, clock_get_freq, freq, freq_ok, FreqQuery};

verus! {

/// Timer ticks in `n` microseconds: the CPU clock over 62 is the tick rate.
pub open spec fn sleep_ticks(cpu_freq: int, n: int) -> int {
    (cpu_freq / 62) * n / 1_000_000
}

/// How many timer ticks a sleep of `n` microseconds waits.
pub fn usleep_ticks(s: &Sysctl, n: usize) -> (r: usize)
    requires
        s.regs@.len() == SYSCTL_REGS,
        freq_ok(s.regs@, FreqQuery::Clock(clock::CPU)),
        (freq(s.regs@, FreqQuery::Clock(clock::CPU)) / 62) * n <= usize::MAX,
    ensures
        r == sleep_ticks(freq(s.regs@, FreqQuery::Clock(clock::CPU)), n as int),
{
    let f = clock_get_freq(s, clock::CPU) as usize / 62;
    f * n / 1_000_000
}

} // verus!
