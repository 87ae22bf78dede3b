//! The instant clock: timer 2 counting the bus clock divided by 16, widened by counting its
//! overflows.
use vstd::prelude::*;

verus! {

/// Length of one instant-clock tick in femtoseconds: 16 cycles of the 147.456 MHz bus clock,
/// about 108.5 ns.
pub const FS_PER_INSTANT_CLOCK_TICK: u64 = 108_506_944;

/// Femtoseconds in a nanosecond.
pub const FS_PER_NANOSECOND: u64 = 1_000_000;

/// The timer-2 mode word that starts the instant clock: bus clock / 16 (bits 0-1), counting
/// (bit 7), overflow interrupts (bit 9), overflow flag cleared (bit 11).
pub const INSTANT_CLOCK_TIMER_MODE: u32 = 0xA81;

/// The timestamp made of the overflow count `upper` and the 16-bit counter value `lower`.
pub open spec fn spec_clock_timestamp(upper: u32, lower: u32) -> u64 {
    ((upper as u64) * 0x1_0000) as u64 | (lower as u64)
}

pub fn clock_timestamp(upper: u32, lower: u32) -> (t: u64)
    ensures
        t == spec_clock_timestamp(upper, lower),
        lower < 0x1_0000 ==> t == upper * 0x1_0000 + lower,
{
    assert(((upper as u64) << 16u64) == ((upper as u64) * 0x1_0000) as u64 && (lower < 0x1_0000
        ==> (((upper as u64) * 0x1_0000) as u64 | (lower as u64)) == upper * 0x1_0000 + lower))
        by (bit_vector);
    ((upper as u64) << 16) | (lower as u64)
}

/// The timestamp from a reading of the clock: the overflow count, the counter, the overflow
/// count again and, if the two overflow counts differ (an overflow came between the reads), the
/// counter read again after the second.
pub fn read_clock_timestamp(upper: u32, lower: u32, second_upper: u32, lower_again: u32) -> (t: u64)
    ensures
        t == if upper == second_upper {
            spec_clock_timestamp(upper, lower)
        } else {
            spec_clock_timestamp(second_upper, lower_again)
        },
{
    if upper != second_upper {
        clock_timestamp(second_upper, lower_again)
    } else {
        clock_timestamp(upper, lower)
    }
}

/// A point in time, in instant-clock ticks.
#[derive(Clone, Copy, Debug)]
pub struct Instant {
    timestamp: u64,
}

/// A span of time, in whole nanoseconds.
#[derive(Clone, Copy, Debug)]
pub struct Duration {
    nanoseconds: u64,
}

impl Instant {
    pub closed spec fn spec_timestamp(self) -> u64 {
        self.timestamp
    }

    pub fn from_timestamp(timestamp: u64) -> (i: Self)
        ensures
            i.spec_timestamp() == timestamp,
    {
        Instant { timestamp }
    }

    pub fn timestamp(&self) -> (t: u64)
        ensures
            t == self.spec_timestamp(),
    {
        self.timestamp
    }

    /// The ticks from `earlier` to `self` (none if `earlier` is later).
    pub open spec fn spec_ticks_since(self, earlier: Instant) -> nat {
        if self.spec_timestamp() >= earlier.spec_timestamp() {
            (self.spec_timestamp() - earlier.spec_timestamp()) as nat
        } else {
            0
        }
    }

    /// The time from `earlier` to `self`, rounded down to whole nanoseconds; zero if `earlier` is
    /// later.
    pub fn duration_since(self, earlier: Instant) -> (d: Duration)
        requires
            self.spec_ticks_since(earlier) * FS_PER_INSTANT_CLOCK_TICK <= u64::MAX,
        ensures
            d.spec_nanoseconds() == self.spec_ticks_since(earlier) * FS_PER_INSTANT_CLOCK_TICK
                / FS_PER_NANOSECOND as int,
    {
        let diff = self.timestamp.saturating_sub(earlier.timestamp);
        Duration { nanoseconds: diff * FS_PER_INSTANT_CLOCK_TICK / FS_PER_NANOSECOND }
    }
}

impl Duration {
    pub closed spec fn spec_nanoseconds(self) -> u64 {
        self.nanoseconds
    }

    pub fn from_nanoseconds(nanoseconds: u64) -> (d: Self)
        ensures
            d.spec_nanoseconds() == nanoseconds,
    {
        Duration { nanoseconds }
    }

    pub fn nanoseconds(&self) -> (n: u64)
        ensures
            n == self.spec_nanoseconds(),
    {
        self.nanoseconds
    }
}

} // verus!
