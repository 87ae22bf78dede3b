//! The day-night cycle: how far into night the sky is at a given time of day.
use vstd::prelude::*;

verus! {

/// Ticks in a day.
pub const DAY_LENGTH_TICKS: u64 = 24000;

/// Ticks the sky takes to darken at dusk or to brighten at dawn.
pub const TWILIGHT_TICKS: u32 = 1870;

/// How far into night the sky is at tick `t` of the day, as a fraction `numerator / denominator`:
/// 0 by day (ticks 730 to 11270), rising evenly to 1 at dusk (to 13140), 1 by night (to 22860),
/// and falling evenly back to 0 at dawn (to 24730, that is tick 730 of the next day).
pub open spec fn spec_night_fraction(t: int) -> (int, int) {
    if 730 <= t < 11270 {
        (0, 1)
    } else if 11270 <= t < 13140 {
        (t - 11270, TWILIGHT_TICKS as int)
    } else if 13140 <= t < 22860 {
        (1, 1)
    } else {
        let adjusted = if t < 730 {
            t + 24000
        } else {
            t
        };
        (TWILIGHT_TICKS - (adjusted - 22860), TWILIGHT_TICKS as int)
    }
}

/// How far into night the sky is at `time_of_day` (in ticks, any number of days), as a
/// fraction.
pub fn night_fraction(time_of_day: u64) -> (r: (u32, u32))
    ensures
        (r.0 as int, r.1 as int) == spec_night_fraction((time_of_day % DAY_LENGTH_TICKS) as int),
        r.1 > 0,
        r.0 <= r.1,
{
    let t = time_of_day % DAY_LENGTH_TICKS;
    if 730 <= t && t < 11270 {
        (0, 1)
    } else if 11270 <= t && t < 13140 {
        ((t - 11270) as u32, TWILIGHT_TICKS)
    } else if 13140 <= t && t < 22860 {
        (1, 1)
    } else {
        let adjusted = if t < 730 {
            t + 24000
        } else {
            t
        };
        (TWILIGHT_TICKS - (adjusted - 22860) as u32, TWILIGHT_TICKS)
    }
}

/// Dusk and dawn join the day and the night without a jump.
pub proof fn lemma_night_fraction_continuous()
    ensures
        spec_night_fraction(11270) == (0int, TWILIGHT_TICKS as int),
        spec_night_fraction(13139).0 + 1 == TWILIGHT_TICKS,
        spec_night_fraction(22860) == (TWILIGHT_TICKS as int, TWILIGHT_TICKS as int),
        spec_night_fraction(729).0 == 1,
{
}

} // verus!
