//! MinCycleTime of the device (Table B.3): the configured cycle time, held
//! in tenths of a millisecond, and its encoding as time base and multiplier.
use vstd::prelude::*;
use crate::page1::CycleTime;

verus! {

/// Configured minimum cycle time, in units of 0.1 ms (33.0 ms).
pub const MIN_CYCLE_TIME_TENTHS_OF_MS: u16 = 330;

/// The cycle time lies in one of the three encodable ranges of Table B.3:
/// 0.4-6.3 ms, 6.4-31.6 ms or 32.0-132.8 ms.
pub open spec fn is_valid_cycle_time(t: u16) -> bool {
    (4 <= t <= 63) || (64 <= t <= 316) || (320 <= t <= 1328)
}

/// The time base that Table B.3 assigns to a cycle time.
pub open spec fn time_base_for(t: u16) -> u8 {
    if t <= 63 {
        0
    } else if t <= 316 {
        1
    } else {
        2
    }
}

/// Offset of a time base range, in tenths of a millisecond.
pub open spec fn time_base_offset(time_base: u8) -> int {
    if time_base == 0 {
        0
    } else if time_base == 1 {
        64
    } else {
        320
    }
}

/// Step of a time base, in tenths of a millisecond.
pub open spec fn time_base_step(time_base: u8) -> int {
    if time_base == 0 {
        1
    } else if time_base == 1 {
        4
    } else {
        16
    }
}

/// The cycle time that an encoded value stands for, in tenths of a millisecond.
pub open spec fn cycle_time_tenths(c: CycleTime) -> int {
    time_base_offset(c.time_base) + time_base_step(c.time_base) * c.multiplier
}

/// The encoding of a valid cycle time: its time base, and the multiplier
/// nearest to it (a value halfway between two steps is rounded up).
pub open spec fn spec_encode_cycle_time(t: u16) -> CycleTime {
    let tb = time_base_for(t);
    let step = time_base_step(tb);
    CycleTime {
        time_base: tb,
        multiplier: ((t - time_base_offset(tb) + step / 2) / step) as u8,
    }
}

/// The time base of a cycle time given in tenths of a millisecond: 0 for
/// 0.4-6.3 ms, 1 for 6.4-31.6 ms, 2 for 32.0-132.8 ms.
pub fn time_base(t: u16) -> (r: u8)
    requires
        is_valid_cycle_time(t),
    ensures
        r == time_base_for(t),
{
    if t <= 63 {
        0
    } else if t <= 316 {
        1
    } else {
        2
    }
}

/// The multiplier of a cycle time given in tenths of a millisecond: the
/// number of steps of its time base above the start of its range, rounded
/// to the nearest (halfway rounds up); it fits in six bits.
pub fn multiplier(t: u16) -> (r: u8)
    requires
        is_valid_cycle_time(t),
    ensures
        r == spec_encode_cycle_time(t).multiplier,
        r < 64,
        ({
            let c = CycleTime { time_base: time_base_for(t), multiplier: r };
            &&& 2 * (cycle_time_tenths(c) - t) <= time_base_step(c.time_base)
            &&& 2 * (t - cycle_time_tenths(c)) < time_base_step(c.time_base)
        }),
{
    if t <= 63 {
        t as u8
    } else if t <= 316 {
        let m: u16 = (t - 64 + 2) / 4;
        assert(4 * m <= t - 62 < 4 * m + 4 && m < 64) by (nonlinear_arith)
            requires
                m == (t - 62) / 4,
                64 <= t <= 316,
        ;
        m as u8
    } else {
        let m: u16 = (t - 320 + 8) / 16;
        assert(16 * m <= t - 312 < 16 * m + 16 && m < 64) by (nonlinear_arith)
            requires
                m == (t - 312) / 16,
                320 <= t <= 1328,
        ;
        m as u8
    }
}

/// The configured MinCycleTime (33.0 ms): time base 1.6 ms, multiplier 1.
pub open spec fn spec_min_cycle_time_parameter() -> CycleTime {
    CycleTime { multiplier: 1, time_base: 2 }
}

/// Returns the encoded configured MinCycleTime.
pub fn min_cycle_time_parameter() -> (r: CycleTime)
    ensures
        r == spec_encode_cycle_time(MIN_CYCLE_TIME_TENTHS_OF_MS),
        r == spec_min_cycle_time_parameter(),
        r.wf(),
{
    CycleTime {
        time_base: time_base(MIN_CYCLE_TIME_TENTHS_OF_MS),
        multiplier: multiplier(MIN_CYCLE_TIME_TENTHS_OF_MS),
    }
}

} // verus!
