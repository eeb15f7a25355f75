//! The hour of day that a kline's volume is counted in, for hourly volume profiles.
use vstd::prelude::*;

verus! {

/// `(open_time_ms / 3_600_000) % 24` with Rust's truncating `/` and `%`, as an integer:
/// the UTC hour for a time at or after the epoch, and a value in `-23..=0` before it.
pub open spec fn spec_signed_hour(open_time_ms: int) -> int {
    if open_time_ms >= 0 {
        (open_time_ms / 3_600_000) % 24
    } else {
        -(((-open_time_ms) / 3_600_000) % 24)
    }
}

/// The hour bucket of a kline opened at `open_time_ms`: the UTC hour (0 to 23) for a time
/// at or after the epoch; before it, the signed hour taken as a `u32` (wrapping), which
/// falls outside 0 to 23 unless it is 0.
pub fn kline_hour(open_time_ms: i64) -> (r: u32)
    ensures
        r == if spec_signed_hour(open_time_ms as int) >= 0 {
            spec_signed_hour(open_time_ms as int)
        } else {
            spec_signed_hour(open_time_ms as int) + 0x1_0000_0000
        },
        open_time_ms >= 0 ==> r < 24,
{
    if open_time_ms >= 0 {
        let t: u64 = open_time_ms as u64;
        ((t / 3_600_000) % 24) as u32
    } else {
        let magnitude: u64 = ((-(open_time_ms + 1)) as u64) + 1;
        let h: u64 = (magnitude / 3_600_000) % 24;
        if h == 0 {
            0
        } else {
            (0x1_0000_0000u64 - h) as u32
        }
    }
}

} // verus!
