//! Calibration of the protocol's pulse durations against the peripheral clock.
use vstd::prelude::*;

use crate::error::{LedError, ESP_ERR_INVALID_STATE};

verus! {

/// High time of a zero bit, in nanoseconds.
pub const T0H_NS: u32 = 350;

/// Low time of a zero bit, in nanoseconds.
pub const T0L_NS: u32 = 1000;

/// High time of a one bit, in nanoseconds.
pub const T1H_NS: u32 = 1000;

/// Low time of a one bit, in nanoseconds.
pub const T1L_NS: u32 = 350;

/// Nanoseconds in a second.
pub const NS_PER_SEC: u64 = 1_000_000_000;

/// `freq_hz * ns / 1e9` rounded to the nearest integer, halves rounded up:
/// the number of clock ticks that lasts `ns` nanoseconds.
pub open spec fn round_ticks(freq_hz: int, ns: int) -> int {
    (freq_hz * ns + NS_PER_SEC / 2) / NS_PER_SEC as int
}

/// The number of ticks of a `freq_hz` clock that lasts `ns` nanoseconds,
/// rounded to the nearest tick.
pub fn ticks(freq_hz: u32, ns: u32) -> (r: u64)
    ensures
        r == round_ticks(freq_hz as int, ns as int),
{
    let f: u64 = freq_hz as u64;
    let d: u64 = ns as u64;
    assert(f * d <= 0xffff_fffe_0000_0001) by (nonlinear_arith)
        requires
            f <= 0xffff_ffff,
            d <= 0xffff_ffff,
    ;
    (f * d + NS_PER_SEC / 2) / NS_PER_SEC
}

/// The four pulse durations of the protocol, in peripheral clock ticks.
#[derive(Clone, Copy, Debug, PartialEq, Eq, Structural)]
pub struct TimingProfile {
    /// High time of a zero bit.
    pub t0h: u32,
    /// Low time of a zero bit.
    pub t0l: u32,
    /// High time of a one bit.
    pub t1h: u32,
    /// Low time of a one bit.
    pub t1l: u32,
}

/// The profile of a peripheral whose counter runs at `freq_hz`.
pub open spec fn profile_for(freq_hz: int) -> TimingProfile {
    TimingProfile {
        t0h: round_ticks(freq_hz, T0H_NS as int) as u32,
        t0l: round_ticks(freq_hz, T0L_NS as int) as u32,
        t1h: round_ticks(freq_hz, T1H_NS as int) as u32,
        t1l: round_ticks(freq_hz, T1L_NS as int) as u32,
    }
}

/// The clock that calibration cannot work from.
pub open spec fn calibration_error() -> LedError {
    LedError::Configuration(ESP_ERR_INVALID_STATE)
}

proof fn lemma_protocol_ticks_fit(freq_hz: u32, ns: u32)
    requires
        ns <= 1000,
    ensures
        0 <= round_ticks(freq_hz as int, ns as int) <= 4295,
{
    assert(freq_hz * ns <= 0xffff_ffff * 1000) by (nonlinear_arith)
        requires
            freq_hz <= 0xffff_ffff,
            ns <= 1000,
            0 <= ns,
    ;
}

impl TimingProfile {
    /// Derives the pulse durations from the clock rate that the peripheral
    /// reports having reached. A stopped clock cannot be calibrated against.
    pub fn calibrate(counter_clk_hz: u32) -> (r: Result<TimingProfile, LedError>)
        ensures
            counter_clk_hz == 0 <==> r is Err,
            r is Err ==> r == Err::<TimingProfile, LedError>(calibration_error()),
            r is Ok ==> r->Ok_0 == profile_for(counter_clk_hz as int),
    {
        if counter_clk_hz == 0 {
            return Err(LedError::Configuration(ESP_ERR_INVALID_STATE));
        }
        proof {
            lemma_protocol_ticks_fit(counter_clk_hz, T0H_NS);
            lemma_protocol_ticks_fit(counter_clk_hz, T0L_NS);
            lemma_protocol_ticks_fit(counter_clk_hz, T1H_NS);
            lemma_protocol_ticks_fit(counter_clk_hz, T1L_NS);
        }
        let t0h = ticks(counter_clk_hz, T0H_NS) as u32;
        let t0l = ticks(counter_clk_hz, T0L_NS) as u32;
        let t1h = ticks(counter_clk_hz, T1H_NS) as u32;
        let t1l = ticks(counter_clk_hz, T1L_NS) as u32;
        Ok(TimingProfile { t0h, t0l, t1h, t1l })
    }
}

/// A tick count is the nearest whole number of ticks: the duration it stands
/// for lies within half a tick of the requested one, halves rounding up.
pub proof fn lemma_ticks_nearest(freq_hz: u32, ns: u32)
    ensures
        ({
            let t = round_ticks(freq_hz as int, ns as int);
            let exact = freq_hz as int * ns as int;
            &&& t * NS_PER_SEC - NS_PER_SEC / 2 <= exact
            &&& exact < t * NS_PER_SEC + NS_PER_SEC / 2
        }),
{
}

/// Tick counts scale linearly with the clock: where `freq_hz * ns` is a whole
/// number of ticks, a clock `k` times as fast needs `k` times as many ticks.
pub proof fn lemma_ticks_linear(freq_hz: u32, ns: u32, k: nat)
    requires
        (freq_hz as int * ns as int) % (NS_PER_SEC as int) == 0,
    ensures
        round_ticks(k * freq_hz, ns as int) == k * round_ticks(freq_hz as int, ns as int),
{
    let m = (freq_hz as int * ns as int) / (NS_PER_SEC as int);
    assert(freq_hz as int * ns as int == m * NS_PER_SEC);
    assert(k * freq_hz * ns == (k * m) * NS_PER_SEC) by (nonlinear_arith)
        requires
            freq_hz as int * ns as int == m * NS_PER_SEC,
    ;
}

/// A faster clock never needs fewer ticks for the same duration.
pub proof fn lemma_ticks_monotonic(slow_hz: u32, fast_hz: u32, ns: u32)
    requires
        slow_hz <= fast_hz,
    ensures
        round_ticks(slow_hz as int, ns as int) <= round_ticks(fast_hz as int, ns as int),
{
    assert(slow_hz * ns <= fast_hz * ns) by (nonlinear_arith)
        requires
            slow_hz <= fast_hz,
    ;
}

} // verus!
