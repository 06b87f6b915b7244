//! Timekeeping and quadrature position counting
//!
//! The clocks here keep their timestamps as microseconds since boot; the
//! caller reads the hardware clock and hands the reading in, so the rules
//! (when a tick is due, when a timeout has passed, how long to wait) are
//! decided here for every possible reading.
//!
//! The position counter extends the 16-bit hardware encoder counter into a
//! signed position that survives counter wraparound.

use vstd::prelude::*;

verus! {

/// Microseconds in one second.
pub const MICROS_PER_SECOND: u32 = 1_000_000;

/// Sample-rate clock: the tick period and when the last tick happened.
#[derive(Clone, Copy, Debug)]
pub struct SampleClock {
    period_us: u32,
    last_tick: Option<u64>,
}

impl SampleClock {
    /// The tick period in microseconds.
    pub closed spec fn spec_period_us(self) -> u32 {
        self.period_us
    }

    /// When the last tick happened, if one has.
    pub closed spec fn spec_last_tick(self) -> Option<u64> {
        self.last_tick
    }

    /// Create a clock for the given sample rate in Hz.
    pub fn from_rate(sample_rate: u32) -> (r: Self)
        requires
            sample_rate > 0,
        ensures
            r.spec_period_us() == MICROS_PER_SECOND / sample_rate,
            r.spec_last_tick() is None,
    {
        Self { period_us: MICROS_PER_SECOND / sample_rate, last_tick: None }
    }

    /// Create a clock with the given period in microseconds.
    pub fn from_period_us(period_us: u32) -> (r: Self)
        ensures
            r.spec_period_us() == period_us,
            r.spec_last_tick() is None,
    {
        Self { period_us, last_tick: None }
    }

    /// The sample rate in Hz.
    pub fn rate_hz(&self) -> (r: u32)
        requires
            self.spec_period_us() > 0,
        ensures
            r == MICROS_PER_SECOND / self.spec_period_us(),
    {
        MICROS_PER_SECOND / self.period_us
    }

    /// The tick period in microseconds.
    pub fn period(&self) -> (r: u64)
        ensures
            r == self.spec_period_us(),
    {
        self.period_us as u64
    }

    /// When the last tick happened, if one has.
    pub fn last_tick(&self) -> (r: Option<u64>)
        ensures
            r == self.spec_last_tick(),
    {
        self.last_tick
    }

    /// Record a tick at `now_us`, once the period has been waited out.
    pub fn tick(&mut self, now_us: u64)
        ensures
            final(self).spec_period_us() == old(self).spec_period_us(),
            final(self).spec_last_tick() == Some(now_us),
    {
        self.last_tick = Some(now_us);
    }

    /// Forget the last tick.
    pub fn reset(&mut self)
        ensures
            final(self).spec_period_us() == old(self).spec_period_us(),
            final(self).spec_last_tick() is None,
    {
        self.last_tick = None;
    }
}

/// Time since `start`, or zero when the stopwatch is not running.
pub open spec fn elapsed_since(start: Option<u64>, now: u64) -> int {
    match start {
        Some(s) => now - s,
        None => 0,
    }
}

/// Stopwatch for measuring elapsed time
#[derive(Clone, Copy, Debug)]
pub struct Stopwatch {
    start: Option<u64>,
}

impl Stopwatch {
    /// When the stopwatch was started, if it is running.
    pub closed spec fn spec_start(self) -> Option<u64> {
        self.start
    }

    /// Whether `now` is no earlier than the start.
    pub open spec fn reading_ok(self, now: u64) -> bool {
        self.spec_start() matches Some(s) ==> s <= now
    }

    /// Create a stopped stopwatch.
    pub fn new() -> (r: Self)
        ensures
            r.spec_start() is None,
    {
        Self { start: None }
    }

    /// Start timing at `now_us`.
    pub fn start(&mut self, now_us: u64)
        ensures
            final(self).spec_start() == Some(now_us),
    {
        self.start = Some(now_us);
    }

    /// Microseconds since the start (zero when stopped).
    pub fn elapsed(&self, now_us: u64) -> (r: u64)
        requires
            self.reading_ok(now_us),
        ensures
            r == elapsed_since(self.spec_start(), now_us),
    {
        match self.start {
            Some(s) => now_us - s,
            None => 0,
        }
    }

    /// Microseconds since the start (zero when stopped).
    pub fn elapsed_us(&self, now_us: u64) -> (r: u64)
        requires
            self.reading_ok(now_us),
        ensures
            r == elapsed_since(self.spec_start(), now_us),
    {
        self.elapsed(now_us)
    }

    /// Whole milliseconds since the start (zero when stopped).
    pub fn elapsed_ms(&self, now_us: u64) -> (r: u64)
        requires
            self.reading_ok(now_us),
        ensures
            r == elapsed_since(self.spec_start(), now_us) / 1000,
    {
        self.elapsed(now_us) / 1000
    }

    /// Whether at least `duration_us` has passed since the start.
    pub fn has_elapsed(&self, now_us: u64, duration_us: u64) -> (r: bool)
        requires
            self.reading_ok(now_us),
        ensures
            r == (elapsed_since(self.spec_start(), now_us) >= duration_us),
    {
        self.elapsed(now_us) >= duration_us
    }

    /// Stop, returning the elapsed time.
    pub fn stop(&mut self, now_us: u64) -> (r: u64)
        requires
            old(self).reading_ok(now_us),
        ensures
            r == elapsed_since(old(self).spec_start(), now_us),
            final(self).spec_start() is None,
    {
        let elapsed = self.elapsed(now_us);
        self.start = None;
        elapsed
    }

    /// Restart at `now_us`, returning the time elapsed before.
    pub fn restart(&mut self, now_us: u64) -> (r: u64)
        requires
            old(self).reading_ok(now_us),
        ensures
            r == elapsed_since(old(self).spec_start(), now_us),
            final(self).spec_start() == Some(now_us),
    {
        let elapsed = self.elapsed(now_us);
        self.start = Some(now_us);
        elapsed
    }
}

impl Default for Stopwatch {
    fn default() -> (r: Self)
        ensures
            r.spec_start() is None,
    {
        Self::new()
    }
}

/// Time left until `deadline`, or zero once it has passed.
pub open spec fn time_left(deadline: u64, now: u64) -> int {
    if now >= deadline {
        0
    } else {
        deadline - now
    }
}

/// Timeout helper: a deadline in microseconds.
#[derive(Clone, Copy, Debug)]
pub struct Timeout {
    deadline: u64,
}

impl Timeout {
    /// The deadline.
    pub closed spec fn spec_deadline(self) -> u64 {
        self.deadline
    }

    /// A timeout `duration_us` after `now_us`.
    pub fn new(now_us: u64, duration_us: u64) -> (r: Self)
        requires
            now_us + duration_us <= u64::MAX,
        ensures
            r.spec_deadline() == now_us + duration_us,
    {
        Self { deadline: now_us + duration_us }
    }

    /// A timeout `ms` milliseconds after `now_us`.
    pub fn from_ms(now_us: u64, ms: u64) -> (r: Self)
        requires
            now_us + ms * 1000 <= u64::MAX,
        ensures
            r.spec_deadline() == now_us + ms * 1000,
    {
        Self::new(now_us, ms * 1000)
    }

    /// A timeout `us` microseconds after `now_us`.
    pub fn from_us(now_us: u64, us: u64) -> (r: Self)
        requires
            now_us + us <= u64::MAX,
        ensures
            r.spec_deadline() == now_us + us,
    {
        Self::new(now_us, us)
    }

    /// Whether the deadline has been reached.
    pub fn expired(&self, now_us: u64) -> (r: bool)
        ensures
            r == (now_us >= self.spec_deadline()),
    {
        now_us >= self.deadline
    }

    /// Microseconds left until the deadline (zero once it has passed).
    pub fn remaining(&self, now_us: u64) -> (r: u64)
        ensures
            r == time_left(self.spec_deadline(), now_us),
    {
        if now_us >= self.deadline {
            0
        } else {
            self.deadline - now_us
        }
    }
}

/// Rate limiter: lets an action through at most once per period.
#[derive(Clone, Copy, Debug)]
pub struct RateLimiter {
    period: u64,
    last: Option<u64>,
}

impl RateLimiter {
    /// The minimum spacing between passes, in microseconds.
    pub closed spec fn spec_period(self) -> u64 {
        self.period
    }

    /// When the last pass happened, if one has.
    pub closed spec fn spec_last(self) -> Option<u64> {
        self.last
    }

    /// Whether `now` is no earlier than the last pass.
    pub open spec fn reading_ok(self, now: u64) -> bool {
        self.spec_last() matches Some(l) ==> l <= now
    }

    /// Whether a check at `now` passes.
    pub open spec fn ready_at(self, now: u64) -> bool {
        match self.spec_last() {
            None => true,
            Some(l) => now - l >= self.spec_period(),
        }
    }

    /// A limiter with the given period in microseconds.
    pub fn new(period_us: u64) -> (r: Self)
        ensures
            r.spec_period() == period_us,
            r.spec_last() is None,
    {
        Self { period: period_us, last: None }
    }

    /// A limiter for the given rate in Hz.
    pub fn from_hz(hz: u32) -> (r: Self)
        requires
            hz > 0,
        ensures
            r.spec_period() == 1_000_000int / (hz as int),
            r.spec_last() is None,
    {
        Self::new(1_000_000u64 / (hz as u64))
    }

    /// Whether the action may run at `now_us`; a pass is recorded.
    pub fn check(&mut self, now_us: u64) -> (r: bool)
        requires
            old(self).reading_ok(now_us),
        ensures
            r == old(self).ready_at(now_us),
            final(self).spec_period() == old(self).spec_period(),
            r ==> final(self).spec_last() == Some(now_us),
            !r ==> final(self).spec_last() == old(self).spec_last(),
    {
        match self.last {
            None => {
                self.last = Some(now_us);
                true
            },
            Some(last) => {
                if now_us - last >= self.period {
                    self.last = Some(now_us);
                    true
                } else {
                    false
                }
            },
        }
    }

    /// Microseconds until a check would pass (zero when it would now).
    pub fn time_until_ready(&self, now_us: u64) -> (r: u64)
        requires
            self.reading_ok(now_us),
        ensures
            self.ready_at(now_us) ==> r == 0,
            self.spec_last() matches Some(l) ==> (!self.ready_at(now_us) ==> r
                == self.spec_period() - (now_us - l)),
    {
        match self.last {
            None => 0,
            Some(last) => {
                let elapsed = now_us - last;
                if elapsed >= self.period {
                    0
                } else {
                    self.period - elapsed
                }
            },
        }
    }

    /// Record a pass at `now_us`, after waiting until it was ready.
    pub fn record(&mut self, now_us: u64)
        ensures
            final(self).spec_period() == old(self).spec_period(),
            final(self).spec_last() == Some(now_us),
    {
        self.last = Some(now_us);
    }
}

/// Passes through a rate limiter are at least one period apart: after a
/// pass at `t`, a check before `t + period` is refused and a check at or
/// after it passes.
pub proof fn lemma_rate_limit_spacing(limiter: RateLimiter, t: u64, later: u64)
    requires
        limiter.spec_last() == Some(t),
        t <= later,
    ensures
        limiter.ready_at(later) <==> later >= t + limiter.spec_period(),
{
}

/// A timeout has expired exactly when no time remains on it.
pub proof fn lemma_timeout_remaining_zero(deadline: u64, now: u64)
    ensures
        (now >= deadline) <==> time_left(deadline, now) == 0,
{
}

/// The step from `count` to the nearest position that reads `new_count` on
/// the 16-bit counter: the difference modulo 65536, taken between -32767
/// and 32768.
pub open spec fn wrap_delta(count: int, new_count: int) -> int {
    let r = (new_count - count) % 65536;
    if r > 32768 {
        r - 65536
    } else {
        r
    }
}

/// The position after the 16-bit counter reads `new_count`: the position
/// nearest the previous one that agrees with the counter modulo 65536.
pub open spec fn position_after(count: i32, new_count: u16) -> int {
    count + wrap_delta(count as int, new_count as int)
}

/// Encoder position counter using timer in quadrature mode
#[derive(Clone, Copy, Debug, PartialEq, Eq, Structural, Default)]
pub struct EncoderPosition {
    /// Raw counter value
    count: i32,
    /// Last read value for delta calculation
    last_count: i32,
}

impl EncoderPosition {
    /// The absolute position.
    pub closed spec fn spec_count(self) -> i32 {
        self.count
    }

    /// The position when the change was last taken.
    pub closed spec fn spec_last_count(self) -> i32 {
        self.last_count
    }

    /// Create a new encoder position
    pub fn new() -> (r: Self)
        ensures
            r.spec_count() == 0,
            r.spec_last_count() == 0,
    {
        Self { count: 0, last_count: 0 }
    }

    /// Update with new counter value: the position moves by the shortest
    /// way round the 16-bit counter to a value that reads `new_count`
    pub fn update(&mut self, new_count: u16)
        requires
            i32::MIN <= position_after(old(self).spec_count(), new_count) <= i32::MAX,
        ensures
            final(self).spec_count() == position_after(old(self).spec_count(), new_count),
            final(self).spec_last_count() == old(self).spec_last_count(),
    {
        let ghost c = self.count as int;
        // The counter value the current position reads as (count mod 65536);
        // 2^31 is a multiple of 65536, so shifting into the unsigned range
        // keeps the remainder.
        let shifted: u64 = (self.count as i64 + 2_147_483_648i64) as u64;
        let low: u64 = shifted % 65536;
        proof {
            vstd::arithmetic::div_mod::lemma_mod_multiples_vanish(32768, c, 65536);
            assert(low as int == c % 65536);
        }
        let r: u64 = (new_count as u64 + 65536 - low) % 65536;
        proof {
            let n = new_count as int;
            vstd::arithmetic::div_mod::lemma_fundamental_div_mod(c, 65536);
            let q = c / 65536;
            assert(n + 65536 - low == 65536 * (q + 1) + (n - c)) by (nonlinear_arith)
                requires
                    c == 65536 * q + low,
            ;
            vstd::arithmetic::div_mod::lemma_mod_multiples_vanish(q + 1, n - c, 65536);
        }
        let delta: i64 = if r > 32768 { r as i64 - 65536 } else { r as i64 };
        self.count = (self.count as i64 + delta) as i32;
    }

    /// Get position change since last call
    pub fn delta(&mut self) -> (r: i32)
        requires
            i32::MIN <= old(self).spec_count() - old(self).spec_last_count() <= i32::MAX,
        ensures
            r == old(self).spec_count() - old(self).spec_last_count(),
            final(self).spec_count() == old(self).spec_count(),
            final(self).spec_last_count() == old(self).spec_count(),
    {
        let delta = self.count - self.last_count;
        self.last_count = self.count;
        delta
    }

    /// Get absolute position
    pub fn position(&self) -> (r: i32)
        ensures
            r == self.spec_count(),
    {
        self.count
    }

    /// Reset position to zero
    pub fn reset(&mut self)
        ensures
            final(self).spec_count() == 0,
            final(self).spec_last_count() == 0,
    {
        self.count = 0;
        self.last_count = 0;
    }
}

/// Counter wraparound is undone: the new position reads `new_count` on the
/// 16-bit counter and is at most half the counter range away from the old
/// one. In particular, moving the counter by `d` steps (less than half its
/// range either way) moves the position by exactly `d`.
pub proof fn lemma_position_tracks_moves(count: i32, new_count: u16, d: int)
    ensures
        (position_after(count, new_count) - new_count) % 65536 == 0,
        -32767 <= position_after(count, new_count) - count <= 32768,
        -32767 <= d <= 32768 && (count + d - new_count) % 65536 == 0 ==> position_after(count, new_count)
            == count + d,
{
    let r = (new_count - count) % 65536;
    vstd::arithmetic::div_mod::lemma_fundamental_div_mod(new_count - count, 65536);
    let q = (new_count - count) / 65536;
    let p = position_after(count, new_count);
    if r > 32768 {
        assert(p - new_count == -65536 * (q + 1));
        vstd::arithmetic::div_mod::lemma_mod_multiples_vanish(-(q + 1), 0, 65536);
        assert((p - new_count) % 65536 == 0) by (nonlinear_arith)
            requires
                p - new_count == 65536 * (-(q + 1)) + 0,
                ((65536 * (-(q + 1))) + 0) % 65536 == 0int % 65536,
        ;
    } else {
        assert(p - new_count == -65536 * q);
        vstd::arithmetic::div_mod::lemma_mod_multiples_vanish(-q, 0, 65536);
        assert((p - new_count) % 65536 == 0) by (nonlinear_arith)
            requires
                p - new_count == 65536 * (-q) + 0,
                ((65536 * (-q)) + 0) % 65536 == 0int % 65536,
        ;
    }
    if -32767 <= d <= 32768 && (count + d - new_count) % 65536 == 0 {
        vstd::arithmetic::div_mod::lemma_fundamental_div_mod(count + d - new_count, 65536);
        let k = (count + d - new_count) / 65536;
        vstd::arithmetic::div_mod::lemma_fundamental_div_mod(p - new_count, 65536);
        let j = (p - new_count) / 65536;
        // p - (count + d) is a multiple of 65536 smaller than 65536 in size
        assert(p - (count + d) == 65536 * (j - k)) by (nonlinear_arith)
            requires
                count + d - new_count == 65536 * k,
                p - new_count == 65536 * j,
        ;
        assert(j - k == 0) by (nonlinear_arith)
            requires
                p - (count + d) == 65536 * (j - k),
                -65535 <= p - (count + d) <= 65535,
        ;
    }
}

} // verus!
