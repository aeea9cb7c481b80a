//! Humanized timing: click intervals and press ("travel") durations drawn
//! from a uniform or a clamped normal distribution, optional release jitter,
//! a fatigue cycle that stretches intervals, and burst/pause tracking.
//!
//! All durations are whole milliseconds.
use crate::chance::{coin, uniform_in};
use vstd::prelude::*;

verus! {

/// What a delay drawn for the bounds `[min_ms, max_ms]` may be: exactly
/// `min_ms` when the bounds are degenerate (`min_ms >= max_ms`), else any
/// value of the inclusive range.
pub open spec fn delay_in_bounds(min_ms: u64, max_ms: u64, r: u64) -> bool {
    if min_ms >= max_ms {
        r == min_ms
    } else {
        min_ms <= r <= max_ms
    }
}

/// `v` clamped into `[lo, hi]`.
pub open spec fn clamp(v: int, lo: int, hi: int) -> int {
    if v < lo {
        lo
    } else if v > hi {
        hi
    } else {
        v
    }
}

/// The most that release jitter adds to a base travel time: up to half of
/// it, exclusive, in whole milliseconds.
pub open spec fn jitter_cap(base: u64, jitter: bool) -> int {
    if jitter && base > 0 {
        (base - 1) / 2
    } else {
        0
    }
}

/// What a travel time may be: a delay within the bounds, plus at most the
/// jitter that this delay allows.
pub open spec fn travel_in_bounds(min_ms: u64, max_ms: u64, jitter: bool, r: u64) -> bool {
    exists|base: u64|
        #![trigger delay_in_bounds(min_ms, max_ms, base)]
        delay_in_bounds(min_ms, max_ms, base) && base <= r <= base + jitter_cap(base, jitter)
}

/// Uniform random delay in `[min_ms, max_ms]`; `min_ms` when
/// `min_ms >= max_ms`.
pub fn random_delay(min_ms: u64, max_ms: u64) -> (r: u64)
    ensures
        delay_in_bounds(min_ms, max_ms, r),
{
    if min_ms >= max_ms {
        return min_ms;
    }
    uniform_in(min_ms as u128, max_ms as u128) as u64
}

/// Fixed-point scale of a standard normal draw: `z` stands for
/// `z / NORMAL_SCALE` standard deviations.
pub const NORMAL_SCALE: i128 = 65536;

/// Four times the normal delay that the draw `z` gives, in units of
/// `1 / NORMAL_SCALE`: mean `(min + max) / 2`, standard deviation
/// `(max - min) / 4`.
pub open spec fn scaled_normal(min_ms: u64, max_ms: u64, z: i32) -> int {
    2 * (min_ms + max_ms) * NORMAL_SCALE + (max_ms - min_ms) * z
}

/// The delay that the standard normal draw `z` gives for the bounds: the
/// normal value clamped into `[min_ms, max_ms]`, rounded down.
pub open spec fn normal_delay(min_ms: u64, max_ms: u64, z: i32) -> int {
    clamp(scaled_normal(min_ms, max_ms, z), 4 * min_ms * NORMAL_SCALE, 4 * max_ms * NORMAL_SCALE)
        / (4 * NORMAL_SCALE)
}

/// Normally distributed delay centred between the bounds, with standard
/// deviation a quarter of their spread (so that about 95% of the unclamped
/// values fall inside), clamped into `[min_ms, max_ms]`; `min_ms` when
/// `min_ms >= max_ms`. `z` is a draw from the standard normal distribution,
/// in units of `1 / NORMAL_SCALE`.
pub fn gaussian_delay(min_ms: u64, max_ms: u64, z: i32) -> (r: u64)
    ensures
        delay_in_bounds(min_ms, max_ms, r),
        min_ms < max_ms ==> r == normal_delay(min_ms, max_ms, z),
{
    if min_ms >= max_ms {
        return min_ms;
    }
    let lo: i128 = 4 * (min_ms as i128) * NORMAL_SCALE;
    let hi: i128 = 4 * (max_ms as i128) * NORMAL_SCALE;
    let spread: i128 = (max_ms - min_ms) as i128;
    assert(-0x8000_0000 <= z < 0x8000_0000);
    assert(-0x8000_0000 * spread <= spread * (z as i128) <= 0x8000_0000 * spread)
        by (nonlinear_arith)
        requires
            -0x8000_0000 <= z < 0x8000_0000,
            0 <= spread,
    ;
    let v: i128 = 2 * (min_ms as i128 + max_ms as i128) * NORMAL_SCALE + spread * (z as i128);
    let c: i128 = if v < lo {
        lo
    } else if v > hi {
        hi
    } else {
        v
    };
    assert(0 <= c <= hi);
    (c / (4 * NORMAL_SCALE)) as u64
}

/// The jittered travel time: when `hit` and `base > 0`, `base` plus half of
/// `draw` (a draw from `[0, base)`), which is `base` times a fraction from
/// `[0, 1/2)`, rounded down, saturating at `u64::MAX`; otherwise `base`.
pub fn add_jitter(base: u64, hit: bool, draw: u64) -> (r: u64)
    requires
        base > 0 ==> draw < base,
    ensures
        r == (if hit && base > 0 {
            if base + draw / 2 > u64::MAX {
                u64::MAX as int
            } else {
                base + draw / 2
            }
        } else {
            base as int
        }),
{
    if hit && base > 0 {
        base.saturating_add(draw / 2)
    } else {
        base
    }
}

/// With jitter on, a 30% chance of lengthening `base` by a random fraction
/// in `[0, 1/2)` of it.
fn jitter_release(base: u64, jitter: bool) -> (r: u64)
    ensures
        base <= r <= base + jitter_cap(base, jitter),
{
    if jitter && base > 0 && coin(3, 10) {
        let draw = uniform_in(0, (base - 1) as u128) as u64;
        add_jitter(base, true, draw)
    } else {
        base
    }
}

/// Uniform travel time in `[min_ms, max_ms]`, with optional release jitter.
pub fn random_travel_time(min_ms: u64, max_ms: u64, jitter: bool) -> (r: u64)
    ensures
        travel_in_bounds(min_ms, max_ms, jitter, r),
{
    let base = random_delay(min_ms, max_ms);
    let r = jitter_release(base, jitter);
    assert(delay_in_bounds(min_ms, max_ms, base));
    r
}

/// Normally distributed travel time in `[min_ms, max_ms]`, with optional
/// release jitter; `z` as for `gaussian_delay`.
pub fn gaussian_travel_time(min_ms: u64, max_ms: u64, jitter: bool, z: i32) -> (r: u64)
    ensures
        travel_in_bounds(min_ms, max_ms, jitter, r),
{
    let base = gaussian_delay(min_ms, max_ms, z);
    let r = jitter_release(base, jitter);
    assert(delay_in_bounds(min_ms, max_ms, base));
    r
}

/// Uniform click interval in `[min_ms, max_ms]`.
pub fn random_click_interval(min_ms: u64, max_ms: u64) -> (r: u64)
    ensures
        delay_in_bounds(min_ms, max_ms, r),
{
    random_delay(min_ms, max_ms)
}

/// Normally distributed click interval in `[min_ms, max_ms]`; `z` as for
/// `gaussian_delay`.
pub fn gaussian_click_interval(min_ms: u64, max_ms: u64, z: i32) -> (r: u64)
    ensures
        delay_in_bounds(min_ms, max_ms, r),
        min_ms < max_ms ==> r == normal_delay(min_ms, max_ms, z),
{
    gaussian_delay(min_ms, max_ms, z)
}

/// Clicks in one fatigue cycle.
pub const CYCLE_LENGTH: u64 = 100;

/// Position in the cycle where the ramp-up ends and the plateau begins.
pub const RAMP_END: u64 = 50;

/// Position in the cycle where the plateau ends and the recovery begins.
pub const PLATEAU_END: u64 = 80;

/// A multiplier of 1, in ten-thousandths.
pub const MULTIPLIER_ONE: u128 = 10000;

/// The fatigue multiplier, in ten-thousandths, after `count` clicks with a
/// maximum slowdown of `percent`%. With `pos = count % CYCLE_LENGTH`: a
/// linear ramp from 1 to `1 + percent/100` over the first half of the cycle,
/// a plateau there up to 80% of it, and a linear recovery back to 1 over the
/// rest.
pub open spec fn fatigue_multiplier(count: u64, percent: u64) -> int {
    let pos = count % CYCLE_LENGTH;
    if pos < RAMP_END {
        // percent/100 * pos/50, in ten-thousandths
        MULTIPLIER_ONE + 2 * (percent * pos)
    } else if pos < PLATEAU_END {
        MULTIPLIER_ONE + 100 * percent
    } else {
        // percent/100 * (100 - pos)/20, in ten-thousandths
        MULTIPLIER_ONE + 5 * (percent * (CYCLE_LENGTH - pos))
    }
}

/// `ms` stretched by `multiplier` ten-thousandths, rounded down, saturating
/// at `u64::MAX`.
pub open spec fn stretched(ms: u64, multiplier: int) -> int {
    let v = ms * multiplier / MULTIPLIER_ONE as int;
    if v > u64::MAX {
        u64::MAX as int
    } else {
        v
    }
}

/// What a fatigue tracker holds: the clicks counted (wrapping) and the
/// maximum slowdown in percent.
pub struct FatigueModel {
    pub count: u64,
    pub percent: u64,
}

/// Fatigue simulation: click intervals slow down over a cycle of clicks and
/// recover.
pub struct FatigueTracker {
    click_count: u64,
    max_slowdown_percent: u64,
}

impl FatigueModel {
    /// The tracker after one more click; the count wraps.
    pub open spec fn clicked(self) -> FatigueModel {
        FatigueModel {
            count: if self.count == u64::MAX {
                0
            } else {
                (self.count + 1) as u64
            },
            ..self
        }
    }
}

impl View for FatigueTracker {
    type V = FatigueModel;

    closed spec fn view(&self) -> FatigueModel {
        FatigueModel { count: self.click_count, percent: self.max_slowdown_percent }
    }
}

impl FatigueTracker {
    pub fn new(max_slowdown_percent: u64) -> (r: Self)
        ensures
            r@ == (FatigueModel { count: 0, percent: max_slowdown_percent }),
    {
        FatigueTracker { click_count: 0, max_slowdown_percent }
    }

    /// Current multiplier in ten-thousandths (10000 = no slowdown, 13000 =
    /// 30% slower).
    pub fn get_multiplier(&self) -> (r: u128)
        ensures
            r == fatigue_multiplier(self@.count, self@.percent),
    {
        let pos = self.click_count % CYCLE_LENGTH;
        let p = self.max_slowdown_percent as u128;
        let q = pos as u128;
        assert(p * q <= 0xffff_ffff_ffff_ffff * 100) by (nonlinear_arith)
            requires
                p <= 0xffff_ffff_ffff_ffff,
                q < 100,
        ;
        if pos < RAMP_END {
            MULTIPLIER_ONE + 2 * (p * q)
        } else if pos < PLATEAU_END {
            MULTIPLIER_ONE + 100 * p
        } else {
            assert(p * (100 - q) <= 0xffff_ffff_ffff_ffff * 100) by (nonlinear_arith)
                requires
                    p <= 0xffff_ffff_ffff_ffff,
                    q < 100,
            ;
            MULTIPLIER_ONE + 5 * (p * (100 - q))
        }
    }

    /// `ms` stretched by the current multiplier, rounded down to whole
    /// milliseconds.
    pub fn apply(&self, ms: u64) -> (r: u64)
        ensures
            r == stretched(ms, fatigue_multiplier(self@.count, self@.percent)),
    {
        let m = self.get_multiplier();
        let wide = ms as u128;
        if wide > 0 && m > u128::MAX / wide {
            assert(wide * m >= u128::MAX + 1 - wide) by (nonlinear_arith)
                requires
                    wide > 0,
                    m > u128::MAX / wide,
            ;
            assert((wide * m) / 10000 > u64::MAX) by (nonlinear_arith)
                requires
                    wide * m >= u128::MAX + 1 - wide,
                    wide <= u64::MAX,
            ;
            return u64::MAX;
        }
        assert(wide * m <= u128::MAX) by (nonlinear_arith)
            requires
                wide == 0 || m <= u128::MAX / wide,
        ;
        let v = wide * m / MULTIPLIER_ONE;
        if v > u64::MAX as u128 {
            u64::MAX
        } else {
            v as u64
        }
    }

    /// Counts a completed click.
    pub fn click(&mut self)
        ensures
            final(self)@ == old(self)@.clicked(),
    {
        self.click_count = self.click_count.wrapping_add(1);
    }

    /// Starts the cycle over (when the trigger is released).
    pub fn reset(&mut self)
        ensures
            final(self)@ == (FatigueModel { count: 0, percent: old(self)@.percent }),
    {
        self.click_count = 0;
    }
}

/// The fatigue multiplier stays between 1 and `1 + percent/100`, and is
/// exactly 1 at the start of every cycle.
pub proof fn lemma_fatigue_multiplier_range(count: u64, percent: u64)
    ensures
        MULTIPLIER_ONE <= fatigue_multiplier(count, percent) <= MULTIPLIER_ONE + 100 * percent,
        count % CYCLE_LENGTH == 0 ==> fatigue_multiplier(count, percent) == MULTIPLIER_ONE,
{
    let pos = count % CYCLE_LENGTH;
    assert(percent * 0 == 0);
    if pos < RAMP_END {
        assert(0 <= percent * pos <= percent * 50) by (nonlinear_arith)
            requires
                0 <= pos < 50,
                0 <= percent,
        ;
    } else if pos >= PLATEAU_END {
        assert(0 <= percent * (100 - pos) <= percent * 20) by (nonlinear_arith)
            requires
                80 <= pos < 100,
                0 <= percent,
        ;
    }
}

/// Within one cycle the multiplier never falls during the ramp-up, is flat
/// on the plateau and never rises during the recovery.
pub proof fn lemma_fatigue_multiplier_phases(a: u64, b: u64, percent: u64)
    requires
        a <= b,
        a / CYCLE_LENGTH == b / CYCLE_LENGTH,
    ensures
        b % CYCLE_LENGTH < RAMP_END ==> fatigue_multiplier(a, percent) <= fatigue_multiplier(
            b,
            percent,
        ),
        RAMP_END <= a % CYCLE_LENGTH && b % CYCLE_LENGTH < PLATEAU_END ==> fatigue_multiplier(
            a,
            percent,
        ) == fatigue_multiplier(b, percent),
        PLATEAU_END <= a % CYCLE_LENGTH ==> fatigue_multiplier(a, percent) >= fatigue_multiplier(
            b,
            percent,
        ),
{
    let pa = a % CYCLE_LENGTH;
    let pb = b % CYCLE_LENGTH;
    assert(pa <= pb);
    assert(percent * pa <= percent * pb) by (nonlinear_arith)
        requires
            pa <= pb,
            0 <= percent,
    ;
    assert(percent * (100 - pb) <= percent * (100 - pa)) by (nonlinear_arith)
        requires
            pa <= pb,
            0 <= percent,
    ;
}

/// One more click moves the multiplier by at most `5 * percent`
/// ten-thousandths (the steepest slope of the cycle), across phase and
/// cycle boundaries too: the phases join without jumps.
pub proof fn lemma_fatigue_multiplier_steps(count: u64, percent: u64)
    requires
        count < u64::MAX,
    ensures
        fatigue_multiplier((count + 1) as u64, percent) - fatigue_multiplier(count, percent) <= 5
            * percent,
        fatigue_multiplier(count, percent) - fatigue_multiplier((count + 1) as u64, percent) <= 5
            * percent,
{
    let pa = count % CYCLE_LENGTH;
    let next = (count + 1) as u64;
    let pb = next % CYCLE_LENGTH;
    assert(pb == (if pa == 99 {
        0
    } else {
        pa + 1
    }));
    assert(percent * (pa + 1) == percent * pa + percent) by (nonlinear_arith);
    assert(percent * (100 - pa) == percent * (100 - (pa + 1)) + percent) by (nonlinear_arith);
    assert(percent * 50 == 50 * percent) by (nonlinear_arith);
    assert(percent * 20 == 20 * percent) by (nonlinear_arith);
    assert(percent * 1 == percent) by (nonlinear_arith);
    assert(0 <= percent * pa) by (nonlinear_arith)
        requires
            0 <= pa,
            0 <= percent,
    ;
}

/// What a jittered pause may be: 80% to 120% of `pause_ms` (the upper end
/// exclusive), rounded down and at most `u64::MAX`; zero for no pause.
pub open spec fn pause_in_band(pause_ms: u64, r: u64) -> bool {
    if pause_ms == 0 {
        r == 0
    } else {
        8 * pause_ms / 10 <= r && 10 * r < 12 * pause_ms
    }
}

/// What a burst tracker holds: the clicks of the current burst, the burst
/// size, the configured pause and whether the pause between bursts is on.
pub struct BurstModel {
    pub clicks: u64,
    pub size: u64,
    pub pause_ms: u64,
    pub in_pause: bool,
}

impl BurstModel {
    /// Outside a pause the burst has not yet reached its size.
    pub open spec fn wf(self) -> bool {
        self.in_pause || self.clicks < self.size || self.clicks == 0
    }

    /// Whether one more completed click signals a pause.
    pub open spec fn click_signal(self) -> bool {
        self.in_pause || self.clicks + 1 >= self.size
    }

    /// The tracker after one more completed click: counted outside a pause,
    /// entering the pause once the burst is full; unchanged during a pause.
    pub open spec fn clicked(self) -> BurstModel {
        if self.in_pause {
            self
        } else {
            BurstModel {
                clicks: (self.clicks + 1) as u64,
                in_pause: self.clicks + 1 >= self.size,
                ..self
            }
        }
    }

    /// The tracker after `k` more completed clicks.
    pub open spec fn after_clicks(self, k: nat) -> BurstModel
        decreases k,
    {
        if k == 0 {
            self
        } else {
            self.after_clicks((k - 1) as nat).clicked()
        }
    }

    /// The tracker with its burst counter cleared and the pause ended.
    pub open spec fn cleared(self) -> BurstModel {
        BurstModel { clicks: 0, in_pause: false, ..self }
    }
}

/// From a cleared tracker whose burst size is at least one: the first
/// `size - 1` clicks are counted and signal nothing; click number `size`
/// signals a pause and enters it; every later click signals the pause again
/// and changes nothing; clearing returns to the start.
pub proof fn lemma_burst_cycle(size: u64, pause_ms: u64, k: nat)
    requires
        size >= 1,
    ensures
        ({
            let start = BurstModel { clicks: 0, size, pause_ms, in_pause: false };
            let now = start.after_clicks(k);
            &&& k < size ==> now == BurstModel { clicks: k as u64, ..start }
            &&& k + 1 < size ==> !now.click_signal()
            &&& k + 1 >= size ==> now.click_signal()
            &&& k >= size ==> now == BurstModel { clicks: size, in_pause: true, ..start }
            &&& now.cleared() == start
        }),
    decreases k,
{
    if k > 0 {
        lemma_burst_cycle(size, pause_ms, (k - 1) as nat);
    }
}

/// Burst fire: a fixed number of clicks, then a randomized pause.
pub struct BurstTracker {
    clicks_in_burst: u64,
    burst_size: u64,
    pause_ms: u64,
    in_pause: bool,
}

impl View for BurstTracker {
    type V = BurstModel;

    closed spec fn view(&self) -> BurstModel {
        BurstModel {
            clicks: self.clicks_in_burst,
            size: self.burst_size,
            pause_ms: self.pause_ms,
            in_pause: self.in_pause,
        }
    }
}

impl BurstTracker {
    pub fn new(burst_size: u64, pause_ms: u64) -> (r: Self)
        ensures
            r@ == (BurstModel { clicks: 0, size: burst_size, pause_ms, in_pause: false }),
            r@.wf(),
    {
        BurstTracker { clicks_in_burst: 0, burst_size, pause_ms, in_pause: false }
    }

    /// Whether the pause between bursts is on.
    pub fn should_pause(&self) -> (r: bool)
        ensures
            r == self@.in_pause,
    {
        self.in_pause
    }

    /// Clicks counted in the current burst.
    pub fn clicks_in_burst(&self) -> (r: u64)
        ensures
            r == self@.clicks,
    {
        self.clicks_in_burst
    }

    /// A pause length drawn between 80% and 120% of the configured pause.
    pub fn pause_duration(&self) -> (r: u64)
        ensures
            pause_in_band(self@.pause_ms, r),
    {
        if self.pause_ms == 0 {
            return 0;
        }
        let p = self.pause_ms as u128;
        let j = uniform_in(8 * p, 12 * p - 1);
        let tenth = j / 10;
        if tenth > u64::MAX as u128 {
            u64::MAX
        } else {
            tenth as u64
        }
    }

    /// Records a completed click; true when the burst is complete (or the
    /// pause is already on) and no new click should start.
    pub fn click(&mut self) -> (r: bool)
        requires
            old(self)@.wf(),
        ensures
            r == old(self)@.click_signal(),
            final(self)@ == old(self)@.clicked(),
            final(self)@.wf(),
    {
        if self.in_pause {
            return true;
        }
        self.clicks_in_burst = self.clicks_in_burst + 1;
        if self.clicks_in_burst >= self.burst_size {
            self.in_pause = true;
            true
        } else {
            false
        }
    }

    /// Ends the pause and starts a new burst.
    pub fn end_pause(&mut self)
        ensures
            final(self)@ == old(self)@.cleared(),
            final(self)@.wf(),
    {
        self.clicks_in_burst = 0;
        self.in_pause = false;
    }

    /// Clears the burst state (when the trigger is released).
    pub fn reset(&mut self)
        ensures
            final(self)@ == old(self)@.cleared(),
            final(self)@.wf(),
    {
        self.clicks_in_burst = 0;
        self.in_pause = false;
    }
}

} // verus!
