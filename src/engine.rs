//! The decisions of the proxy's event loop, one tick at a time.
//!
//! The loop itself (reading the physical device, writing the virtual one,
//! the clock, sleeping) runs outside the library: it hands every event read
//! to `ClickEngine::handle_event`, calls `ClickEngine::tick` once per
//! iteration with the current time, and performs the actions returned.
//! Timestamps are microseconds on a monotonic clock; durations are
//! milliseconds.
use crate::config::{trigger_code, validation_error, Config};
use crate::device::InputEvent;
use crate::humanize::{
    delay_in_bounds, fatigue_multiplier, gaussian_click_interval, gaussian_travel_time,
    pause_in_band, random_click_interval, random_travel_time, stretched, travel_in_bounds,
    BurstModel, BurstTracker, FatigueModel, FatigueTracker,
};
use crate::trigger::{TriggerMode, TriggerModel, TriggerState};
use vstd::prelude::*;

verus! {

/// The timing settings of a run.
#[derive(Debug, Clone, Copy, PartialEq, Eq, Structural)]
pub struct Timing {
    pub click_min_ms: u64,
    pub click_max_ms: u64,
    pub travel_min_ms: u64,
    pub travel_max_ms: u64,
    pub use_gaussian: bool,
    pub travel_jitter: bool,
    pub simulate_fatigue: bool,
    pub burst_mode: bool,
}

impl Timing {
    /// The interval before the next press: the raw draw, stretched by the
    /// fatigue multiplier when fatigue is simulated.
    pub open spec fn interval_after(self, f: FatigueModel, raw: u64) -> u64 {
        if self.simulate_fatigue {
            stretched(raw, fatigue_multiplier(f.count, f.percent)) as u64
        } else {
            raw
        }
    }
}

/// The timing settings of a configuration.
pub open spec fn timing_of(c: Config) -> Timing {
    Timing {
        click_min_ms: c.click_delay_min_ms,
        click_max_ms: c.click_delay_max_ms,
        travel_min_ms: c.travel_time_min_ms,
        travel_max_ms: c.travel_time_max_ms,
        use_gaussian: c.use_gaussian,
        travel_jitter: c.travel_jitter,
        simulate_fatigue: c.simulate_fatigue,
        burst_mode: c.burst_mode,
    }
}

/// The trigger mode of a configuration.
pub open spec fn mode_of(c: Config) -> TriggerMode {
    if c.dual_trigger {
        TriggerMode::Dual { aim: c.aim_code, fire: trigger_code(c) }
    } else {
        TriggerMode::Single { code: trigger_code(c) }
    }
}

/// The random values one tick may need: a raw click interval, a travel
/// time and a burst pause.
#[derive(Debug, Clone, Copy, PartialEq, Eq, Structural)]
pub struct Samples {
    pub interval: u64,
    pub travel: u64,
    pub pause: u64,
}

/// Draws from the standard normal distribution, in units of
/// `1 / NORMAL_SCALE`, for normal timing; ignored with uniform timing.
#[derive(Debug, Clone, Copy, PartialEq, Eq, Structural)]
pub struct NormalDraws {
    pub interval_z: i32,
    pub travel_z: i32,
}

/// What to write to the virtual device after a tick: first a release of the
/// synthetic click, then a press.
#[derive(Debug, Clone, Copy, PartialEq, Eq, Structural)]
pub struct TickActions {
    pub release: bool,
    pub press: bool,
}

/// What to write to the virtual device after an event from the physical
/// one: the event itself, then a release of the synthetic click.
#[derive(Debug, Clone, Copy, PartialEq, Eq, Structural)]
pub struct EventActions {
    pub forward: bool,
    pub release: bool,
}

/// Microseconds from `since` to `now`; zero if the clock reads earlier.
pub open spec fn elapsed_us(now: u64, since: u64) -> int {
    if now >= since {
        now - since
    } else {
        0
    }
}

/// At least `ms` milliseconds passed from `since` to `now`.
pub open spec fn waited(now: u64, since: u64, ms: u64) -> bool {
    elapsed_us(now, since) >= ms * 1000
}

/// What the engine holds.
pub struct EngineModel {
    pub timing: Timing,
    pub trigger: TriggerModel,
    pub fatigue: FatigueModel,
    pub burst: BurstModel,
    /// When the synthetic click in flight was pressed.
    pub pressed_since: Option<u64>,
    pub last_release_at: u64,
    pub next_interval: u64,
    pub current_travel: u64,
    /// Start and length of the pause between bursts, while it lasts.
    pub pause: Option<(u64, u64)>,
}

impl EngineModel {
    pub open spec fn wf(self) -> bool {
        &&& self.burst.wf()
        &&& (self.pause is Some <==> self.burst.in_pause)
        &&& !self.timing.burst_mode ==> self.pause is None
        &&& self.pressed_since is Some ==> self.pause is None
    }

    /// Random values that the engine's draws can produce.
    pub open spec fn samples_ok(self, s: Samples) -> bool {
        &&& delay_in_bounds(self.timing.click_min_ms, self.timing.click_max_ms, s.interval)
        &&& travel_in_bounds(
            self.timing.travel_min_ms,
            self.timing.travel_max_ms,
            self.timing.travel_jitter,
            s.travel,
        )
        &&& self.timing.burst_mode ==> pause_in_band(self.burst.pause_ms, s.pause)
    }

    /// First half of a tick: release the click in flight once its travel
    /// time has passed (counting the click for fatigue and burst, and then
    /// either entering the burst pause or setting the next interval), or end
    /// the burst pause once it has passed. The flag says whether a release
    /// is due.
    pub open spec fn release_step(self, now: u64, s: Samples) -> (EngineModel, bool) {
        match self.pressed_since {
            Some(since) => if waited(now, since, self.current_travel) {
                let f = self.fatigue.clicked();
                let signal = self.timing.burst_mode && self.burst.click_signal();
                let b = if self.timing.burst_mode {
                    self.burst.clicked()
                } else {
                    self.burst
                };
                let base = EngineModel {
                    pressed_since: None,
                    last_release_at: now,
                    fatigue: f,
                    burst: b,
                    ..self
                };
                if signal {
                    (EngineModel { pause: Some((now, s.pause)), ..base }, true)
                } else {
                    (
                        EngineModel {
                            next_interval: self.timing.interval_after(f, s.interval),
                            ..base
                        },
                        true,
                    )
                }
            } else {
                (self, false)
            },
            None => match self.pause {
                Some(p) => if waited(now, p.0, p.1) {
                    (
                        EngineModel {
                            pause: None,
                            burst: self.burst.cleared(),
                            last_release_at: now,
                            ..self
                        },
                        false,
                    )
                } else {
                    (self, false)
                },
                None => (self, false),
            },
        }
    }

    /// Second half of a tick: press when firing, with no click in flight,
    /// no burst pause, and the interval passed since the last release.
    pub open spec fn press_step(self, now: u64, s: Samples) -> (EngineModel, bool) {
        if self.trigger.firing() && self.pressed_since is None && self.pause is None && waited(
            now,
            self.last_release_at,
            self.next_interval,
        ) {
            (EngineModel { pressed_since: Some(now), current_travel: s.travel, ..self }, true)
        } else {
            (self, false)
        }
    }

    /// The engine after one tick at `now`, and what to emit.
    pub open spec fn ticked(self, now: u64, s: Samples) -> (EngineModel, TickActions) {
        let (m1, release) = self.release_step(now, s);
        let (m2, press) = m1.press_step(now, s);
        (m2, TickActions { release, press })
    }

    /// The engine after an event from the physical device, and what to
    /// emit. When firing stops the click in flight is released at once and
    /// the fatigue, burst and pause state is cleared.
    pub open spec fn on_event(self, e: InputEvent) -> (EngineModel, EventActions) {
        let t = self.trigger.next(e);
        let forward = self.trigger.forwards(e);
        if self.trigger.firing() && !t.firing() {
            (
                EngineModel {
                    trigger: t,
                    pressed_since: None,
                    fatigue: FatigueModel { count: 0, ..self.fatigue },
                    burst: self.burst.cleared(),
                    pause: None,
                    ..self
                },
                EventActions { forward, release: self.pressed_since is Some },
            )
        } else {
            (EngineModel { trigger: t, ..self }, EventActions { forward, release: false })
        }
    }
}

fn has_waited(now: u64, since: u64, ms: u64) -> (r: bool)
    ensures
        r == waited(now, since, ms),
{
    let elapsed: u64 = if now >= since {
        now - since
    } else {
        0
    };
    let whole_ms = elapsed / 1000;
    assert((elapsed / 1000 >= ms) == (elapsed >= ms * 1000)) by (nonlinear_arith);
    whole_ms >= ms
}

/// The event loop's state: the trigger, the click in flight, the timing of
/// the next click, and the fatigue and burst trackers.
pub struct ClickEngine {
    timing: Timing,
    trigger: TriggerState,
    fatigue: FatigueTracker,
    burst: BurstTracker,
    pressed_since: Option<u64>,
    last_release_at: u64,
    next_interval: u64,
    current_travel: u64,
    pause: Option<(u64, u64)>,
}

impl View for ClickEngine {
    type V = EngineModel;

    closed spec fn view(&self) -> EngineModel {
        EngineModel {
            timing: self.timing,
            trigger: self.trigger@,
            fatigue: self.fatigue@,
            burst: self.burst@,
            pressed_since: self.pressed_since,
            last_release_at: self.last_release_at,
            next_interval: self.next_interval,
            current_travel: self.current_travel,
            pause: self.pause,
        }
    }
}

impl ClickEngine {
    /// A fresh engine for a run started at `now_us`, idle, with the first
    /// interval drawn.
    pub fn new(config: &Config, now_us: u64, normal: NormalDraws) -> (r: Self)
        requires
            validation_error(*config) is None,
        ensures
            r@.wf(),
            r@.timing == timing_of(*config),
            r@.trigger == (TriggerModel { mode: mode_of(*config), primary: false, secondary: false }),
            r@.fatigue == (FatigueModel { count: 0, percent: config.fatigue_max_percent }),
            r@.burst == (BurstModel {
                clicks: 0,
                size: config.burst_count,
                pause_ms: config.burst_pause_ms,
                in_pause: false,
            }),
            r@.pressed_since is None,
            r@.last_release_at == now_us,
            delay_in_bounds(config.click_delay_min_ms, config.click_delay_max_ms, r@.next_interval),
            r@.current_travel == 0,
            r@.pause is None,
    {
        let timing = Timing {
            click_min_ms: config.click_delay_min_ms,
            click_max_ms: config.click_delay_max_ms,
            travel_min_ms: config.travel_time_min_ms,
            travel_max_ms: config.travel_time_max_ms,
            use_gaussian: config.use_gaussian,
            travel_jitter: config.travel_jitter,
            simulate_fatigue: config.simulate_fatigue,
            burst_mode: config.burst_mode,
        };
        let code = config.effective_trigger_code();
        let mode = if config.dual_trigger {
            TriggerMode::Dual { aim: config.aim_code, fire: code }
        } else {
            TriggerMode::Single { code }
        };
        let mut engine = ClickEngine {
            timing,
            trigger: TriggerState::new(mode),
            fatigue: FatigueTracker::new(config.fatigue_max_percent),
            burst: BurstTracker::new(config.burst_count, config.burst_pause_ms),
            pressed_since: None,
            last_release_at: now_us,
            next_interval: 0,
            current_travel: 0,
            pause: None,
        };
        engine.next_interval = engine.draw_interval(normal.interval_z);
        engine
    }

    fn draw_interval(&self, z: i32) -> (r: u64)
        ensures
            delay_in_bounds(self.timing.click_min_ms, self.timing.click_max_ms, r),
    {
        if self.timing.use_gaussian {
            gaussian_click_interval(self.timing.click_min_ms, self.timing.click_max_ms, z)
        } else {
            random_click_interval(self.timing.click_min_ms, self.timing.click_max_ms)
        }
    }

    fn draw_travel(&self, z: i32) -> (r: u64)
        ensures
            travel_in_bounds(
                self.timing.travel_min_ms,
                self.timing.travel_max_ms,
                self.timing.travel_jitter,
                r,
            ),
    {
        let t = self.timing;
        if t.use_gaussian {
            gaussian_travel_time(t.travel_min_ms, t.travel_max_ms, t.travel_jitter, z)
        } else {
            random_travel_time(t.travel_min_ms, t.travel_max_ms, t.travel_jitter)
        }
    }

    /// Whether synthetic clicks are being produced.
    pub fn is_firing(&self) -> (r: bool)
        ensures
            r == self@.trigger.firing(),
    {
        self.trigger.is_firing()
    }

    /// Whether a synthetic click is pressed and not yet released.
    pub fn click_in_flight(&self) -> (r: bool)
        ensures
            r == self@.pressed_since is Some,
    {
        self.pressed_since.is_some()
    }

    /// Whether the pause between bursts is on.
    pub fn in_burst_pause(&self) -> (r: bool)
        ensures
            r == self@.pause is Some,
    {
        self.pause.is_some()
    }

    /// The interval to wait after the last release before the next press.
    pub fn next_interval(&self) -> (r: u64)
        ensures
            r == self@.next_interval,
    {
        self.next_interval
    }

    /// The travel time of the current (or last) synthetic click.
    pub fn current_travel(&self) -> (r: u64)
        ensures
            r == self@.current_travel,
    {
        self.current_travel
    }

    /// Start and length of the current burst pause.
    pub fn burst_pause(&self) -> (r: Option<(u64, u64)>)
        ensures
            r == self@.pause,
    {
        self.pause
    }

    /// Feeds one event read from the physical device.
    pub fn handle_event(&mut self, e: &InputEvent) -> (r: EventActions)
        requires
            old(self)@.wf(),
        ensures
            (final(self)@, r) == old(self)@.on_event(*e),
            final(self)@.wf(),
    {
        let c = self.trigger.handle(e);
        let mut release = false;
        if c.stopped {
            release = self.pressed_since.is_some();
            self.pressed_since = None;
            self.fatigue.reset();
            self.burst.reset();
            self.pause = None;
        }
        EventActions { forward: c.forward, release }
    }

    /// One tick at `now_us` with the random values given.
    pub fn advance(&mut self, now_us: u64, s: Samples) -> (r: TickActions)
        requires
            old(self)@.wf(),
            old(self)@.samples_ok(s),
        ensures
            (final(self)@, r) == old(self)@.ticked(now_us, s),
            final(self)@.wf(),
    {
        let mut release = false;
        match self.pressed_since {
            Some(since) => {
                if has_waited(now_us, since, self.current_travel) {
                    self.pressed_since = None;
                    self.last_release_at = now_us;
                    release = true;
                    self.fatigue.click();
                    let signal = if self.timing.burst_mode {
                        self.burst.click()
                    } else {
                        false
                    };
                    if signal {
                        self.pause = Some((now_us, s.pause));
                    } else if self.timing.simulate_fatigue {
                        self.next_interval = self.fatigue.apply(s.interval);
                    } else {
                        self.next_interval = s.interval;
                    }
                }
            },
            None => {
                match self.pause {
                    Some(p) => {
                        if has_waited(now_us, p.0, p.1) {
                            self.burst.end_pause();
                            self.pause = None;
                            self.last_release_at = now_us;
                        }
                    },
                    None => {},
                }
            },
        }
        let mut press = false;
        if self.trigger.is_firing() && self.pressed_since.is_none() && self.pause.is_none()
            && has_waited(now_us, self.last_release_at, self.next_interval) {
            self.current_travel = s.travel;
            self.pressed_since = Some(now_us);
            press = true;
        }
        TickActions { release, press }
    }

    /// One tick at `now_us`, drawing the random values it may need.
    pub fn tick(&mut self, now_us: u64, normal: NormalDraws) -> (r: TickActions)
        requires
            old(self)@.wf(),
        ensures
            exists|s: Samples|
                #![trigger old(self)@.samples_ok(s)]
                old(self)@.samples_ok(s) && (final(self)@, r) == old(self)@.ticked(now_us, s),
            final(self)@.wf(),
    {
        let interval = self.draw_interval(normal.interval_z);
        let travel = self.draw_travel(normal.travel_z);
        let pause = if self.timing.burst_mode {
            self.burst.pause_duration()
        } else {
            0
        };
        let s = Samples { interval, travel, pause };
        assert(old(self)@.samples_ok(s));
        self.advance(now_us, s)
    }

    /// Ends the run: true when a click is in flight and must be released.
    pub fn stop(&mut self) -> (r: bool)
        ensures
            r == (old(self)@.pressed_since is Some),
            final(self)@ == (EngineModel { pressed_since: None, ..old(self)@ }),
            old(self)@.wf() ==> final(self)@.wf(),
    {
        let r = self.pressed_since.is_some();
        self.pressed_since = None;
        r
    }
}

/// When firing stops, the event that stops it releases the click in flight
/// if there is one, and only then; after it no tick releases or presses
/// anything until firing starts again: no double release, no missed one.
pub proof fn lemma_release_on_stop(m: EngineModel, e: InputEvent, now: u64, s: Samples)
    requires
        m.wf(),
        m.trigger.firing(),
        !m.trigger.next(e).firing(),
    ensures
        m.on_event(e).1.release == (m.pressed_since is Some),
        m.on_event(e).0.pressed_since is None,
        m.on_event(e).0.pause is None,
        !m.on_event(e).0.ticked(now, s).1.release,
        !m.on_event(e).0.ticked(now, s).1.press,
{
}

/// At most one synthetic click is in flight: a tick releases only a click
/// that was pressed, presses only while firing and only when none is
/// pressed once its release is done, and an event never presses.
pub proof fn lemma_one_click_in_flight(m: EngineModel, e: InputEvent, now: u64, s: Samples)
    ensures
        m.ticked(now, s).1.release ==> m.pressed_since is Some,
        m.ticked(now, s).1.press ==> m.trigger.firing(),
        m.ticked(now, s).1.press ==> m.pressed_since is None || m.ticked(now, s).1.release,
        m.ticked(now, s).1.press ==> m.ticked(now, s).0.pressed_since == Some(now),
        m.on_event(e).0.pressed_since is Some ==> m.on_event(e).0.pressed_since
            == m.pressed_since,
{
}

/// Presses are spaced by drawn intervals: a tick that releases a click
/// (without entering a burst pause) sets the next interval to a draw within
/// the click bounds, stretched by fatigue when it is on; and a tick presses
/// only once the current interval has passed since the last release.
pub proof fn lemma_press_spacing(m: EngineModel, now: u64, s: Samples)
    requires
        m.wf(),
        m.samples_ok(s),
    ensures
        ({
            let (m1, a) = m.ticked(now, s);
            let r = m.release_step(now, s).0;
            &&& a.release && m1.pause is None && !m.timing.simulate_fatigue ==> delay_in_bounds(
                m.timing.click_min_ms,
                m.timing.click_max_ms,
                m1.next_interval,
            )
            &&& a.press ==> waited(now, r.last_release_at, r.next_interval)
            &&& a.press ==> m1.current_travel == s.travel
        }),
{
}

/// While a burst pause has not run its length, no tick presses; the pause
/// entered after a full burst lasts 80% to 120% of the configured pause.
pub proof fn lemma_burst_pause_holds(m: EngineModel, now: u64, s: Samples)
    requires
        m.wf(),
        m.samples_ok(s),
    ensures
        m.pause matches Some(p) && !waited(now, p.0, p.1) ==> !m.ticked(now, s).1.press,
        m.pressed_since is Some ==> (m.ticked(now, s).0.pause matches Some(p) ==> p.0 == now
            && pause_in_band(m.burst.pause_ms, p.1)),
{
}

/// Dual-trigger mode with two distinct keys, as the engine sees it: after
/// an event, firing holds exactly when both keys are held; an edge of the
/// aim key is forwarded; an edge of the fire key is forwarded exactly when
/// aim was not held; and when firing stops the click in flight is released
/// at once.
pub proof fn lemma_engine_dual_trigger(m: EngineModel, e: InputEvent)
    requires
        m.trigger.mode is Dual,
        m.trigger.mode->aim != m.trigger.mode->fire,
    ensures
        m.on_event(e).0.trigger.firing() == (m.on_event(e).0.trigger.primary && m.on_event(
            e,
        ).0.trigger.secondary),
        e matches InputEvent::Key { code, .. } && code == m.trigger.mode->aim ==> m.on_event(
            e,
        ).1.forward,
        e matches InputEvent::Key { code, .. } && code == m.trigger.mode->fire ==> m.on_event(
            e,
        ).1.forward == !m.trigger.primary,
        m.trigger.firing() && !m.on_event(e).0.trigger.firing() ==> m.on_event(e).1.release == (
        m.pressed_since is Some) && m.on_event(e).0.pressed_since is None,
{
}

} // verus!
