use ferrisfire::config::{Config, TriggerButton};
use ferrisfire::device::{InputEvent, BTN_LEFT, BTN_RIGHT, BTN_SIDE, REL_X};
use ferrisfire::engine::{ClickEngine, NormalDraws, Samples, TickActions};
use ferrisfire::trigger::{TriggerMode, TriggerState};

const MS: u64 = 1000;
const NO_NORMAL: NormalDraws = NormalDraws { interval_z: 0, travel_z: 0 };

fn base_config() -> Config {
    Config {
        device_path: "/dev/input/event5".to_string(),
        trigger_button: TriggerButton::Mouse4,
        click_delay_min_ms: 45,
        click_delay_max_ms: 80,
        travel_time_min_ms: 10,
        travel_time_max_ms: 25,
        ..Config::default()
    }
}

fn key(code: u16, value: i32) -> InputEvent {
    InputEvent::Key { code, value }
}

#[derive(Default)]
struct Trace {
    presses: Vec<u64>,
    releases: Vec<u64>,
}

impl Trace {
    fn record(&mut self, now: u64, a: TickActions) {
        if a.release {
            self.releases.push(now);
        }
        if a.press {
            self.presses.push(now);
        }
    }
}

fn run(engine: &mut ClickEngine, from: u64, to: u64, step: u64, trace: &mut Trace) {
    let mut now = from;
    while now < to {
        let a = engine.tick(now, NO_NORMAL);
        trace.record(now, a);
        now += step;
    }
}

#[test]
fn scenario_single_trigger_rapid_fire() {
    let config = base_config();
    assert!(config.validate().is_ok());
    let mut engine = ClickEngine::new(&config, 0, NO_NORMAL);
    let first_interval = engine.next_interval();
    assert!((45..=80).contains(&first_interval));

    let a = engine.handle_event(&key(BTN_SIDE, 1));
    assert!(!a.forward && !a.release);
    assert!(engine.is_firing());

    let step = 100;
    let mut trace = Trace::default();
    run(&mut engine, 0, 1000 * MS, step, &mut trace);

    // first press once the first interval has passed
    let t1 = trace.presses[0];
    assert!(t1 <= 80 * MS);
    assert!(t1 >= first_interval * MS && t1 < first_interval * MS + step);
    assert!(trace.presses.len() >= 10);
    for (i, &p) in trace.presses.iter().enumerate() {
        if i < trace.releases.len() {
            let travel = trace.releases[i] - p;
            assert!(travel >= 10 * MS && travel < 25 * MS + step, "travel {}", travel);
        }
        if i > 0 {
            let gap = p - trace.releases[i - 1];
            assert!(gap >= 45 * MS && gap < 80 * MS + step, "gap {}", gap);
        }
    }

    // release the trigger with a click in flight
    let mut now = 1000 * MS;
    while !engine.click_in_flight() {
        let a = engine.tick(now, NO_NORMAL);
        assert!(!a.release || a.press);
        now += step;
    }
    let a = engine.handle_event(&key(BTN_SIDE, 0));
    assert!(!a.forward);
    assert!(a.release);
    assert!(!engine.click_in_flight());
    assert!(!engine.is_firing());

    let mut after = Trace::default();
    run(&mut engine, now, now + 500 * MS, step, &mut after);
    assert!(after.presses.is_empty());
    assert!(after.releases.is_empty());
}

#[test]
fn trigger_release_without_click_in_flight_emits_nothing() {
    let mut engine = ClickEngine::new(&base_config(), 0, NO_NORMAL);
    engine.handle_event(&key(BTN_SIDE, 1));
    let a = engine.handle_event(&key(BTN_SIDE, 0));
    assert!(!a.release);
    let t = engine.tick(200 * MS, NO_NORMAL);
    assert_eq!(t, TickActions { release: false, press: false });
}

#[test]
fn passthrough_events_are_forwarded() {
    let mut engine = ClickEngine::new(&base_config(), 0, NO_NORMAL);
    for e in [
        key(BTN_LEFT, 1),
        key(BTN_LEFT, 0),
        InputEvent::Motion { axis: REL_X, delta: 5 },
        InputEvent::sync_report(),
        InputEvent::Other { kind: 4, code: 4, value: 9 },
    ] {
        let a = engine.handle_event(&e);
        assert!(a.forward && !a.release);
    }
    assert!(!engine.is_firing());
}

#[test]
fn repeat_and_unknown_values_leave_trigger_state() {
    let mut t = TriggerState::new(TriggerMode::Single { code: BTN_SIDE });
    t.handle(&key(BTN_SIDE, 1));
    let c = t.handle(&key(BTN_SIDE, 2));
    assert!(!c.forward && !c.stopped);
    assert!(t.is_firing());
    let c = t.handle(&key(BTN_SIDE, 7));
    assert!(!c.forward && !c.stopped);
    assert!(t.is_firing());
    let c = t.handle(&key(BTN_SIDE, 0));
    assert!(c.stopped);
    assert!(!t.is_firing());
}

#[test]
fn dual_trigger_forwarding_and_firing() {
    let aim = BTN_RIGHT;
    let fire = BTN_SIDE;
    let mut t = TriggerState::new(TriggerMode::Dual { aim, fire });
    // fire alone: forwarded, no firing
    let c = t.handle(&key(fire, 1));
    assert!(c.forward && !t.is_firing());
    let c = t.handle(&key(fire, 0));
    assert!(c.forward && !c.stopped);
    // aim is always forwarded
    let c = t.handle(&key(aim, 1));
    assert!(c.forward && !t.is_firing());
    // fire while aim held: suppressed, firing
    let c = t.handle(&key(fire, 1));
    assert!(!c.forward);
    assert!(t.is_firing());
    // releasing aim stops firing, and is forwarded
    let c = t.handle(&key(aim, 0));
    assert!(c.forward && c.stopped);
    assert!(!t.is_firing());
    // fire release with aim up: forwarded, nothing stops
    let c = t.handle(&key(fire, 0));
    assert!(c.forward && !c.stopped);
    // both again, then release fire: suppressed, stops
    t.handle(&key(aim, 1));
    t.handle(&key(fire, 1));
    assert!(t.is_firing());
    let c = t.handle(&key(fire, 0));
    assert!(!c.forward && c.stopped);
}

#[test]
fn dual_trigger_engine_releases_click_on_aim_release() {
    let mut config = base_config();
    config.dual_trigger = true;
    config.aim_code = BTN_RIGHT;
    let mut engine = ClickEngine::new(&config, 0, NO_NORMAL);
    assert!(engine.handle_event(&key(BTN_RIGHT, 1)).forward);
    assert!(!engine.handle_event(&key(BTN_SIDE, 1)).forward);
    let mut now = 0;
    while !engine.click_in_flight() {
        engine.tick(now, NO_NORMAL);
        now += 100;
    }
    let a = engine.handle_event(&key(BTN_RIGHT, 0));
    assert!(a.forward && a.release);
    assert!(!engine.click_in_flight());
}

#[test]
fn scenario_burst_pause() {
    let mut config = base_config();
    config.burst_mode = true;
    config.burst_count = 4;
    config.burst_pause_ms = 100;
    let mut engine = ClickEngine::new(&config, 0, NO_NORMAL);
    engine.handle_event(&key(BTN_SIDE, 1));

    let step = 100;
    let mut trace = Trace::default();
    let mut now = 0;
    while trace.releases.len() < 4 {
        let a = engine.tick(now, NO_NORMAL);
        trace.record(now, a);
        now += step;
    }
    assert_eq!(trace.presses.len(), 4);
    assert!(engine.in_burst_pause());
    let (start, len) = engine.burst_pause().unwrap();
    assert_eq!(start, trace.releases[3]);
    assert!((80..=120).contains(&len), "pause {}", len);

    while trace.presses.len() < 5 {
        let a = engine.tick(now, NO_NORMAL);
        trace.record(now, a);
        now += step;
    }
    let gap = trace.presses[4] - trace.releases[3];
    assert!(gap >= len * MS, "gap {} shorter than pause {}", gap, len);
    assert!(gap < (len + 80) * MS + 2 * step);
    assert!(!engine.in_burst_pause());
}

#[test]
fn advance_with_given_samples() {
    let mut engine = ClickEngine::new(&base_config(), 0, NO_NORMAL);
    engine.handle_event(&key(BTN_SIDE, 1));
    let s = Samples { interval: 50, travel: 12, pause: 0 };
    let wait = engine.next_interval();
    assert_eq!(engine.advance(wait * MS - 1, s), TickActions { release: false, press: false });
    assert_eq!(engine.advance(wait * MS, s), TickActions { release: false, press: true });
    assert_eq!(engine.current_travel(), 12);
    let t = wait * MS;
    assert_eq!(engine.advance(t + 11_999, s), TickActions { release: false, press: false });
    assert_eq!(engine.advance(t + 12_000, s), TickActions { release: true, press: false });
    assert_eq!(engine.next_interval(), 50);
    assert_eq!(engine.advance(t + 61_999, s), TickActions { release: false, press: false });
    assert_eq!(engine.advance(t + 62_000, s), TickActions { release: false, press: true });
    assert!(engine.stop());
    assert!(!engine.stop());
}

#[test]
fn fatigue_stretches_next_interval() {
    let mut config = base_config();
    config.simulate_fatigue = true;
    config.fatigue_max_percent = 30;
    let mut engine = ClickEngine::new(&config, 0, NO_NORMAL);
    engine.handle_event(&key(BTN_SIDE, 1));
    let s = Samples { interval: 50, travel: 10, pause: 0 };
    let mut now = 0;
    let mut releases = 0;
    while releases < 50 {
        if engine.advance(now, s).release {
            releases += 1;
        }
        now += 100;
    }
    // after 50 clicks the multiplier is 1.3
    assert_eq!(engine.next_interval(), 65);
}

#[test]
fn gaussian_engine_uses_normal_draws() {
    let mut config = base_config();
    config.use_gaussian = true;
    let engine = ClickEngine::new(&config, 0, NormalDraws { interval_z: 0, travel_z: 0 });
    // 45 + 80 = 125, mean 62.5
    assert_eq!(engine.next_interval(), 62);
}
