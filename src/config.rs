//! The configuration of one run, and the rules that decide whether a run
//! can start with it.
use crate::device::{BTN_EXTRA, BTN_RIGHT, BTN_SIDE};
use vstd::prelude::*;

verus! {

/// The preset trigger buttons.
#[derive(Debug, Clone, Copy, PartialEq, Eq, Structural)]
pub enum TriggerButton {
    Mouse4,
    Mouse5,
}

/// The key code of a preset trigger button.
pub open spec fn button_code(b: TriggerButton) -> u16 {
    match b {
        TriggerButton::Mouse4 => BTN_SIDE,
        TriggerButton::Mouse5 => BTN_EXTRA,
    }
}

impl TriggerButton {
    pub fn to_key_code(&self) -> (r: u16)
        ensures
            r == button_code(*self),
    {
        match self {
            TriggerButton::Mouse4 => BTN_SIDE,
            TriggerButton::Mouse5 => BTN_EXTRA,
        }
    }

    pub fn display_name(&self) -> (r: &'static str)
        ensures
            r@ == (match *self {
                TriggerButton::Mouse4 => "Mouse 4 (Side)"@,
                TriggerButton::Mouse5 => "Mouse 5 (Extra)"@,
            }),
    {
        match self {
            TriggerButton::Mouse4 => "Mouse 4 (Side)",
            TriggerButton::Mouse5 => "Mouse 5 (Extra)",
        }
    }
}

/// The smallest click interval that a run accepts.
pub const MIN_CLICK_DELAY_MS: u64 = 10;

/// Everything one run of the proxy is started with.
#[derive(Debug, Clone)]
pub struct Config {
    /// The physical device to take over.
    pub device_path: String,
    /// The preset trigger button.
    pub trigger_button: TriggerButton,
    /// A recorded key code that replaces the preset button.
    pub custom_trigger_code: Option<u16>,
    pub click_delay_min_ms: u64,
    pub click_delay_max_ms: u64,
    pub travel_time_min_ms: u64,
    pub travel_time_max_ms: u64,
    /// Normal instead of uniform timing.
    pub use_gaussian: bool,
    /// Occasional extra release time.
    pub travel_jitter: bool,
    pub simulate_fatigue: bool,
    pub fatigue_max_percent: u64,
    pub burst_mode: bool,
    pub burst_count: u64,
    pub burst_pause_ms: u64,
    /// Fire only while the aim key is held as well as the trigger.
    pub dual_trigger: bool,
    /// The aim key of dual-trigger mode.
    pub aim_code: u16,
}

impl Default for Config {
    fn default() -> (r: Self)
        ensures
            r.device_path@.len() == 0,
            r.trigger_button == TriggerButton::Mouse4,
            r.custom_trigger_code is None,
            r.click_delay_min_ms == 45,
            r.click_delay_max_ms == 80,
            r.travel_time_min_ms == 10,
            r.travel_time_max_ms == 25,
            !r.use_gaussian,
            !r.travel_jitter,
            !r.simulate_fatigue,
            r.fatigue_max_percent == 30,
            !r.burst_mode,
            r.burst_count == 3,
            r.burst_pause_ms == 150,
            !r.dual_trigger,
            r.aim_code == BTN_RIGHT,
    {
        Config {
            device_path: String::new(),
            trigger_button: TriggerButton::Mouse4,
            custom_trigger_code: None,
            click_delay_min_ms: 45,
            click_delay_max_ms: 80,
            travel_time_min_ms: 10,
            travel_time_max_ms: 25,
            use_gaussian: false,
            travel_jitter: false,
            simulate_fatigue: false,
            fatigue_max_percent: 30,
            burst_mode: false,
            burst_count: 3,
            burst_pause_ms: 150,
            dual_trigger: false,
            aim_code: BTN_RIGHT,
        }
    }
}

/// The first rule that `c` breaks, as the message reported for it; `None`
/// when a run can start with it.
pub open spec fn validation_error(c: Config) -> Option<Seq<char>> {
    if c.device_path@.len() == 0 {
        Some("No device selected"@)
    } else if c.click_delay_min_ms > c.click_delay_max_ms {
        Some("Min delay cannot be greater than max delay"@)
    } else if c.travel_time_min_ms > c.travel_time_max_ms {
        Some("Min travel time cannot be greater than max travel time"@)
    } else if c.click_delay_min_ms < MIN_CLICK_DELAY_MS {
        Some("Min delay must be at least 10ms"@)
    } else {
        None
    }
}

/// The key code that triggers firing: the recorded one if any, else the
/// preset button's.
pub open spec fn trigger_code(c: Config) -> u16 {
    match c.custom_trigger_code {
        Some(code) => code,
        None => button_code(c.trigger_button),
    }
}

impl Config {
    /// Checks the configuration before a run; the error is the message of
    /// the first rule broken.
    pub fn validate(&self) -> (r: Result<(), String>)
        ensures
            r is Ok <==> validation_error(*self) is None,
            r matches Err(e) ==> validation_error(*self) == Some(e@),
    {
        if self.device_path.as_str().is_empty() {
            return Err("No device selected".to_string());
        }
        if self.click_delay_min_ms > self.click_delay_max_ms {
            return Err("Min delay cannot be greater than max delay".to_string());
        }
        if self.travel_time_min_ms > self.travel_time_max_ms {
            return Err("Min travel time cannot be greater than max travel time".to_string());
        }
        if self.click_delay_min_ms < MIN_CLICK_DELAY_MS {
            return Err("Min delay must be at least 10ms".to_string());
        }
        Ok(())
    }

    /// The key code that triggers firing.
    pub fn effective_trigger_code(&self) -> (r: u16)
        ensures
            r == trigger_code(*self),
    {
        match self.custom_trigger_code {
            Some(code) => code,
            None => self.trigger_button.to_key_code(),
        }
    }
}

} // verus!
