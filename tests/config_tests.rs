use ferrisfire::config::{Config, TriggerButton};
use ferrisfire::device::{BTN_EXTRA, BTN_RIGHT, BTN_SIDE};

fn config_with(click_min: u64, click_max: u64, travel_min: u64, travel_max: u64) -> Config {
    Config {
        device_path: "/dev/input/event5".to_string(),
        trigger_button: TriggerButton::Mouse4,
        click_delay_min_ms: click_min,
        click_delay_max_ms: click_max,
        travel_time_min_ms: travel_min,
        travel_time_max_ms: travel_max,
        ..Config::default()
    }
}

#[test]
fn test_default_config() {
    let config = Config::default();
    assert_eq!(config.device_path, "");
    assert_eq!(config.trigger_button, TriggerButton::Mouse4);
    assert_eq!(config.click_delay_min_ms, 45);
    assert_eq!(config.click_delay_max_ms, 80);
    assert_eq!(config.travel_time_min_ms, 10);
    assert_eq!(config.travel_time_max_ms, 25);
}

#[test]
fn test_trigger_button_key_codes() {
    assert_eq!(evdev::KeyCode(TriggerButton::Mouse4.to_key_code()), evdev::KeyCode::BTN_SIDE);
    assert_eq!(evdev::KeyCode(TriggerButton::Mouse5.to_key_code()), evdev::KeyCode::BTN_EXTRA);
}

#[test]
fn test_trigger_button_display_names() {
    assert_eq!(TriggerButton::Mouse4.display_name(), "Mouse 4 (Side)");
    assert_eq!(TriggerButton::Mouse5.display_name(), "Mouse 5 (Extra)");
}

#[test]
fn test_validate_empty_device_path() {
    let config = Config::default();
    let result = config.validate();
    assert!(result.is_err());
    assert_eq!(result.unwrap_err(), "No device selected");
}

#[test]
fn test_validate_valid_config() {
    let config = Config {
        device_path: "/dev/input/event5".to_string(),
        trigger_button: TriggerButton::Mouse4,
        click_delay_min_ms: 45,
        click_delay_max_ms: 80,
        travel_time_min_ms: 10,
        travel_time_max_ms: 25,
        ..Config::default()
    };
    assert!(config.validate().is_ok());
}

#[test]
fn test_validate_min_delay_greater_than_max() {
    let config = Config {
        device_path: "/dev/input/event5".to_string(),
        trigger_button: TriggerButton::Mouse4,
        click_delay_min_ms: 100,
        click_delay_max_ms: 50,
        travel_time_min_ms: 10,
        travel_time_max_ms: 25,
        ..Config::default()
    };
    let result = config.validate();
    assert!(result.is_err());
    assert_eq!(result.unwrap_err(), "Min delay cannot be greater than max delay");
}

#[test]
fn test_validate_min_travel_greater_than_max() {
    let config = Config {
        device_path: "/dev/input/event5".to_string(),
        trigger_button: TriggerButton::Mouse4,
        click_delay_min_ms: 45,
        click_delay_max_ms: 80,
        travel_time_min_ms: 30,
        travel_time_max_ms: 10,
        ..Config::default()
    };
    let result = config.validate();
    assert!(result.is_err());
    assert_eq!(result.unwrap_err(), "Min travel time cannot be greater than max travel time");
}

#[test]
fn test_validate_delay_too_low() {
    let config = Config {
        device_path: "/dev/input/event5".to_string(),
        trigger_button: TriggerButton::Mouse4,
        click_delay_min_ms: 5,
        click_delay_max_ms: 80,
        travel_time_min_ms: 10,
        travel_time_max_ms: 25,
        ..Config::default()
    };
    let result = config.validate();
    assert!(result.is_err());
    assert_eq!(result.unwrap_err(), "Min delay must be at least 10ms");
}

#[test]
fn test_validate_equal_min_max_is_valid() {
    let config = Config {
        device_path: "/dev/input/event5".to_string(),
        trigger_button: TriggerButton::Mouse4,
        click_delay_min_ms: 50,
        click_delay_max_ms: 50,
        travel_time_min_ms: 20,
        travel_time_max_ms: 20,
        ..Config::default()
    };
    assert!(config.validate().is_ok());
}

#[test]
fn test_trigger_button_equality() {
    assert_eq!(TriggerButton::Mouse4, TriggerButton::Mouse4);
    assert_eq!(TriggerButton::Mouse5, TriggerButton::Mouse5);
    assert_ne!(TriggerButton::Mouse4, TriggerButton::Mouse5);
}

#[test]
fn test_config_clone() {
    let config = Config {
        device_path: "/dev/input/event5".to_string(),
        trigger_button: TriggerButton::Mouse5,
        click_delay_min_ms: 30,
        click_delay_max_ms: 60,
        travel_time_min_ms: 15,
        travel_time_max_ms: 30,
        ..Config::default()
    };
    let cloned = config.clone();
    assert_eq!(cloned.device_path, config.device_path);
    assert_eq!(cloned.trigger_button, config.trigger_button);
}

#[test]
fn test_delay_range_validation() {
    assert!(config_with(10, 50, 10, 25).validate().is_ok());
    assert!(config_with(50, 50, 10, 25).validate().is_ok());
    assert!(config_with(100, 50, 10, 25).validate().is_err());
    assert!(config_with(5, 50, 10, 25).validate().is_err());
}

#[test]
fn validate_reports_first_rule_broken() {
    // empty path and inverted bounds: the path is reported
    let mut config = config_with(100, 50, 30, 10);
    config.device_path = String::new();
    assert_eq!(config.validate().unwrap_err(), "No device selected");
    // both bounds inverted: the click delay is reported
    let config = config_with(100, 50, 30, 10);
    assert_eq!(config.validate().unwrap_err(), "Min delay cannot be greater than max delay");
}

#[test]
fn validate_accepts_extreme_travel_and_pause() {
    let mut config = config_with(45, 80, 10, u64::MAX);
    config.travel_jitter = true;
    config.burst_mode = true;
    config.burst_pause_ms = u64::MAX;
    assert!(config.validate().is_ok());
}

#[test]
fn effective_trigger_code_prefers_recorded_code() {
    let mut config = Config::default();
    assert_eq!(config.effective_trigger_code(), BTN_SIDE);
    config.trigger_button = TriggerButton::Mouse5;
    assert_eq!(config.effective_trigger_code(), BTN_EXTRA);
    config.custom_trigger_code = Some(0x2c0);
    assert_eq!(config.effective_trigger_code(), 0x2c0);
}

#[test]
fn default_config_extras() {
    let config = Config::default();
    assert_eq!(config.custom_trigger_code, None);
    assert!(!config.use_gaussian && !config.travel_jitter && !config.simulate_fatigue);
    assert!(!config.burst_mode && !config.dual_trigger);
    assert_eq!(config.fatigue_max_percent, 30);
    assert_eq!(config.burst_count, 3);
    assert_eq!(config.burst_pause_ms, 150);
    assert_eq!(config.aim_code, BTN_RIGHT);
}
