use claw_core::config::AppConfig;

#[test]
fn defaults_are_reasonable() {
    let c = AppConfig::default();
    assert!(!c.auto_restart_enabled);
    assert!(!c.auto_aggressive);
    assert!(!c.start_at_login);
    assert!(c.watchdog_interval_secs >= 60);
}

#[test]
fn default_interval_is_five_minutes() {
    assert_eq!(AppConfig::default().watchdog_interval_secs, 300);
}
