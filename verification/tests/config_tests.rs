use winpc::config::AppConfig;
use winpc::model::{DeviceMode, UnlockExpiryAction};
use winpc::time::Timestamp;
use winpc::Error;

fn minutes_before(t: Timestamp, minutes: i64) -> Timestamp {
    Timestamp::from_unix(t.unix_seconds() - minutes * 60, t.subsec_nanos()).unwrap()
}

fn seconds_after(t: Timestamp, seconds: i64) -> Timestamp {
    Timestamp::from_unix(t.unix_seconds() + seconds, t.subsec_nanos()).unwrap()
}

#[test]
fn pin_roundtrip() {
    let mut config = AppConfig::default();
    config.set_pin("4321").unwrap();

    config.verify_pin("4321").unwrap();
    assert!(config.verify_pin("1111").is_err());
}

#[test]
fn unlock_and_extend_work() {
    let now = Timestamp::now();
    let mut config = AppConfig::default();

    config.unlock_until(30, now).unwrap();
    assert_eq!(config.remaining_minutes(now), 30);

    config.extend_unlock(30, now).unwrap();
    assert_eq!(config.remaining_minutes(now), 60);
}

#[test]
fn expired_unlock_becomes_locked() {
    let now = Timestamp::now();
    let config = AppConfig {
        warn_only: false,
        unlock_expires_at_utc: Some(minutes_before(now, 1)),
        ..AppConfig::default()
    };

    assert_eq!(config.remaining_minutes(now), 0);
    assert_eq!(config.effective_mode(now), DeviceMode::Locked);
}

#[test]
fn wrong_pin_is_invalid_pin_and_a_file_without_hash_is_incomplete() {
    // a new configuration accepts the default PIN 0000
    let config = AppConfig::initial().unwrap();
    assert!(matches!(config.verify_pin("1234"), Err(Error::InvalidPin)));
    assert!(config.verify_pin("0000").is_ok());
    // a configuration file whose hash was removed by hand
    let stripped = AppConfig { pin_hash: None, ..config };
    match stripped.verify_pin("0000") {
        Err(Error::ConfigIncomplete(field)) => assert_eq!(field, "pin_hash"),
        other => panic!("unexpected {:?}", other),
    }
}

#[test]
fn corrupt_pin_hash_is_unseal_error() {
    let config = AppConfig { pin_hash: Some("not base64!".to_string()), ..AppConfig::default() };
    assert!(matches!(config.verify_pin("0000"), Err(Error::SecretUnseal)));
    // valid Base64 of text that is not a PHC string
    let config = AppConfig { pin_hash: Some("aGVsbG8=".to_string()), ..AppConfig::default() };
    assert!(matches!(config.verify_pin("0000"), Err(Error::SecretUnseal)));
}

#[test]
fn durations_outside_one_to_480_are_refused() {
    assert!(matches!(AppConfig::validate_duration_minutes(0), Err(Error::InvalidDuration)));
    assert!(AppConfig::validate_duration_minutes(1).is_ok());
    assert!(AppConfig::validate_duration_minutes(480).is_ok());
    assert!(matches!(AppConfig::validate_duration_minutes(481), Err(Error::InvalidDuration)));

    let now = Timestamp::now();
    let mut config = AppConfig::default();
    assert!(matches!(config.unlock_until(481, now), Err(Error::InvalidDuration)));
    assert_eq!(config.unlock_expires_at_utc, None);
    assert!(matches!(config.extend_unlock(0, now), Err(Error::InvalidDuration)));
    assert_eq!(config.unlock_expires_at_utc, None);
}

#[test]
fn lock_ends_the_unlock() {
    let now = Timestamp::now();
    let mut config = AppConfig::default();
    config.unlock_until(45, now).unwrap();
    assert_eq!(config.effective_mode(now), DeviceMode::Unlocked);
    config.lock();
    assert_eq!(config.effective_mode(now), DeviceMode::Locked);
    assert_eq!(config.remaining_minutes(now), 0);
}

#[test]
fn remaining_minutes_round_up() {
    let now = Timestamp::from_unix(1_700_000_000, 0).unwrap();
    let config = AppConfig { unlock_expires_at_utc: Some(seconds_after(now, 61)), ..AppConfig::default() };
    assert_eq!(config.remaining_minutes(now), 2);
    let config = AppConfig { unlock_expires_at_utc: Some(seconds_after(now, 60)), ..AppConfig::default() };
    assert_eq!(config.remaining_minutes(now), 1);
    // less than a second left: still unlocked, no whole minute reported
    let config = AppConfig {
        unlock_expires_at_utc: Some(Timestamp::from_unix(1_700_000_000, 500_000_000).unwrap()),
        ..AppConfig::default()
    };
    assert_eq!(config.effective_mode(now), DeviceMode::Unlocked);
    assert_eq!(config.remaining_minutes(now), 0);
}

#[test]
fn extend_after_expiry_counts_from_now() {
    let now = Timestamp::from_unix(1_700_000_000, 0).unwrap();
    let mut config = AppConfig { unlock_expires_at_utc: Some(minutes_before(now, 10)), ..AppConfig::default() };
    config.extend_unlock(20, now).unwrap();
    assert_eq!(config.remaining_minutes(now), 20);
}

#[test]
fn heartbeat_is_fresh_for_twenty_seconds() {
    let now = Timestamp::from_unix(1_700_000_000, 0).unwrap();
    let mut config = AppConfig::default();
    assert!(!config.agent_healthy(now));
    config.record_heartbeat(now);
    assert!(config.agent_healthy(now));
    assert!(config.agent_healthy(seconds_after(now, 20)));
    assert!(!config.agent_healthy(seconds_after(now, 21)));
    assert!(config.clear_saved_agent_heartbeat());
    assert!(!config.clear_saved_agent_heartbeat());
    assert!(!config.agent_healthy(now));
}

#[test]
fn status_reports_only_future_deadlines() {
    let now = Timestamp::from_unix(1_700_000_000, 0).unwrap();
    let mut config = AppConfig::default();
    config.unlock_until(5, now).unwrap();
    config.set_expiry_action(UnlockExpiryAction::Shutdown);
    let status = config.status(now, true);
    assert_eq!(status.mode, DeviceMode::Unlocked);
    assert_eq!(status.remaining_minutes, 5);
    assert_eq!(status.unlock_expiry_action, Some(UnlockExpiryAction::Shutdown));
    assert!(status.protected_user_logged_in);

    let later = seconds_after(now, 5 * 60);
    let status = config.status(later, false);
    assert_eq!(status.mode, DeviceMode::Locked);
    assert_eq!(status.unlock_expires_at_utc, None);
    assert_eq!(status.unlock_expiry_action, None);
    assert_eq!(status.remaining_minutes, 0);
}

#[test]
fn expired_unlock_yields_its_follow_up_once() {
    let now = Timestamp::from_unix(1_700_000_000, 0).unwrap();
    let mut config = AppConfig::default();
    config.unlock_until(1, now).unwrap();
    config.set_expiry_action(UnlockExpiryAction::WindowsLock);
    assert!(config.take_pending_expiry_action(now).is_none());
    let later = seconds_after(now, 60);
    let pending = config.take_pending_expiry_action(later).unwrap();
    assert_eq!(pending.action, UnlockExpiryAction::WindowsLock);
    assert!(!pending.warn_only);
    assert!(config.take_pending_expiry_action(later).is_none());
    assert_eq!(config.unlock_expiry_action, None);
}

#[test]
fn follow_up_defaults_to_app_lock() {
    let now = Timestamp::from_unix(1_700_000_000, 0).unwrap();
    let mut config = AppConfig { warn_only: true, ..AppConfig::default() };
    config.unlock_until(1, now).unwrap();
    let pending = config.take_pending_expiry_action(seconds_after(now, 120)).unwrap();
    assert_eq!(pending.action, UnlockExpiryAction::AppLock);
    assert!(pending.warn_only);
}

#[test]
fn unlock_deadline_is_exact() {
    let now = Timestamp::from_unix(1_700_000_000, 123).unwrap();
    let mut config = AppConfig::default();
    config.unlock_until(30, now).unwrap();
    let deadline = config.unlock_expires_at_utc.unwrap();
    assert_eq!(deadline.unix_seconds(), 1_700_000_000 + 1800);
    assert_eq!(deadline.subsec_nanos(), 123);
}
