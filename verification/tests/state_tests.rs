use winpc::config::{AppConfig, ConfigChange};
use winpc::control::{bearer_token, status_for_error, HttpStatus};
use winpc::model::{DeviceMode, UnlockExpiryAction};
use winpc::state::AppState;
use winpc::time::Timestamp;
use winpc::Error;

fn at(secs: i64) -> Timestamp {
    Timestamp::from_unix(secs, 0).unwrap()
}

fn state_with_pin(pin: &str) -> AppState {
    let mut config = AppConfig::default();
    config.set_pin(pin).unwrap();
    AppState::new(config)
}

#[test]
fn status_is_available_without_special_headers() {
    let state = AppState::new(AppConfig::default());
    let status = state.device_status();
    assert_eq!(status.mode, DeviceMode::Locked);
    assert!(!status.protected_user_logged_in);
}

#[test]
fn unlock_requires_session_token() {
    let mut state = state_with_pin("1234");
    // a request without an Authorization header, or with another scheme
    let err = state.require_session("").unwrap_err();
    assert!(matches!(err, Error::InvalidSessionToken));
    assert_eq!(status_for_error(&err), HttpStatus::Unauthorized);
    assert!(bearer_token("Basic 1234").is_none());
}

#[test]
fn snapshot_requires_session_token() {
    let mut state = AppState::new(AppConfig::default());
    let err = state.require_session("made-up-token").unwrap_err();
    assert_eq!(status_for_error(&err), HttpStatus::Unauthorized);
}

#[test]
fn sessions_last_ten_minutes() {
    let mut state = state_with_pin("1234");
    let now = at(1_700_000_000);
    assert!(matches!(state.authenticate("9999", now), Err(Error::InvalidPin)));
    let response = state.authenticate("1234", now).unwrap();
    assert_eq!(response.expires_at_utc.unix_seconds(), 1_700_000_000 + 600);
    assert!(state.require_session_at(&response.token, at(1_700_000_599)).is_ok());
    assert!(state.require_session_at(&response.token, at(1_700_000_600)).is_err());
    // once pruned, it stays refused even for an earlier instant
    assert!(state.require_session_at(&response.token, now).is_err());
}

#[test]
fn recorded_sessions_are_replaced_not_duplicated() {
    let mut state = AppState::new(AppConfig::default());
    state.record_session("t".to_string(), at(100));
    state.record_session("t".to_string(), at(200));
    state.record_session("u".to_string(), at(50));
    assert!(state.require_session_at("t", at(150)).is_ok());
    assert!(state.require_session_at("u", at(150)).is_err());
    assert!(state.require_session_at("v", at(10)).is_err());
}

#[test]
fn changes_are_prepared_without_touching_the_state() {
    let state = AppState::new(AppConfig::default());
    let now = at(1_700_000_000);
    let (next, status) = state
        .prepare_change(
            ConfigChange::Unlock { duration_minutes: 30, expiry_action: Some(UnlockExpiryAction::Shutdown) },
            now,
        )
        .unwrap();
    assert_eq!(status.mode, DeviceMode::Unlocked);
    assert_eq!(status.remaining_minutes, 30);
    assert_eq!(next.unlock_expiry_action, Some(UnlockExpiryAction::Shutdown));
    assert_eq!(state.device_status_at(now).mode, DeviceMode::Locked);
    assert!(matches!(
        state.prepare_change(ConfigChange::Extend { duration_minutes: 500, expiry_action: None }, now),
        Err(Error::InvalidDuration)
    ));
}

#[test]
fn local_changes_need_the_pin() {
    let state = state_with_pin("2468");
    let now = at(1_700_000_000);
    let change = ConfigChange::Unlock { duration_minutes: 10, expiry_action: None };
    assert!(matches!(state.prepare_local_change("1357", change, now), Err(Error::InvalidPin)));
    let (_, status) = state.prepare_local_change("2468", change, now).unwrap();
    assert_eq!(status.remaining_minutes, 10);
}

#[test]
fn agent_launches_are_spaced() {
    let mut state = AppState::new(AppConfig::default());
    let now = at(1_700_000_000);
    assert!(state.should_retry_agent_spawn(now));
    assert!(!state.should_retry_agent_spawn(at(1_700_000_014)));
    assert!(state.should_retry_agent_spawn(at(1_700_000_015)));
}

#[test]
fn supervision_launches_only_for_a_logged_in_user_with_a_stale_agent() {
    let mut state = AppState::new(AppConfig::default());
    let now = at(1_700_000_000);
    let step = state.supervise_agent(now);
    assert!(!step.agent_stale && !step.spawn_agent);
    state.set_protected_user_logged_in(true);
    let step = state.supervise_agent(now);
    assert!(step.agent_stale && step.spawn_agent);
    let step = state.supervise_agent(at(1_700_000_005));
    assert!(step.agent_stale && !step.spawn_agent);

    let (config, _) = state.prepare_change(ConfigChange::RecordHeartbeat, now).unwrap();
    state.replace_config(config);
    let step = state.supervise_agent(at(1_700_000_010));
    assert!(step.status.agent_healthy && !step.agent_stale && !step.spawn_agent);
    let step = state.supervise_agent(at(1_700_000_030));
    assert!(step.agent_stale && step.spawn_agent);
}

#[test]
fn pending_expiry_and_saved_heartbeat_are_prepared() {
    let mut state = AppState::new(AppConfig::default());
    let now = at(1_700_000_000);
    assert!(state.prepare_clear_saved_agent_heartbeat().is_none());
    let (config, _) = state
        .prepare_change(ConfigChange::Unlock { duration_minutes: 1, expiry_action: None }, now)
        .unwrap();
    state.replace_config(config);
    assert!(state.prepare_pending_expiry_action(now).is_none());
    let (next, pending) = state.prepare_pending_expiry_action(at(1_700_000_060)).unwrap();
    assert_eq!(pending.action, UnlockExpiryAction::AppLock);
    assert_eq!(next.unlock_expires_at_utc, None);

    let (config, _) = state.prepare_change(ConfigChange::RecordHeartbeat, now).unwrap();
    state.replace_config(config);
    let cleared = state.prepare_clear_saved_agent_heartbeat().unwrap();
    assert_eq!(cleared.last_agent_heartbeat_utc, None);
}

#[test]
fn agent_unlocks_check_the_pin_before_the_duration() {
    let state = state_with_pin("1234");
    let now = at(1_700_000_000);
    let bad = ConfigChange::Unlock {
        duration_minutes: winpc::control::duration_from_request(-5),
        expiry_action: None,
    };
    assert!(matches!(state.prepare_local_change("0000", bad, now), Err(Error::InvalidPin)));
    assert!(matches!(state.prepare_local_change("1234", bad, now), Err(Error::InvalidDuration)));
    let good = ConfigChange::Unlock { duration_minutes: 15, expiry_action: Some(UnlockExpiryAction::Shutdown) };
    let (next, status) = state.prepare_local_change("1234", good, now).unwrap();
    assert_eq!(status.mode, DeviceMode::Unlocked);
    assert_eq!(status.remaining_minutes, 15);
    assert_eq!(next.unlock_expiry_action, Some(UnlockExpiryAction::Shutdown));
}

#[test]
fn pin_changes_need_the_current_pin() {
    let state = AppState::new(AppConfig::initial().unwrap());
    assert!(matches!(state.prepare_change_pin("1111", "2468"), Err(Error::InvalidPin)));
    let next = state.prepare_change_pin("0000", "2468").unwrap();
    assert!(next.verify_pin("2468").is_ok());
    assert!(matches!(next.verify_pin("0000"), Err(Error::InvalidPin)));
    // the state itself is unchanged until the new configuration is installed
    assert!(state.verify_pin("0000").is_ok());
}

#[test]
fn changes_at_the_current_time_match_the_prepared_ones() {
    let state = AppState::new(AppConfig::default());
    let (next, status) = state.prepare_change_now(ConfigChange::Lock).unwrap();
    assert_eq!(next.unlock_expires_at_utc, None);
    assert_eq!(status.mode, DeviceMode::Locked);
    assert!(matches!(
        state.prepare_change_now(ConfigChange::Unlock { duration_minutes: 0, expiry_action: None }),
        Err(Error::InvalidDuration)
    ));
    let (_, status) =
        state.prepare_change_now(ConfigChange::Unlock { duration_minutes: 30, expiry_action: None }).unwrap();
    assert_eq!(status.remaining_minutes, 30);
}

#[test]
fn session_tokens_are_version_4_uuids() {
    let mut state = state_with_pin("1234");
    let token = state.authenticate("1234", at(1_700_000_000)).unwrap().token;
    let chars: Vec<char> = token.chars().collect();
    assert_eq!(chars.len(), 36);
    for (i, c) in chars.iter().enumerate() {
        if [8, 13, 18, 23].contains(&i) {
            assert_eq!(*c, '-');
        } else {
            assert!(c.is_ascii_digit() || ('a'..='f').contains(c));
        }
    }
    assert_eq!(chars[14], '4');
    assert!(['8', '9', 'a', 'b'].contains(&chars[19]));
    at(1_700_000_000).check_range();
}
