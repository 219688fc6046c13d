use winpc::control::{
    bearer_token, command_from_json, duration_from_request, lock_fields, member_of, parse_lock_command,
    JsonDocument, JsonLockFields, JsonReading, plan_unlock, status_for_error, HttpStatus, LockCommandError,
    ParsedLockCommand, UnlockPlan,
};
use winpc::config::ConfigChange;
use winpc::model::{LockCommandRequest, UnlockExpiryAction};
use winpc::Error;

fn typed(duration_minutes: i16, expiry_action: Option<UnlockExpiryAction>) -> Option<LockCommandRequest> {
    Some(LockCommandRequest { duration_minutes, expiry_action })
}

#[test]
fn duration_parser_accepts_json_and_form_shapes() {
    assert_eq!(
        parse_lock_command(br#"{"durationMinutes":30}"#, typed(30, None)).unwrap(),
        ParsedLockCommand { duration_minutes: 30, expiry_action: None }
    );
    assert_eq!(
        parse_lock_command(
            br#"{"durationMinutes":45,"expiryAction":"shutdown"}"#,
            typed(45, Some(UnlockExpiryAction::Shutdown))
        )
        .unwrap(),
        ParsedLockCommand { duration_minutes: 45, expiry_action: Some(UnlockExpiryAction::Shutdown) }
    );
    assert_eq!(
        parse_lock_command(
            br#"{"durationMinutes":15,"expiryAction":"app_lock"}"#,
            typed(15, Some(UnlockExpiryAction::AppLock))
        )
        .unwrap(),
        ParsedLockCommand { duration_minutes: 15, expiry_action: Some(UnlockExpiryAction::AppLock) }
    );
    assert_eq!(
        parse_lock_command(
            br#"{"durationMinutes":15,"expiryAction":"agent_lock"}"#,
            typed(15, Some(UnlockExpiryAction::AppLock))
        )
        .unwrap(),
        ParsedLockCommand { duration_minutes: 15, expiry_action: Some(UnlockExpiryAction::AppLock) }
    );
    assert_eq!(
        parse_lock_command(br#""45""#, None).unwrap(),
        ParsedLockCommand { duration_minutes: 45, expiry_action: None }
    );
    assert_eq!(
        parse_lock_command(br#"15"#, None).unwrap(),
        ParsedLockCommand { duration_minutes: 15, expiry_action: None }
    );
    assert_eq!(
        parse_lock_command(b"durationMinutes=20", None).unwrap(),
        ParsedLockCommand { duration_minutes: 20, expiry_action: None }
    );
    assert_eq!(
        parse_lock_command(b"", None).unwrap(),
        ParsedLockCommand { duration_minutes: 30, expiry_action: None }
    );
}

#[test]
fn json_bodies_read_the_same_without_the_typed_reading() {
    assert_eq!(
        parse_lock_command(br#"{"durationMinutes":30}"#, None).unwrap(),
        ParsedLockCommand { duration_minutes: 30, expiry_action: None }
    );
    assert_eq!(
        parse_lock_command(br#"{"durationMinutes":45,"expiryAction":"shutdown"}"#, None).unwrap(),
        ParsedLockCommand { duration_minutes: 45, expiry_action: Some(UnlockExpiryAction::Shutdown) }
    );
    assert_eq!(
        parse_lock_command(br#"{"durationMinutes":15,"expiryAction":"agent_lock"}"#, None).unwrap(),
        ParsedLockCommand { duration_minutes: 15, expiry_action: Some(UnlockExpiryAction::AppLock) }
    );
    assert_eq!(
        parse_lock_command(br#"{"durationMinutes":"25","expiryAction":"windows_lock"}"#, None).unwrap(),
        ParsedLockCommand { duration_minutes: 25, expiry_action: Some(UnlockExpiryAction::WindowsLock) }
    );
}

#[test]
fn bad_bodies_are_refused() {
    assert_eq!(
        parse_lock_command(br#"{"durationMinutes":70000}"#, None),
        Err(LockCommandError::InvalidDuration)
    );
    assert_eq!(
        parse_lock_command(br#"{"durationMinutes":5,"expiryAction":"reboot"}"#, None),
        Err(LockCommandError::InvalidDuration)
    );
    assert_eq!(
        parse_lock_command(br#"{"durationMinutes":"soon"}"#, None),
        Err(LockCommandError::InvalidDuration)
    );
    assert_eq!(parse_lock_command(b"durationMinutes=abc", None), Err(LockCommandError::InvalidDuration));
    assert_eq!(parse_lock_command(b"ten minutes", None), Err(LockCommandError::Unrecognized));
    assert_eq!(parse_lock_command(br#"{"other":1}"#, None), Err(LockCommandError::Unrecognized));
    assert_eq!(parse_lock_command(b"\xff\xfe", None), Err(LockCommandError::Unrecognized));
    assert_eq!(parse_lock_command(b"x", typed(-5, None)), Err(LockCommandError::InvalidDuration));
}

#[test]
fn plain_text_bodies_are_trimmed() {
    assert_eq!(
        parse_lock_command(b"  durationMinutes= 12 \n", None).unwrap(),
        ParsedLockCommand { duration_minutes: 12, expiry_action: None }
    );
    assert_eq!(
        parse_lock_command(b" \t ", None).unwrap(),
        ParsedLockCommand { duration_minutes: 30, expiry_action: None }
    );
    assert_eq!(
        parse_lock_command(b"+7", None).unwrap(),
        ParsedLockCommand { duration_minutes: 7, expiry_action: None }
    );
}

#[test]
fn bearer_tokens_are_read_from_the_header() {
    assert_eq!(bearer_token("Bearer abc-123"), Some("abc-123".to_string()));
    assert_eq!(bearer_token("Bearer "), Some(String::new()));
    assert_eq!(bearer_token("bearer abc"), None);
    assert_eq!(bearer_token("Basic abc"), None);
    assert_eq!(bearer_token(""), None);
}

#[test]
fn errors_map_to_http_statuses() {
    assert_eq!(status_for_error(&Error::InvalidPin), HttpStatus::Unauthorized);
    assert_eq!(status_for_error(&Error::InvalidSessionToken), HttpStatus::Unauthorized);
    assert_eq!(status_for_error(&Error::InvalidDuration), HttpStatus::BadRequest);
    assert_eq!(status_for_error(&Error::ConfigIncomplete("pin_hash")), HttpStatus::ServiceUnavailable);
    assert_eq!(
        status_for_error(&Error::SnapshotUnavailable("no agent".to_string())),
        HttpStatus::ServiceUnavailable
    );
    assert_eq!(status_for_error(&Error::SecretSeal), HttpStatus::InternalServerError);
    assert_eq!(status_for_error(&Error::Time), HttpStatus::InternalServerError);
}

#[test]
fn zero_minute_unlocks_act_at_once() {
    let cmd = |d, a| ParsedLockCommand { duration_minutes: d, expiry_action: a };
    assert_eq!(plan_unlock(cmd(0, None)), UnlockPlan::MissingExpiryAction);
    assert_eq!(plan_unlock(cmd(0, Some(UnlockExpiryAction::AppLock))), UnlockPlan::LockNow);
    assert_eq!(plan_unlock(cmd(0, Some(UnlockExpiryAction::WindowsLock))), UnlockPlan::WindowsLockNow);
    assert_eq!(plan_unlock(cmd(0, Some(UnlockExpiryAction::Shutdown))), UnlockPlan::ShutdownNow);
    assert_eq!(
        plan_unlock(cmd(30, Some(UnlockExpiryAction::Shutdown))),
        UnlockPlan::Unlock(ConfigChange::Unlock {
            duration_minutes: 30,
            expiry_action: Some(UnlockExpiryAction::Shutdown)
        })
    );
}

#[test]
fn agent_durations_are_never_negative() {
    assert_eq!(duration_from_request(45), 45);
    assert_eq!(duration_from_request(0), 0);
    assert_eq!(duration_from_request(-5), 0);
    assert!(winpc::config::AppConfig::validate_duration_minutes(duration_from_request(-5)).is_err());
}

#[test]
fn follow_ups_may_be_given_in_the_object_form() {
    assert_eq!(
        parse_lock_command(br#"{"durationMinutes":"20","expiryAction":{"shutdown":null}}"#, None).unwrap(),
        ParsedLockCommand { duration_minutes: 20, expiry_action: Some(UnlockExpiryAction::Shutdown) }
    );
    assert_eq!(
        parse_lock_command(br#"{"durationMinutes":"20","expiryAction":{"shutdown":1}}"#, None),
        Err(LockCommandError::InvalidDuration)
    );
    assert_eq!(
        parse_lock_command(br#"{"durationMinutes":"20","expiryAction":{"app_lock":null,"shutdown":null}}"#, None),
        Err(LockCommandError::InvalidDuration)
    );
    assert_eq!(
        parse_lock_command(br#"{"durationMinutes":"20","expiryAction":null}"#, None),
        Err(LockCommandError::InvalidDuration)
    );
}

fn fields() -> JsonLockFields {
    JsonLockFields {
        number: None,
        text: None,
        duration_number: None,
        duration_text: None,
        expiry_present: false,
        expiry_text: None,
        expiry_entries: None,
    }
}

#[test]
fn json_readings_give_the_command() {
    assert_eq!(command_from_json(&fields()), None);
    let member = JsonLockFields { duration_number: Some(45), number: Some(7), ..fields() };
    assert_eq!(
        command_from_json(&member),
        Some(Ok(ParsedLockCommand { duration_minutes: 45, expiry_action: None }))
    );
    let document = JsonLockFields { number: Some(7), ..fields() };
    assert_eq!(command_from_json(&document), Some(Ok(ParsedLockCommand { duration_minutes: 7, expiry_action: None })));
    let too_big = JsonLockFields { number: Some(65536), ..fields() };
    assert_eq!(command_from_json(&too_big), Some(Err(LockCommandError::InvalidDuration)));
    let text = JsonLockFields {
        duration_text: Some("+20".to_string()),
        expiry_present: true,
        expiry_entries: Some(vec![("windows_lock".to_string(), true)]),
        ..fields()
    };
    assert_eq!(
        command_from_json(&text),
        Some(Ok(ParsedLockCommand { duration_minutes: 20, expiry_action: Some(UnlockExpiryAction::WindowsLock) }))
    );
    let unknown = JsonLockFields { number: Some(5), expiry_present: true, ..fields() };
    assert_eq!(command_from_json(&unknown), Some(Err(LockCommandError::InvalidDuration)));
}

fn reading(number: Option<u64>, text: Option<&str>) -> JsonReading {
    JsonReading { number, text: text.map(String::from), entries: None }
}

#[test]
fn members_are_picked_by_name() {
    let doc = JsonDocument {
        top: reading(None, None),
        members: Some(vec![
            ("other".to_string(), reading(Some(1), None)),
            ("durationMinutes".to_string(), reading(None, Some("20"))),
            (
                "expiryAction".to_string(),
                JsonReading { number: None, text: None, entries: Some(vec![("shutdown".to_string(), true)]) },
            ),
        ]),
    };
    assert_eq!(member_of(&doc, "other").unwrap().number, Some(1));
    assert!(member_of(&doc, "missing").is_none());
    let fields = lock_fields(&doc);
    assert_eq!(fields.duration_text.as_deref(), Some("20"));
    assert_eq!(fields.duration_number, None);
    assert!(fields.expiry_present);
    assert_eq!(
        command_from_json(&fields),
        Some(Ok(ParsedLockCommand { duration_minutes: 20, expiry_action: Some(UnlockExpiryAction::Shutdown) }))
    );
    let number = JsonDocument { top: reading(Some(15), None), members: None };
    let fields = lock_fields(&number);
    assert!(!fields.expiry_present);
    assert_eq!(command_from_json(&fields), Some(Ok(ParsedLockCommand { duration_minutes: 15, expiry_action: None })));
}
