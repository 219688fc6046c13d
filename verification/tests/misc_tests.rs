use winpc::platform::active_console_matches_sid;
use winpc::agent::default_timer_widget_position;
use winpc::model::AgentCommandResponse;
use winpc::snapshot::{bgra_to_rgba, png_from_capture, snapshot_bytes, snapshot_response};
use winpc::Error;
use winpc::cli::parse_init_config;
use winpc::config::AppConfig;
use winpc::platform::{follow_up, is_protected_user_logged_in, lock_active_console, shutdown_machine, FollowUp};
use winpc::config::PendingExpiryAction;
use winpc::model::UnlockExpiryAction;
use winpc::security::{blob_of_stored_text, seal_bytes, stored_text_of, unseal_bytes};
use winpc::text::{chars_of, parse_i16_chars, parse_u16_chars, trim_chars, wide};

fn args(list: &[&str]) -> Vec<String> {
    list.iter().map(|s| s.to_string()).collect()
}

#[test]
fn sealing_round_trips() {
    let secret = b"$argon2id$v=19$m=19456,t=2,p=1$salt$hash";
    let sealed = seal_bytes(secret).unwrap();
    assert_eq!(unseal_bytes(&sealed).unwrap(), secret.to_vec());
}

#[test]
fn workstation_actions_are_unsupported_here() {
    for sid in [None, Some("S-1-5-21")] {
        let error = lock_active_console(sid).unwrap_err();
        assert_eq!(error.kind(), std::io::ErrorKind::Other);
        assert_eq!(error.to_string(), "windows lock is only supported on Windows");
    }
    let error = shutdown_machine().unwrap_err();
    assert_eq!(error.kind(), std::io::ErrorKind::Other);
    assert_eq!(error.to_string(), "shutdown is only supported on Windows");
}

#[test]
fn protected_user_presence() {
    let sid = Some("S-1-5-21-1".to_string());
    assert!(is_protected_user_logged_in(&sid, &Some("S-1-5-21-1".to_string())));
    assert!(!is_protected_user_logged_in(&sid, &Some("S-1-5-21-2".to_string())));
    assert!(!is_protected_user_logged_in(&sid, &None));
    assert!(is_protected_user_logged_in(&None, &Some("S-1-5-21-2".to_string())));
    assert!(!is_protected_user_logged_in(&None, &None));
}

#[test]
fn follow_ups() {
    let pending = |warn_only, action| PendingExpiryAction { warn_only, action, protected_user_sid: None };
    assert_eq!(follow_up(&pending(true, UnlockExpiryAction::Shutdown)), FollowUp::Skip);
    assert_eq!(follow_up(&pending(false, UnlockExpiryAction::AppLock)), FollowUp::AppLockActive);
    assert_eq!(follow_up(&pending(false, UnlockExpiryAction::WindowsLock)), FollowUp::LockWorkstation);
    assert_eq!(follow_up(&pending(false, UnlockExpiryAction::Shutdown)), FollowUp::ShutDown);
}

#[test]
fn init_config_command_line() {
    assert!(parse_init_config(&args(&[])).unwrap().is_none());
    assert!(parse_init_config(&args(&["--console"])).unwrap().is_none());
    let options = parse_init_config(&args(&[
        "--init-config",
        "--config",
        "/tmp/c.json",
        "--protected-user-sid",
        "S-1",
        "--pin",
        "4321",
        "--warn-only",
    ]))
    .unwrap()
    .unwrap();
    assert_eq!(options.config_path.as_deref(), Some("/tmp/c.json"));
    assert_eq!(options.protected_user_sid.as_deref(), Some("S-1"));
    assert_eq!(options.pin.as_deref(), Some("4321"));
    assert_eq!(options.warn_only, Some(true));
    assert!(!options.all_users);

    let mut config = AppConfig::default();
    options.apply(&mut config).unwrap();
    assert_eq!(config.protected_user_sid.as_deref(), Some("S-1"));
    assert!(config.warn_only);
    assert!(config.verify_pin("4321").is_ok());

    let options = parse_init_config(&args(&["--init-config", "--all-users", "--enforce-lock"])).unwrap().unwrap();
    options.apply(&mut config).unwrap();
    assert_eq!(config.protected_user_sid, None);
    assert!(!config.warn_only);

    assert_eq!(
        parse_init_config(&args(&["--init-config", "--pin"])).unwrap_err(),
        "missing value for --pin"
    );
    assert_eq!(
        parse_init_config(&args(&["--init-config", "--bogus"])).unwrap_err(),
        "unsupported init-config argument: --bogus"
    );
}

#[test]
fn number_parsing_follows_from_str() {
    let p16 = |s: &str| parse_u16_chars(&chars_of(s));
    assert_eq!(p16("65535"), Some(65535));
    assert_eq!(p16("65536"), None);
    assert_eq!(p16("+12"), Some(12));
    assert_eq!(p16("+"), None);
    assert_eq!(p16("-1"), None);
    assert_eq!(p16(""), None);
    assert_eq!(p16(" 1"), None);
    assert_eq!(p16("007"), Some(7));
    let i16p = |s: &str| parse_i16_chars(&chars_of(s));
    assert_eq!(i16p("-32768"), Some(-32768));
    assert_eq!(i16p("32767"), Some(32767));
    assert_eq!(i16p("32768"), None);
    assert_eq!(i16p("-"), None);
    for s in ["0", "17", "-17", "+17", "x", "1x", "99999"] {
        assert_eq!(i16p(s), s.parse::<i16>().ok());
        assert_eq!(p16(s), s.parse::<u16>().ok());
    }
}

#[test]
fn trimming_follows_str_trim() {
    for s in ["  a b  ", "\u{3000}x\u{a0}", "", "   ", "\t\nq\r\n", "\u{200b}z"] {
        let trimmed: String = trim_chars(&chars_of(s)).into_iter().collect();
        assert_eq!(trimmed, s.trim());
    }
}

#[test]
fn snapshots_travel_as_base64_png() {

    let bgra = [10u8, 20, 30, 0, 1, 2, 3, 4];
    assert_eq!(bgra_to_rgba(&bgra), vec![30, 20, 10, 255, 3, 2, 1, 255]);

    let png = png_from_capture(2, 1, &bgra).unwrap();
    assert_eq!(&png[..8], &[0x89, b'P', b'N', b'G', 0x0D, 0x0A, 0x1A, 0x0A]);
    assert!(png_from_capture(0, 2, &[]).is_err());
    assert!(png_from_capture(2, 0, &[]).is_err());

    let response = snapshot_response(Ok(png.clone()));
    match &response {
        AgentCommandResponse::Snapshot { png_base64 } => assert!(png_base64.starts_with("iVBORw0KGgo")),
        other => panic!("unexpected {:?}", other),
    }
    assert_eq!(snapshot_bytes(response).unwrap(), png);

    let failed = snapshot_response(Err("no desktop".to_string()));
    match snapshot_bytes(failed) {
        Err(Error::SnapshotUnavailable(message)) => assert_eq!(message, "no desktop"),
        other => panic!("unexpected {:?}", other),
    }
    let garbled = AgentCommandResponse::Snapshot { png_base64: "***".to_string() };
    assert!(matches!(snapshot_bytes(garbled), Err(Error::SnapshotUnavailable(_))));
}

#[test]
fn timer_widget_starts_top_right() {
    assert_eq!(default_timer_widget_position(0, 0, 1920), (1920 - 220 - 16, 16));
    assert_eq!(default_timer_widget_position(-1280, -10, 3200), (-1280 + 3200 - 236, 6));
    assert_eq!(default_timer_widget_position(i32::MAX, i32::MAX, i32::MAX), (i32::MAX, i32::MAX));
    assert_eq!(default_timer_widget_position(i32::MIN, i32::MIN, 0), (i32::MIN, i32::MIN + 16));
}

#[test]
fn wide_text_is_zero_terminated_utf16() {
    for s in ["", "WinParentalControl", "\u{1f512} Locked", "\u{2192} App lock", "\u{ffff}\u{10000}"] {
        let expected: Vec<u16> = s.encode_utf16().chain(std::iter::once(0)).collect();
        assert_eq!(wide(s), expected);
    }
    assert_eq!(wide("\u{1f512}"), vec![0xD83D, 0xDD12, 0]);
}

#[test]
fn reset_pin_sets_only_the_pin() {
    let mut config = AppConfig::initial().unwrap();
    config.protected_user_sid = Some("S-1-5-21".to_string());
    config.warn_only = true;
    let options = parse_init_config(&args(&["--reset-pin", "--pin", "2468"])).unwrap().unwrap();
    options.apply(&mut config).unwrap();
    assert!(config.verify_pin("2468").is_ok());
    assert!(matches!(config.verify_pin("0000"), Err(Error::InvalidPin)));
    assert_eq!(config.protected_user_sid.as_deref(), Some("S-1-5-21"));
    assert!(config.warn_only);
    assert_eq!(parse_init_config(&args(&["--reset-pin"])).unwrap_err(), "--reset-pin needs --pin <pin>");
}

#[test]
fn a_new_configuration_has_pin_0000() {
    let config = AppConfig::initial().unwrap();
    assert!(config.verify_pin("0000").is_ok());
    assert!(matches!(config.verify_pin("1234"), Err(Error::InvalidPin)));
    assert_eq!(config.unlock_expires_at_utc, None);
    assert!(!config.warn_only);
}

#[test]
fn stored_text_frames_a_blob() {
    let blob = [0u8, 1, 2, 250, 251, 252];
    let text = stored_text_of(&blob);
    assert_eq!(text, "AAEC+vv8");
    assert_eq!(blob_of_stored_text(&text).unwrap(), blob.to_vec());
    assert!(matches!(blob_of_stored_text("not base64!"), Err(Error::SecretUnseal)));
}

#[test]
fn console_sid_matches_only_the_expected_user() {
    assert!(active_console_matches_sid(&Some("S-1-5-21".to_string()), "S-1-5-21"));
    assert!(!active_console_matches_sid(&Some("S-1-5-22".to_string()), "S-1-5-21"));
    assert!(!active_console_matches_sid(&None, "S-1-5-21"));
}
