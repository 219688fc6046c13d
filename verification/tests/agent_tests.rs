use winpc::agent::window_update;
use winpc::agent::{
    countdown_text_at, expiry_action_button_text, expiry_action_label, initial_view_mode, layout_controls,
    next_expiry_action, next_poll, target_view_mode, AgentView, ScreenText, ViewMode,
    ID_EXPIRY_ACTION_BUTTON, ID_TIMER_LABEL, ID_TITLE_LABEL,
};
use winpc::model::{DeviceMode, DeviceStatus, IpcRequest, IpcResponse, UnlockExpiryAction};
use winpc::time::Timestamp;

fn at(secs: i64) -> Timestamp {
    Timestamp::from_unix(secs, 0).unwrap()
}

fn status(mode: DeviceMode, warn_only: bool, expires: Option<Timestamp>) -> DeviceStatus {
    DeviceStatus {
        mode,
        warn_only,
        unlock_expires_at_utc: expires,
        unlock_expiry_action: None,
        remaining_minutes: 0,
        agent_healthy: true,
        protected_user_logged_in: true,
        last_seen_at_utc: None,
    }
}

#[test]
fn expiry_actions_cycle_and_have_labels() {
    assert_eq!(next_expiry_action(UnlockExpiryAction::AppLock), UnlockExpiryAction::WindowsLock);
    assert_eq!(next_expiry_action(UnlockExpiryAction::WindowsLock), UnlockExpiryAction::Shutdown);
    assert_eq!(next_expiry_action(UnlockExpiryAction::Shutdown), UnlockExpiryAction::AppLock);
    assert_eq!(expiry_action_label(UnlockExpiryAction::WindowsLock), "Windows lock");
    assert_eq!(expiry_action_button_text(UnlockExpiryAction::Shutdown), "On timeout: Shutdown");
    assert_eq!(UnlockExpiryAction::default(), UnlockExpiryAction::AppLock);
}

#[test]
fn countdown_formats() {
    let now = at(1_700_000_000);
    assert_eq!(countdown_text_at(&status(DeviceMode::Locked, false, None), now), "00:00");
    assert_eq!(
        countdown_text_at(&status(DeviceMode::Unlocked, false, Some(at(1_700_000_000 + 65))), now),
        "01:05"
    );
    assert_eq!(
        countdown_text_at(&status(DeviceMode::Unlocked, false, Some(at(1_700_000_000 + 3 * 3600 + 62))), now),
        "03:01:02"
    );
    assert_eq!(
        countdown_text_at(&status(DeviceMode::Unlocked, false, Some(at(1_700_000_000 + 125 * 3600))), now),
        "125:00:00"
    );
    assert_eq!(countdown_text_at(&status(DeviceMode::Locked, false, Some(at(1_699_999_000))), now), "00:00");
}

#[test]
fn polls_update_status_and_message() {
    let now = at(1_700_000_000);
    let mut view = AgentView::new();
    assert_eq!(view.message, "Waiting for service heartbeat...");

    let locked = status(DeviceMode::Locked, false, None);
    view.apply_poll(Ok(IpcResponse::Ack(locked)), Ok(IpcResponse::State(locked)), now);
    assert_eq!(view.message, "Enter PIN to unlock");

    let mut unlocked = status(DeviceMode::Unlocked, true, Some(at(1_700_000_000 + 90)));
    unlocked.unlock_expiry_action = Some(UnlockExpiryAction::Shutdown);
    view.apply_poll(Ok(IpcResponse::Ack(unlocked)), Ok(IpcResponse::State(unlocked)), now);
    assert_eq!(view.message, "Test: 01:30 remaining");
    assert_eq!(view.selected_expiry_action, UnlockExpiryAction::Shutdown);

    view.apply_poll(Err("pipe closed".to_string()), Ok(IpcResponse::State(locked)), now);
    assert_eq!(view.message, "Service issue - locked");

    view.status = unlocked;
    view.apply_poll(Err("pipe closed".to_string()), Err("no pipe".to_string()), now);
    assert_eq!(view.status.mode, DeviceMode::Locked);
    assert_eq!(view.message, "Service: pipe closed");

    view.apply_poll(
        Ok(IpcResponse::State(locked)),
        Ok(IpcResponse::Error { message: "denied".to_string() }),
        now,
    );
    assert_eq!(view.message, "denied");
}

#[test]
fn failures_in_a_row_are_counted() {
    assert_eq!(next_poll(0, false), Some(1));
    assert_eq!(next_poll(1, false), None);
    assert_eq!(next_poll(1, true), Some(0));
    assert_eq!(next_poll(0, true), Some(0));
}

#[test]
fn unlock_requests_and_answers() {
    let mut view = AgentView::new();
    view.cycle_expiry_action();
    match view.unlock_request("1234".to_string(), "45") {
        IpcRequest::LocalUnlock { pin, duration_minutes, expiry_action } => {
            assert_eq!(pin, "1234");
            assert_eq!(duration_minutes, 45);
            assert_eq!(expiry_action, Some(UnlockExpiryAction::WindowsLock));
        }
        other => panic!("unexpected {:?}", other),
    }
    match view.unlock_request("1234".to_string(), "lots") {
        IpcRequest::LocalUnlock { duration_minutes, .. } => assert_eq!(duration_minutes, 30),
        other => panic!("unexpected {:?}", other),
    }
    match view.unlock_request("1234".to_string(), "-5") {
        IpcRequest::LocalUnlock { duration_minutes, .. } => assert_eq!(duration_minutes, -5),
        other => panic!("unexpected {:?}", other),
    }

    let unlocked = status(DeviceMode::Unlocked, false, Some(at(1_700_000_600)));
    assert!(view.apply_unlock_result(Ok(IpcResponse::Ack(unlocked))));
    assert_eq!(view.message, "Unlocked");
    assert!(!view.apply_unlock_result(Ok(IpcResponse::Error { message: "pin verification failed".to_string() })));
    assert_eq!(view.status.mode, DeviceMode::Locked);
    assert_eq!(view.message, "pin verification failed");
}

#[test]
fn screen_texts_and_view_modes() {
    let now = at(1_700_000_000);
    let mut view = AgentView::new();
    match view.screen_text(now) {
        ScreenText::Lock { title, hint, action_button, message } => {
            assert_eq!(title, "\u{1f512} Locked");
            assert_eq!(hint, "Enter PIN to unlock");
            assert_eq!(action_button, "On timeout: App lock");
            assert_eq!(message, "");
        }
        other => panic!("unexpected {:?}", other),
    }
    view.status = status(DeviceMode::Unlocked, false, Some(at(1_700_000_000 + 59)));
    match view.screen_text(now) {
        ScreenText::Timer { countdown, timeout } => {
            assert_eq!(countdown, "00:59");
            assert_eq!(timeout, "\u{2192} App lock");
        }
        other => panic!("unexpected {:?}", other),
    }
    assert_eq!(target_view_mode(&view.status), ViewMode::TimerWidget);
    assert_eq!(target_view_mode(&status(DeviceMode::Locked, true, None)), ViewMode::WarnOnly);
    assert_eq!(target_view_mode(&status(DeviceMode::Locked, false, None)), ViewMode::FullscreenLock);
}

#[test]
fn layout_centres_the_card() {
    let placements = layout_controls(1920, 1080, false);
    assert_eq!(placements.len(), 11);
    let title = placements.iter().find(|p| p.id == ID_TITLE_LABEL).unwrap();
    assert_eq!((title.x, title.y, title.width, title.height, title.visible), (802, 360, 316, 36, true));
    let button = placements.iter().find(|p| p.id == ID_EXPIRY_ACTION_BUTTON).unwrap();
    assert_eq!((button.x, button.y, button.width), (802 + 162, 360 + 126, 130));
    let timer = placements.iter().find(|p| p.id == ID_TIMER_LABEL).unwrap();
    assert!(!timer.visible);

    let widget = layout_controls(220, 56, true);
    let timer = widget.iter().find(|p| p.id == ID_TIMER_LABEL).unwrap();
    assert_eq!((timer.x, timer.y, timer.width, timer.height, timer.visible), (10, 4, 200, 32, true));
    assert_eq!(widget.iter().filter(|p| p.visible).count(), 2);

    // a window narrower than the card puts it partly off the left edge
    let narrow = layout_controls(100, 100, false);
    let title = narrow.iter().find(|p| p.id == ID_TITLE_LABEL).unwrap();
    assert_eq!((title.x, title.y), (-140 + 32, -130));
}

#[test]
fn window_starts_in_warn_mode_before_timer() {
    let now = at(1_700_000_000);
    let later = Some(at(1_700_000_600));
    assert_eq!(initial_view_mode(&status(DeviceMode::Unlocked, true, later)), ViewMode::WarnOnly);
    assert_eq!(target_view_mode(&status(DeviceMode::Unlocked, true, later)), ViewMode::TimerWidget);
    assert_eq!(initial_view_mode(&status(DeviceMode::Unlocked, false, later)), ViewMode::TimerWidget);
    assert_eq!(initial_view_mode(&status(DeviceMode::Locked, false, None)), ViewMode::FullscreenLock);
    assert_eq!(initial_view_mode(&status(DeviceMode::Locked, true, Some(now))), ViewMode::WarnOnly);
}

#[test]
fn extreme_client_sizes_saturate() {
    let huge = layout_controls(i32::MAX, i32::MAX, false);
    assert_eq!(huge.len(), 11);
    assert!(huge.iter().all(|p| !p.visible || p.y >= 0));
    let tiny = layout_controls(i32::MIN, i32::MIN, true);
    let timer = tiny.iter().find(|p| p.id == ID_TIMER_LABEL).unwrap();
    assert_eq!(timer.width, i32::MIN);
}

#[test]
fn the_window_moves_only_when_its_mode_changes() {
    let locked = status(DeviceMode::Locked, false, None);
    assert_eq!(window_update(None, &locked), (ViewMode::FullscreenLock, true));
    assert_eq!(window_update(Some(ViewMode::FullscreenLock), &locked), (ViewMode::FullscreenLock, false));
    let unlocked = status(DeviceMode::Unlocked, false, Some(at(1_700_000_600)));
    assert_eq!(window_update(Some(ViewMode::FullscreenLock), &unlocked), (ViewMode::TimerWidget, true));
}
