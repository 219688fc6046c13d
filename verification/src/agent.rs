//! The agent's presentation rules: what its lock screen and timer widget
//! show, how it folds the service's answers into its state, and where its
//! controls go.
use vstd::prelude::*;

use crate::model::{DeviceMode, DeviceStatus, IpcRequest, IpcResponse, UnlockExpiryAction};
use crate::text::{chars_of, parse_i16_chars, parse_i16_spec, string_from_chars};
use crate::time::{trunc_seconds, Timestamp};

verus! {

/// The follow-up that the selector moves to next (the cycle App lock,
/// Windows lock, Shutdown).
pub open spec fn next_action(action: UnlockExpiryAction) -> UnlockExpiryAction {
    match action {
        UnlockExpiryAction::AppLock => UnlockExpiryAction::WindowsLock,
        UnlockExpiryAction::WindowsLock => UnlockExpiryAction::Shutdown,
        UnlockExpiryAction::Shutdown => UnlockExpiryAction::AppLock,
    }
}

/// The next follow-up in the cycle.
pub fn next_expiry_action(action: UnlockExpiryAction) -> (r: UnlockExpiryAction)
    ensures
        r == next_action(action),
{
    match action {
        UnlockExpiryAction::AppLock => UnlockExpiryAction::WindowsLock,
        UnlockExpiryAction::WindowsLock => UnlockExpiryAction::Shutdown,
        UnlockExpiryAction::Shutdown => UnlockExpiryAction::AppLock,
    }
}

/// The display name of a follow-up.
pub open spec fn action_label(action: UnlockExpiryAction) -> Seq<char> {
    match action {
        UnlockExpiryAction::AppLock => "App lock"@,
        UnlockExpiryAction::WindowsLock => "Windows lock"@,
        UnlockExpiryAction::Shutdown => "Shutdown"@,
    }
}

/// The display name of a follow-up.
pub fn expiry_action_label(action: UnlockExpiryAction) -> (r: &'static str)
    ensures
        r@ == action_label(action),
{
    match action {
        UnlockExpiryAction::AppLock => "App lock",
        UnlockExpiryAction::WindowsLock => "Windows lock",
        UnlockExpiryAction::Shutdown => "Shutdown",
    }
}

/// The caption of the follow-up selector.
pub fn expiry_action_button_text(action: UnlockExpiryAction) -> (r: String)
    ensures
        r@ == "On timeout: "@ + action_label(action),
{
    "On timeout: ".to_owned().concat(expiry_action_label(action))
}

/// The agent shows its timer widget (not the lock screen) while unlocked.
pub fn timer_widget_mode(status: &DeviceStatus) -> (r: bool)
    ensures
        r == (status.mode == DeviceMode::Unlocked),
{
    match status.mode {
        DeviceMode::Unlocked => true,
        DeviceMode::Locked => false,
    }
}

/// The decimal digit for `d` (0 to 9).
pub open spec fn digit_char(d: int) -> char {
    if d == 0 { '0' } else if d == 1 { '1' } else if d == 2 { '2' } else if d == 3 { '3' }
    else if d == 4 { '4' } else if d == 5 { '5' } else if d == 6 { '6' } else if d == 7 { '7' }
    else if d == 8 { '8' } else { '9' }
}

/// The decimal notation of `n`.
pub open spec fn decimal(n: nat) -> Seq<char>
    decreases n,
{
    if n < 10 {
        seq![digit_char(n as int)]
    } else {
        decimal(n / 10) + seq![digit_char((n % 10) as int)]
    }
}

/// The decimal notation of `n`, at least two digits.
pub open spec fn two_digits(n: nat) -> Seq<char> {
    if n < 10 {
        seq!['0', digit_char(n as int)]
    } else {
        decimal(n)
    }
}

fn digit(d: u64) -> (r: char)
    requires
        d < 10,
    ensures
        r == digit_char(d as int),
{
    match d {
        0 => '0',
        1 => '1',
        2 => '2',
        3 => '3',
        4 => '4',
        5 => '5',
        6 => '6',
        7 => '7',
        8 => '8',
        _ => '9',
    }
}

fn decimal_chars(n: u64) -> (r: Vec<char>)
    ensures
        r@ == decimal(n as nat),
    decreases n,
{
    if n < 10 {
        let mut v = Vec::new();
        v.push(digit(n));
        assert(v@ =~= seq![digit_char(n as int)]);
        v
    } else {
        let mut v = decimal_chars(n / 10);
        v.push(digit(n % 10));
        v
    }
}

fn two_digit_chars(n: u64) -> (r: Vec<char>)
    ensures
        r@ == two_digits(n as nat),
{
    if n < 10 {
        let mut v = Vec::new();
        v.push('0');
        v.push(digit(n));
        assert(v@ =~= seq!['0', digit_char(n as int)]);
        v
    } else {
        decimal_chars(n)
    }
}

/// Whole seconds left before the status's deadline at `now`, never negative.
pub open spec fn seconds_left(status: DeviceStatus, now: Timestamp) -> int {
    match status.unlock_expires_at_utc {
        Some(e) => if trunc_seconds(e@ - now@) > 0 { trunc_seconds(e@ - now@) } else { 0 },
        None => 0,
    }
}

/// The countdown text: `HH:MM:SS` when at least an hour is left, else
/// `MM:SS`; `00:00` without a deadline.
pub open spec fn countdown(status: DeviceStatus, now: Timestamp) -> Seq<char> {
    let r = seconds_left(status, now);
    let h = r / 3600;
    let m = (r % 3600) / 60;
    let s = r % 60;
    if status.unlock_expires_at_utc is None {
        "00:00"@
    } else if h > 0 {
        two_digits(h as nat) + seq![':'] + two_digits(m as nat) + seq![':'] + two_digits(s as nat)
    } else {
        two_digits(m as nat) + seq![':'] + two_digits(s as nat)
    }
}

/// The countdown text at `now`.
pub fn countdown_text_at(status: &DeviceStatus, now: Timestamp) -> (r: String)
    ensures
        r@ == countdown(*status, now),
{
    let expires_at = match status.unlock_expires_at_utc {
        Some(e) => e,
        None => return "00:00".to_owned(),
    };
    let diff = expires_at.whole_seconds_since(&now);
    let remaining: u64 = if diff > 0 { diff as u64 } else { 0 };
    let hours = remaining / 3600;
    let minutes = (remaining % 3600) / 60;
    let seconds = remaining % 60;
    let mut out: Vec<char> = Vec::new();
    if hours > 0 {
        out = two_digit_chars(hours);
        out.push(':');
    }
    let mut mm = two_digit_chars(minutes);
    out.append(&mut mm);
    out.push(':');
    let mut ss = two_digit_chars(seconds);
    out.append(&mut ss);
    proof {
        let h = two_digits(hours as nat);
        let m = two_digits(minutes as nat);
        let s = two_digits(seconds as nat);
        if hours > 0 {
            assert(out@ =~= h + seq![':'] + m + seq![':'] + s);
        } else {
            assert(out@ =~= m + seq![':'] + s);
        }
    }
    string_from_chars(out.as_slice())
}

/// The countdown text at the current time.
pub fn countdown_text(status: &DeviceStatus) -> (r: String)
    ensures
        exists|now: Timestamp| r@ == countdown(*status, now),
{
    countdown_text_at(status, Timestamp::now())
}


/// Polls that may fail in a row before the agent exits.
pub const SERVICE_DISCONNECT_FAILURES_BEFORE_EXIT: usize = 2;

/// The agent's state, as mathematical values.
pub struct AgentModel {
    pub status: DeviceStatus,
    pub message: Seq<char>,
    pub selected_expiry_action: UnlockExpiryAction,
}

/// What the agent knows and shows: the last status from the service, the
/// message line, and the follow-up chosen on the lock screen.
#[derive(Debug)]
pub struct AgentView {
    pub status: DeviceStatus,
    pub message: String,
    pub selected_expiry_action: UnlockExpiryAction,
}

impl View for AgentView {
    type V = AgentModel;

    open spec fn view(&self) -> AgentModel {
        AgentModel {
            status: self.status,
            message: self.message@,
            selected_expiry_action: self.selected_expiry_action,
        }
    }
}

/// The status assumed before the service has answered: locked, nothing
/// known, the protected user present.
pub open spec fn waiting_status() -> DeviceStatus {
    DeviceStatus {
        mode: DeviceMode::Locked,
        warn_only: false,
        unlock_expires_at_utc: None,
        unlock_expiry_action: None,
        remaining_minutes: 0,
        agent_healthy: false,
        protected_user_logged_in: true,
        last_seen_at_utc: None,
    }
}

/// The follow-up to select after a status arrives: the service's choice, or
/// the current selection when it has none.
pub open spec fn selection_after(status: DeviceStatus, selected: UnlockExpiryAction) -> UnlockExpiryAction {
    match status.unlock_expiry_action {
        Some(a) => a,
        None => selected,
    }
}

/// The message for a fresh state report.
pub open spec fn state_message(status: DeviceStatus, now: Timestamp) -> Seq<char> {
    if status.mode == DeviceMode::Locked && status.warn_only {
        "Test mode: lock would be active"@
    } else if status.mode == DeviceMode::Locked {
        "Enter PIN to unlock"@
    } else if status.warn_only {
        "Test: "@ + countdown(status, now) + " remaining"@
    } else {
        countdown(status, now)
    }
}

/// The agent's state after one poll: a heartbeat answer and a state answer
/// (each an answer of the service or the text of a transport error).
pub open spec fn after_poll(
    old: AgentModel,
    heartbeat: Result<IpcResponse, String>,
    state: Result<IpcResponse, String>,
    now: Timestamp,
) -> AgentModel {
    match (heartbeat, state) {
        (Ok(_), Ok(IpcResponse::State(s))) => AgentModel {
            status: s,
            message: state_message(s, now),
            selected_expiry_action: selection_after(s, old.selected_expiry_action),
        },
        (Ok(IpcResponse::Ack(s)), _) => AgentModel {
            status: s,
            selected_expiry_action: selection_after(s, old.selected_expiry_action),
            ..old
        },
        (_, Ok(IpcResponse::State(s))) => AgentModel {
            status: s,
            message: "Service issue - locked"@,
            selected_expiry_action: selection_after(s, old.selected_expiry_action),
        },
        (Err(e), _) => AgentModel {
            status: DeviceStatus { mode: DeviceMode::Locked, ..old.status },
            message: "Service: "@ + e@,
            ..old
        },
        (_, Err(e)) => AgentModel {
            status: DeviceStatus { mode: DeviceMode::Locked, ..old.status },
            message: "Service: "@ + e@,
            ..old
        },
        (_, Ok(IpcResponse::Error { message })) => AgentModel {
            status: DeviceStatus { mode: DeviceMode::Locked, ..old.status },
            message: message@,
            ..old
        },
        _ => old,
    }
}

/// The agent's state after the answer to its unlock request.
pub open spec fn after_unlock(old: AgentModel, result: Result<IpcResponse, String>) -> AgentModel {
    match result {
        Ok(IpcResponse::Ack(s)) => AgentModel { status: s, message: "Unlocked"@, ..old },
        Ok(IpcResponse::Error { message }) => AgentModel {
            status: DeviceStatus { mode: DeviceMode::Locked, ..old.status },
            message: message@,
            ..old
        },
        Err(e) => AgentModel {
            status: DeviceStatus { mode: DeviceMode::Locked, ..old.status },
            message: e@,
            ..old
        },
        _ => old,
    }
}

/// The polling state after a poll: the number of polls in a row that reached
/// neither answer of the service, or `None` once that number reaches the
/// limit and the agent is to exit. A poll that reaches the service resets the
/// count.
pub open spec fn poll_step(failures: int, service_reachable: bool) -> Option<int> {
    if service_reachable {
        Some(0)
    } else if failures + 1 >= SERVICE_DISCONNECT_FAILURES_BEFORE_EXIT {
        None
    } else {
        Some(failures + 1)
    }
}

/// Counts a poll; `None` means the agent exits now.
pub fn next_poll(failures: usize, service_reachable: bool) -> (r: Option<usize>)
    ensures
        match poll_step(failures as int, service_reachable) {
            Some(n) => r == Some(n as usize),
            None => r is None,
        },
{
    if service_reachable {
        Some(0)
    } else if failures >= SERVICE_DISCONNECT_FAILURES_BEFORE_EXIT - 1 {
        None
    } else {
        Some(failures + 1)
    }
}

/// The duration typed on the lock screen: the text as an `i16`, or thirty
/// minutes when it is not one.
pub open spec fn typed_duration(text: Seq<char>) -> i16 {
    match parse_i16_spec(text) {
        Some(d) => d,
        None => 30,
    }
}

/// Whether `request` is a local unlock with this PIN, duration and
/// follow-up.
pub open spec fn request_is_local_unlock(
    request: IpcRequest,
    pin: Seq<char>,
    duration_minutes: i16,
    action: UnlockExpiryAction,
) -> bool {
    request matches IpcRequest::LocalUnlock { pin: p, duration_minutes: d, expiry_action: a } && p@
        == pin && d == duration_minutes && a == Some(action)
}

impl AgentView {
    /// The state before the service has answered.
    pub fn new() -> (r: AgentView)
        ensures
            r@.status == waiting_status(),
            r@.message == "Waiting for service heartbeat..."@,
            r@.selected_expiry_action == UnlockExpiryAction::AppLock,
    {
        AgentView {
            status: DeviceStatus {
                mode: DeviceMode::Locked,
                warn_only: false,
                unlock_expires_at_utc: None,
                unlock_expiry_action: None,
                remaining_minutes: 0,
                agent_healthy: false,
                protected_user_logged_in: true,
                last_seen_at_utc: None,
            },
            message: "Waiting for service heartbeat...".to_owned(),
            selected_expiry_action: UnlockExpiryAction::AppLock,
        }
    }

    /// Takes in the first status report: the status, its follow-up (App lock
    /// when none) and the matching greeting. Other answers change nothing.
    pub fn apply_initial_response(&mut self, response: Result<IpcResponse, String>)
        ensures
            match response {
                Ok(IpcResponse::State(s)) | Ok(IpcResponse::Ack(s)) => final(self)@ == (AgentModel {
                    status: s,
                    message: if s.warn_only {
                        "Test mode active. Lock is not enforced."@
                    } else {
                        "Waiting for service heartbeat..."@
                    },
                    selected_expiry_action: selection_after(s, UnlockExpiryAction::AppLock),
                }),
                _ => final(self)@ == old(self)@,
            },
    {
        match response {
            Ok(IpcResponse::State(status)) | Ok(IpcResponse::Ack(status)) => {
                self.selected_expiry_action = match status.unlock_expiry_action {
                    Some(a) => a,
                    None => UnlockExpiryAction::AppLock,
                };
                self.message = if status.warn_only {
                    "Test mode active. Lock is not enforced.".to_owned()
                } else {
                    "Waiting for service heartbeat...".to_owned()
                };
                self.status = status;
            },
            _ => {},
        }
    }

    /// Folds one poll into the state.
    pub fn apply_poll(
        &mut self,
        heartbeat: Result<IpcResponse, String>,
        state: Result<IpcResponse, String>,
        now: Timestamp,
    )
        ensures
            final(self)@ == after_poll(old(self)@, heartbeat, state, now),
    {
        match (heartbeat, state) {
            (Ok(_), Ok(IpcResponse::State(status))) => {
                self.selected_expiry_action = match status.unlock_expiry_action {
                    Some(a) => a,
                    None => self.selected_expiry_action,
                };
                let unlocked = timer_widget_mode(&status);
                self.message = if !unlocked && status.warn_only {
                    "Test mode: lock would be active".to_owned()
                } else if !unlocked {
                    "Enter PIN to unlock".to_owned()
                } else if status.warn_only {
                    "Test: ".to_owned().concat(countdown_text_at(&status, now).as_str()).concat(
                        " remaining",
                    )
                } else {
                    countdown_text_at(&status, now)
                };
                self.status = status;
            },
            (Ok(IpcResponse::Ack(status)), _) => {
                self.selected_expiry_action = match status.unlock_expiry_action {
                    Some(a) => a,
                    None => self.selected_expiry_action,
                };
                self.status = status;
            },
            (_, Ok(IpcResponse::State(status))) => {
                self.selected_expiry_action = match status.unlock_expiry_action {
                    Some(a) => a,
                    None => self.selected_expiry_action,
                };
                self.message = "Service issue - locked".to_owned();
                self.status = status;
            },
            (Err(error), _) | (_, Err(error)) => {
                self.status.mode = DeviceMode::Locked;
                self.message = "Service: ".to_owned().concat(error.as_str());
            },
            (_, Ok(IpcResponse::Error { message })) => {
                self.status.mode = DeviceMode::Locked;
                self.message = message;
            },
            _ => {},
        }
    }

    /// Moves the follow-up selector on.
    pub fn cycle_expiry_action(&mut self)
        ensures
            final(self)@ == (AgentModel {
                selected_expiry_action: next_action(old(self)@.selected_expiry_action),
                ..old(self)@
            }),
    {
        self.selected_expiry_action = next_expiry_action(self.selected_expiry_action);
    }

    /// The unlock request for the lock screen's PIN and duration text, with
    /// the selected follow-up.
    pub fn unlock_request(&self, pin: String, duration_text: &str) -> (r: IpcRequest)
        ensures
            request_is_local_unlock(
                r,
                pin@,
                typed_duration(duration_text@),
                self.selected_expiry_action,
            ),
    {
        let chars = chars_of(duration_text);
        let duration = match parse_i16_chars(&chars) {
            Some(d) => d,
            None => 30,
        };
        IpcRequest::LocalUnlock {
            pin,
            duration_minutes: duration,
            expiry_action: Some(self.selected_expiry_action),
        }
    }

    /// Folds the answer to an unlock request into the state; says whether
    /// the unlock succeeded (and the screen should be redrawn).
    pub fn apply_unlock_result(&mut self, result: Result<IpcResponse, String>) -> (r: bool)
        ensures
            r == (result matches Ok(IpcResponse::Ack(_))),
            final(self)@ == after_unlock(old(self)@, result),
    {
        match result {
            Ok(IpcResponse::Ack(status)) => {
                self.status = status;
                self.message = "Unlocked".to_owned();
                true
            },
            Ok(IpcResponse::Error { message }) => {
                self.status.mode = DeviceMode::Locked;
                self.message = message;
                false
            },
            Err(error) => {
                self.status.mode = DeviceMode::Locked;
                self.message = error;
                false
            },
            _ => false,
        }
    }
}

/// How the agent's window is shown.
#[derive(Debug, Clone, Copy, PartialEq, Eq, Structural)]
pub enum ViewMode {
    /// Full-screen lock over the whole virtual desktop.
    FullscreenLock,
    /// Small countdown widget while unlocked.
    TimerWidget,
    /// An ordinary window in warn-only mode.
    WarnOnly,
}

/// The timer widget while unlocked; otherwise an ordinary window in
/// warn-only mode, and the full-screen lock when enforcing.
pub open spec fn view_mode_for(status: DeviceStatus) -> ViewMode {
    if status.mode == DeviceMode::Unlocked {
        ViewMode::TimerWidget
    } else if status.warn_only {
        ViewMode::WarnOnly
    } else {
        ViewMode::FullscreenLock
    }
}

/// The window presentation for a status.
pub fn target_view_mode(status: &DeviceStatus) -> (r: ViewMode)
    ensures
        r == view_mode_for(*status),
{
    if timer_widget_mode(status) {
        ViewMode::TimerWidget
    } else if status.warn_only {
        ViewMode::WarnOnly
    } else {
        ViewMode::FullscreenLock
    }
}

/// What a refresh does to the window: the presentation to show, and
/// whether the window must be moved and restyled (only when the presentation
/// changes).
pub fn window_update(current: Option<ViewMode>, status: &DeviceStatus) -> (r: (ViewMode, bool))
    ensures
        r.0 == view_mode_for(*status),
        r.1 == (current != Some(view_mode_for(*status))),
{
    let target = target_view_mode(status);
    let changed = match (current, target) {
        (Some(ViewMode::FullscreenLock), ViewMode::FullscreenLock) => false,
        (Some(ViewMode::TimerWidget), ViewMode::TimerWidget) => false,
        (Some(ViewMode::WarnOnly), ViewMode::WarnOnly) => false,
        _ => true,
    };
    (target, changed)
}

/// The presentation the window is created with: warn-only mode takes
/// precedence here, then the timer widget while unlocked, else the
/// full-screen lock. (Once running, `view_mode_for` decides.)
pub open spec fn initial_view_mode_for(status: DeviceStatus) -> ViewMode {
    if status.warn_only {
        ViewMode::WarnOnly
    } else if status.mode == DeviceMode::Unlocked {
        ViewMode::TimerWidget
    } else {
        ViewMode::FullscreenLock
    }
}

/// The presentation the window is created with.
pub fn initial_view_mode(status: &DeviceStatus) -> (r: ViewMode)
    ensures
        r == initial_view_mode_for(*status),
{
    if status.warn_only {
        ViewMode::WarnOnly
    } else if timer_widget_mode(status) {
        ViewMode::TimerWidget
    } else {
        ViewMode::FullscreenLock
    }
}

/// The texts that the agent's window shows.
#[derive(Debug)]
pub enum ScreenText {
    /// The timer widget: the countdown and the follow-up (`→ <name>`).
    Timer { countdown: String, timeout: String },
    /// The lock screen: title, hint, follow-up selector caption and message.
    Lock { title: String, hint: String, action_button: String, message: String },
}

/// The follow-up to show: the service's, else the local selection.
pub open spec fn shown_action(model: AgentModel) -> UnlockExpiryAction {
    match model.status.unlock_expiry_action {
        Some(a) => a,
        None => model.selected_expiry_action,
    }
}

/// The lock screen's message line: the state's message, except that the
/// hint itself and the initial waiting text are not repeated.
pub open spec fn shown_message(message: Seq<char>) -> Seq<char> {
    if message == "Enter PIN to unlock"@ || message == "Waiting for service heartbeat..."@ {
        Seq::empty()
    } else {
        message
    }
}

impl AgentView {
    /// The texts to show at `now`.
    pub fn screen_text(&self, now: Timestamp) -> (r: ScreenText)
        ensures
            match r {
                ScreenText::Timer { countdown: c, timeout: t } => {
                    &&& self.status.mode == DeviceMode::Unlocked
                    &&& c@ == countdown(self.status, now)
                    &&& t@ == "\u{2192} "@ + action_label(shown_action(self@))
                },
                ScreenText::Lock { title, hint, action_button, message } => {
                    &&& self.status.mode == DeviceMode::Locked
                    &&& title@ == (if self.status.warn_only {
                        "\u{1f513} Test Mode"@
                    } else {
                        "\u{1f512} Locked"@
                    })
                    &&& hint@ == "Enter PIN to unlock"@
                    &&& action_button@ == "On timeout: "@ + action_label(shown_action(self@))
                    &&& message@ == shown_message(self.message@)
                },
            },
    {
        let action = match self.status.unlock_expiry_action {
            Some(a) => a,
            None => self.selected_expiry_action,
        };
        if timer_widget_mode(&self.status) {
            return ScreenText::Timer {
                countdown: countdown_text_at(&self.status, now),
                timeout: "\u{2192} ".to_owned().concat(expiry_action_label(action)),
            };
        }
        let title = if self.status.warn_only {
            "\u{1f513} Test Mode".to_owned()
        } else {
            "\u{1f512} Locked".to_owned()
        };
        let hint = "Enter PIN to unlock".to_owned();
        let message = if self.message == hint || self.message
            == "Waiting for service heartbeat...".to_owned() {
            String::new()
        } else {
            self.message.clone()
        };
        ScreenText::Lock { title, hint, action_button: expiry_action_button_text(action), message }
    }
}

/// Control of the lock screen's title.
pub const ID_TITLE_LABEL: i32 = 2004;
/// Control of the countdown.
pub const ID_TIMER_LABEL: i32 = 2007;
/// Control of the hint line.
pub const ID_HINT_LABEL: i32 = 2006;
/// Control of the PIN field.
pub const ID_PIN_EDIT: i32 = 2001;
/// Control of the duration field.
pub const ID_DURATION_EDIT: i32 = 2002;
/// Control of the follow-up selector.
pub const ID_EXPIRY_ACTION_BUTTON: i32 = 2008;
/// Control of the unlock button.
pub const ID_UNLOCK_BUTTON: i32 = 2003;
/// Control of the message line.
pub const ID_MESSAGE_LABEL: i32 = 2005;
/// Control of the widget's PIN field.
pub const ID_TIMER_PIN_EDIT: i32 = 2009;
/// Control of the widget's extend button.
pub const ID_TIMER_EXTEND_BUTTON: i32 = 2010;
/// Control of the widget's follow-up label.
pub const ID_TIMEOUT_ACTION_LABEL: i32 = 2011;

/// Width of the lock screen's card.
pub const LOCK_CARD_WIDTH: i32 = 380;
/// Height of the lock screen's card.
pub const LOCK_CARD_HEIGHT: i32 = 360;

/// Where a control goes: shown at a rectangle, or hidden off screen.
#[derive(Debug, Clone, Copy, PartialEq, Eq, Structural)]
pub struct ControlPlacement {
    pub id: i32,
    pub x: i32,
    pub y: i32,
    pub width: i32,
    pub height: i32,
    pub visible: bool,
}

/// `v` limited to the range of `i32`.
pub open spec fn saturated(v: int) -> i32 {
    if v < i32::MIN {
        i32::MIN
    } else if v > i32::MAX {
        i32::MAX
    } else {
        v as i32
    }
}

/// A shown control (coordinates beyond the range of `i32` are limited to it).
pub open spec fn shown(id: i32, x: int, y: int, width: int, height: int) -> ControlPlacement {
    ControlPlacement {
        id,
        x: saturated(x),
        y: saturated(y),
        width: saturated(width),
        height: saturated(height),
        visible: true,
    }
}

/// A hidden control, parked off screen.
pub open spec fn hidden(id: i32) -> ControlPlacement {
    ControlPlacement { id, x: -9999i32, y: -9999i32, width: 0, height: 0, visible: false }
}

/// Half of `v`, rounded toward zero (as integer division does).
pub open spec fn half_toward_zero(v: int) -> int {
    if v >= 0 {
        v / 2
    } else {
        -((-v) / 2)
    }
}

/// The layout for a client area of `width` by `height`. The timer widget
/// shows only the countdown and the follow-up label; the lock screen centres
/// a card holding title, hint, PIN field, duration and follow-up side by
/// side, the unlock button and the message line.
pub open spec fn layout(width: int, height: int, timer_widget: bool) -> Seq<ControlPlacement> {
    if timer_widget {
        seq![
            hidden(ID_TITLE_LABEL),
            shown(ID_TIMER_LABEL, 10, 4, width - 20, 32),
            hidden(ID_HINT_LABEL),
            hidden(ID_PIN_EDIT),
            hidden(ID_DURATION_EDIT),
            hidden(ID_EXPIRY_ACTION_BUTTON),
            hidden(ID_UNLOCK_BUTTON),
            hidden(ID_MESSAGE_LABEL),
            hidden(ID_TIMER_PIN_EDIT),
            hidden(ID_TIMER_EXTEND_BUTTON),
            shown(ID_TIMEOUT_ACTION_LABEL, 10, 36, width - 20, 16),
        ]
    } else {
        let cx = half_toward_zero(width - LOCK_CARD_WIDTH);
        let cy = half_toward_zero(height - LOCK_CARD_HEIGHT);
        let ix = cx + 32;
        seq![
            shown(ID_TITLE_LABEL, ix, cy, 316, 36),
            hidden(ID_TIMER_LABEL),
            shown(ID_HINT_LABEL, ix, cy + 48, 316, 20),
            shown(ID_PIN_EDIT, ix + 24, cy + 80, 268, 36),
            shown(ID_DURATION_EDIT, ix + 24, cy + 126, 130, 32),
            shown(ID_EXPIRY_ACTION_BUTTON, ix + 162, cy + 126, 130, 32),
            shown(ID_UNLOCK_BUTTON, ix + 24, cy + 170, 268, 40),
            shown(ID_MESSAGE_LABEL, ix, cy + 222, 316, 20),
            hidden(ID_TIMER_PIN_EDIT),
            hidden(ID_TIMER_EXTEND_BUTTON),
            hidden(ID_TIMEOUT_ACTION_LABEL),
        ]
    }
}

fn saturate(v: i64) -> (r: i32)
    ensures
        r == saturated(v as int),
{
    if v < i32::MIN as i64 {
        i32::MIN
    } else if v > i32::MAX as i64 {
        i32::MAX
    } else {
        v as i32
    }
}

fn place(out: &mut Vec<ControlPlacement>, id: i32, x: i64, y: i64, width: i64, height: i64)
    ensures
        final(out)@ == old(out)@.push(shown(id, x as int, y as int, width as int, height as int)),
{
    out.push(
        ControlPlacement {
            id,
            x: saturate(x),
            y: saturate(y),
            width: saturate(width),
            height: saturate(height),
            visible: true,
        },
    );
}

fn park(out: &mut Vec<ControlPlacement>, id: i32)
    ensures
        final(out)@ == old(out)@.push(hidden(id)),
{
    out.push(ControlPlacement { id, x: -9999, y: -9999, width: 0, height: 0, visible: false });
}

/// Computes where every control goes, in a fixed order of controls.
pub fn layout_controls(width: i32, height: i32, timer_widget: bool) -> (r: Vec<ControlPlacement>)
    ensures
        r@ == layout(width as int, height as int, timer_widget),
{
    let w = width as i64;
    let h = height as i64;
    let mut out: Vec<ControlPlacement> = Vec::new();
    if timer_widget {
        let pad: i64 = 10;
        park(&mut out, ID_TITLE_LABEL);
        place(&mut out, ID_TIMER_LABEL, pad, 4, w - 2 * pad, 32);
        park(&mut out, ID_HINT_LABEL);
        park(&mut out, ID_PIN_EDIT);
        park(&mut out, ID_DURATION_EDIT);
        park(&mut out, ID_EXPIRY_ACTION_BUTTON);
        park(&mut out, ID_UNLOCK_BUTTON);
        park(&mut out, ID_MESSAGE_LABEL);
        park(&mut out, ID_TIMER_PIN_EDIT);
        park(&mut out, ID_TIMER_EXTEND_BUTTON);
        place(&mut out, ID_TIMEOUT_ACTION_LABEL, pad, 36, w - 2 * pad, 16);
        assert(out@ =~= layout(width as int, height as int, timer_widget));
        return out;
    }
    let cw = LOCK_CARD_WIDTH as i64;
    let cx = (w - cw) / 2;
    let cy = (h - LOCK_CARD_HEIGHT as i64) / 2;
    let pad: i64 = 32;
    let inner_w = cw - 2 * pad;
    let ix = cx + pad;
    let mut y = cy;
    let pin_inset: i64 = 24;
    let half = (inner_w - pin_inset * 2 - 8) / 2;
    place(&mut out, ID_TITLE_LABEL, ix, y, inner_w, 36);
    park(&mut out, ID_TIMER_LABEL);
    y = y + 48;
    place(&mut out, ID_HINT_LABEL, ix, y, inner_w, 20);
    y = y + 32;
    place(&mut out, ID_PIN_EDIT, ix + pin_inset, y, inner_w - 2 * pin_inset, 36);
    y = y + 46;
    place(&mut out, ID_DURATION_EDIT, ix + pin_inset, y, half, 32);
    place(&mut out, ID_EXPIRY_ACTION_BUTTON, ix + pin_inset + half + 8, y, half, 32);
    y = y + 44;
    place(&mut out, ID_UNLOCK_BUTTON, ix + pin_inset, y, inner_w - 2 * pin_inset, 40);
    y = y + 52;
    place(&mut out, ID_MESSAGE_LABEL, ix, y, inner_w, 20);
    park(&mut out, ID_TIMER_PIN_EDIT);
    park(&mut out, ID_TIMER_EXTEND_BUTTON);
    park(&mut out, ID_TIMEOUT_ACTION_LABEL);
    assert(out@ =~= layout(width as int, height as int, timer_widget));
    out
}

/// Width of the timer widget.
pub const TIMER_WIDGET_WIDTH: i32 = 220;
/// Height of the timer widget.
pub const TIMER_WIDGET_HEIGHT: i32 = 56;
/// Gap between the timer widget and the screen edges.
pub const TIMER_WIDGET_MARGIN: i32 = 16;

/// Where the timer widget starts: the top right corner of the virtual
/// screen whose left edge, top edge and width are given, inset by the margin
/// (limited to the range of `i32`).
pub fn default_timer_widget_position(left: i32, top: i32, width: i32) -> (r: (i32, i32))
    ensures
        r.0 == saturated(left + width - TIMER_WIDGET_WIDTH - TIMER_WIDGET_MARGIN),
        r.1 == saturated(top + TIMER_WIDGET_MARGIN),
{
    (
        saturate(left as i64 + width as i64 - TIMER_WIDGET_WIDTH as i64 - TIMER_WIDGET_MARGIN as i64),
        saturate(top as i64 + TIMER_WIDGET_MARGIN as i64),
    )
}

/// The follow-up selector runs through all three actions and returns to the
/// start after three steps.
pub proof fn law_selector_cycles(action: UnlockExpiryAction)
    ensures
        next_action(next_action(next_action(action))) == action,
        next_action(action) != action,
{
}

/// A poll that reaches neither answer of the service leaves the agent locked.
pub proof fn law_unreachable_service_locks(
    old: AgentModel,
    heartbeat: String,
    state: String,
    now: Timestamp,
)
    ensures
        after_poll(old, Err(heartbeat), Err(state), now).status.mode == DeviceMode::Locked,
{
}

/// The agent exits exactly at the second poll in a row that reaches neither
/// answer of the service: counting from zero, one such poll only counts, the
/// next one ends the agent, and any poll that reaches the service starts the
/// count again.
pub proof fn law_agent_exits_after_two_unreachable_polls(failures: int)
    requires
        0 <= failures < SERVICE_DISCONNECT_FAILURES_BEFORE_EXIT,
    ensures
        poll_step(0, false) == Some(1int),
        poll_step(1, false) is None,
        poll_step(failures, true) == Some(0int),
        poll_step(failures, false) is None <==> failures == 1,
{
}

/// Whether a poll's answers delivered the status `s`.
pub open spec fn poll_delivered(
    heartbeat: Result<IpcResponse, String>,
    state: Result<IpcResponse, String>,
    s: DeviceStatus,
) -> bool {
    ||| heartbeat == Ok::<IpcResponse, String>(IpcResponse::Ack(s))
    ||| heartbeat == Ok::<IpcResponse, String>(IpcResponse::State(s))
    ||| state == Ok::<IpcResponse, String>(IpcResponse::State(s))
    ||| state == Ok::<IpcResponse, String>(IpcResponse::Ack(s))
}

/// A poll keeps the follow-up chosen on the lock screen unless the service
/// reports one: when no status it delivered carries a follow-up, the
/// selection is unchanged; otherwise the selection is either unchanged or a
/// follow-up that a delivered status carries. A status that arrives with
/// the state answer and carries a follow-up is always selected.
pub proof fn law_poll_keeps_the_chosen_follow_up(
    old: AgentModel,
    heartbeat: Result<IpcResponse, String>,
    state: Result<IpcResponse, String>,
    now: Timestamp,
)
    ensures
        (forall|s: DeviceStatus| #[trigger]
            poll_delivered(heartbeat, state, s) ==> s.unlock_expiry_action is None) ==> after_poll(
            old,
            heartbeat,
            state,
            now,
        ).selected_expiry_action == old.selected_expiry_action,
        after_poll(old, heartbeat, state, now).selected_expiry_action == old.selected_expiry_action
            || exists|s: DeviceStatus| #[trigger]
            poll_delivered(heartbeat, state, s) && s.unlock_expiry_action == Some(
                after_poll(old, heartbeat, state, now).selected_expiry_action,
            ),
        state matches Ok(IpcResponse::State(s)) ==> (s.unlock_expiry_action matches Some(a)
            ==> after_poll(old, heartbeat, state, now).selected_expiry_action == a),
{
    match (heartbeat, state) {
        (Ok(_), Ok(IpcResponse::State(s))) => {
            assert(poll_delivered(heartbeat, state, s));
        },
        (Ok(IpcResponse::Ack(s)), _) => {
            assert(poll_delivered(heartbeat, state, s));
        },
        (_, Ok(IpcResponse::State(s))) => {
            assert(poll_delivered(heartbeat, state, s));
        },
        _ => {},
    }
}

/// The lock screen always offers what an unlock needs: in its layout the PIN
/// field, the duration field, the follow-up selector and the unlock button
/// each appear, and every entry for them is shown; the timer widget hides
/// them all.
pub proof fn law_lock_screen_offers_the_unlock_controls(width: int, height: int)
    ensures
        forall|i: int|
            0 <= i < layout(width, height, false).len() && is_unlock_control(
                #[trigger] layout(width, height, false)[i].id,
            ) ==> layout(width, height, false)[i].visible,
        forall|id: i32|
            #[trigger] is_unlock_control(id) ==> exists|i: int|
                0 <= i < layout(width, height, false).len() && layout(width, height, false)[i].id
                    == id,
        forall|i: int|
            0 <= i < layout(width, height, true).len() && is_unlock_control(
                #[trigger] layout(width, height, true)[i].id,
            ) ==> !layout(width, height, true)[i].visible,
{
    let l = layout(width, height, false);
    assert(l[3].id == ID_PIN_EDIT && l[4].id == ID_DURATION_EDIT && l[5].id == ID_EXPIRY_ACTION_BUTTON
        && l[6].id == ID_UNLOCK_BUTTON);
}

/// Whether a control is one that an unlock from the lock screen needs.
pub open spec fn is_unlock_control(id: i32) -> bool {
    id == ID_PIN_EDIT || id == ID_DURATION_EDIT || id == ID_EXPIRY_ACTION_BUTTON || id
        == ID_UNLOCK_BUTTON
}

/// On a client area that holds the lock card, every shown control of the
/// lock screen lies inside the area.
pub proof fn law_lock_screen_fits_its_area(width: int, height: int)
    requires
        LOCK_CARD_WIDTH <= width <= 1_000_000,
        LOCK_CARD_HEIGHT <= height <= 1_000_000,
    ensures
        forall|i: int|
            0 <= i < layout(width, height, false).len() && #[trigger] layout(width, height, false)[i].visible
                ==> {
                let p = layout(width, height, false)[i];
                &&& 0 <= p.x
                &&& p.x + p.width <= width
                &&& 0 <= p.y
                &&& p.y + p.height <= height
            },
{
}

} // verus!
