//! Messages exchanged between the control plane, the service and the agent.
use vstd::prelude::*;

use crate::time::Timestamp;

verus! {

/// Whether the protected session is currently allowed.
#[derive(Debug, Clone, Copy, PartialEq, Eq, Structural)]
pub enum DeviceMode {
    Locked,
    Unlocked,
}

/// What happens when an unlock period runs out.
#[derive(Debug, Clone, Copy, PartialEq, Eq, Structural)]
pub enum UnlockExpiryAction {
    AppLock,
    WindowsLock,
    Shutdown,
}

impl Default for UnlockExpiryAction {
    fn default() -> (r: Self)
        ensures
            r == UnlockExpiryAction::AppLock,
    {
        UnlockExpiryAction::AppLock
    }
}

/// Snapshot of the device state as reported to clients.
#[derive(Debug, Clone, Copy, PartialEq, Eq, Structural)]
pub struct DeviceStatus {
    pub mode: DeviceMode,
    pub warn_only: bool,
    pub unlock_expires_at_utc: Option<Timestamp>,
    pub unlock_expiry_action: Option<UnlockExpiryAction>,
    pub remaining_minutes: u64,
    pub agent_healthy: bool,
    pub protected_user_logged_in: bool,
    pub last_seen_at_utc: Option<Timestamp>,
}

/// Request to open a control session with the parent PIN.
#[derive(Debug)]
pub struct AuthPinRequest {
    pub pin: String,
}

/// A control session token and the instant it stops being accepted.
#[derive(Debug)]
pub struct AuthPinResponse {
    pub token: String,
    pub expires_at_utc: Timestamp,
}

/// Request to replace the parent PIN.
#[derive(Debug)]
pub struct ChangePinRequest {
    pub current_pin: String,
    pub new_pin: String,
}

/// Typed body of an unlock or extend request.
#[derive(Debug, Clone, Copy, PartialEq, Eq, Structural)]
pub struct LockCommandRequest {
    pub duration_minutes: i16,
    pub expiry_action: Option<UnlockExpiryAction>,
}

/// Answer to a control action: the resulting device status.
#[derive(Debug, Clone, Copy, PartialEq, Eq, Structural)]
pub struct LockActionResponse {
    pub status: DeviceStatus,
}

/// Requests that the agent sends to the service.
#[derive(Debug)]
pub enum IpcRequest {
    GetState,
    Heartbeat,
    LocalUnlock { pin: String, duration_minutes: i16, expiry_action: Option<UnlockExpiryAction> },
    LocalExtend { pin: String, duration_minutes: i16, expiry_action: Option<UnlockExpiryAction> },
}

/// Answers of the service to the agent.
#[derive(Debug)]
pub enum IpcResponse {
    State(DeviceStatus),
    Ack(DeviceStatus),
    Error { message: String },
}

/// Name of the pipe on which the agent serves commands.
pub const AGENT_COMMAND_PIPE_NAME: &'static str = "\\\\.\\pipe\\WinParentalControlAgentCommands";

/// Commands that the service sends to the agent.
#[derive(Debug)]
pub enum AgentCommandRequest {
    CaptureSnapshot,
}

/// Answers of the agent to the service.
#[derive(Debug)]
pub enum AgentCommandResponse {
    Snapshot { png_base64: String },
    Error { message: String },
}

} // verus!
