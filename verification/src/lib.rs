//! Core logic of a parental-control service: unlock timers, PIN checks,
//! control sessions, request parsing and the agent's presentation rules.

pub mod config;
pub mod control;
pub mod error;
pub mod model;
mod outside;
pub mod time;

pub use error::{Error, Result};
pub use model::{
    AgentCommandRequest, AgentCommandResponse, AuthPinRequest, AuthPinResponse, ChangePinRequest,
    DeviceMode, DeviceStatus, IpcRequest, IpcResponse, LockActionResponse, LockCommandRequest,
    UnlockExpiryAction, AGENT_COMMAND_PIPE_NAME,
};
pub use time::Timestamp;
pub mod platform;
pub mod secret;
pub mod security;
pub mod sessions;
pub mod snapshot;
pub mod state;
pub mod text;
pub mod cli;
pub mod agent;
