//! Decisions of the service's supervisor, and the workstation actions as
//! they stand on this platform, which supports neither of them.
use vstd::prelude::*;

use crate::config::PendingExpiryAction;
use crate::model::UnlockExpiryAction;

verus! {

/// An I/O error of kind `Other` with `message` (`std::io::Error::other`).
/// Nothing about the error is claimed.
#[verifier::external_body]
fn unsupported(message: &str) -> std::io::Error {
    std::io::Error::other(message)
}

/// Locking the workstation is not supported on this platform: always an
/// error.
pub fn lock_active_console(expected_sid: Option<&str>) -> (r: std::io::Result<()>)
    ensures
        r is Err,
{
    Err(unsupported("windows lock is only supported on Windows"))
}

/// Shutting the machine down is not supported on this platform: always an
/// error.
pub fn shutdown_machine() -> (r: std::io::Result<()>)
    ensures
        r is Err,
{
    Err(unsupported("shutdown is only supported on Windows"))
}

/// The view of an optional text.
pub open spec fn sid_view(sid: Option<String>) -> Option<Seq<char>> {
    match sid {
        Some(s) => Some(s@),
        None => None,
    }
}

/// The protected user counts as logged in when the active console user is
/// that user, or, with no particular user configured, when anyone is.
pub open spec fn protected_user_present(protected_sid: Option<String>, active_sid: Option<String>) -> bool {
    match protected_sid {
        Some(p) => sid_view(active_sid) == Some(p@),
        None => active_sid is Some,
    }
}

/// Whether the protected user is at the console.
pub fn is_protected_user_logged_in(protected_sid: &Option<String>, active_sid: &Option<String>) -> (r: bool)
    ensures
        r == protected_user_present(*protected_sid, *active_sid),
{
    match protected_sid {
        Some(p) => match active_sid {
            Some(a) => *a == *p,
            None => false,
        },
        None => active_sid.is_some(),
    }
}

/// Whether the active console user is the expected user.
pub fn active_console_matches_sid(active_sid: &Option<String>, expected_sid: &str) -> (r: bool)
    ensures
        r == (sid_view(*active_sid) == Some(expected_sid@)),
{
    match active_sid {
        Some(a) => *a == expected_sid.to_owned(),
        None => false,
    }
}

/// What to do once an unlock period has run out.
#[derive(Debug, Clone, Copy, PartialEq, Eq, Structural)]
pub enum FollowUp {
    /// Warn-only mode: nothing is enforced.
    Skip,
    /// The agent shows its lock screen again; nothing else to do.
    AppLockActive,
    /// Lock the Windows workstation.
    LockWorkstation,
    /// Shut the machine down.
    ShutDown,
}

/// The follow-up for a pending action: nothing in warn-only mode, otherwise
/// the chosen action.
pub open spec fn follow_up_of(warn_only: bool, action: UnlockExpiryAction) -> FollowUp {
    if warn_only {
        FollowUp::Skip
    } else {
        match action {
            UnlockExpiryAction::AppLock => FollowUp::AppLockActive,
            UnlockExpiryAction::WindowsLock => FollowUp::LockWorkstation,
            UnlockExpiryAction::Shutdown => FollowUp::ShutDown,
        }
    }
}

/// Decides the follow-up of a pending expiry action.
pub fn follow_up(pending: &PendingExpiryAction) -> (r: FollowUp)
    ensures
        r == follow_up_of(pending.warn_only, pending.action),
{
    if pending.warn_only {
        return FollowUp::Skip;
    }
    match pending.action {
        UnlockExpiryAction::AppLock => FollowUp::AppLockActive,
        UnlockExpiryAction::WindowsLock => FollowUp::LockWorkstation,
        UnlockExpiryAction::Shutdown => FollowUp::ShutDown,
    }
}

/// Warn-only mode never locks or shuts the machine down.
pub proof fn law_warn_only_enforces_nothing(action: UnlockExpiryAction)
    ensures
        follow_up_of(true, action) == FollowUp::Skip,
{
}

} // verus!
