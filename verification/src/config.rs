//! The persisted configuration and its state transitions: the unlock timer,
//! the follow-up action on expiry, the agent heartbeat and the parent PIN.
use vstd::prelude::*;

use crate::error::{Error, Result};
use crate::model::{DeviceMode, DeviceStatus, UnlockExpiryAction};
use crate::secret::{
    argon2_check, base64_bytes, base64_decode, base64_encode, check_pin, hash_pin, PinCheck,
};
use crate::security::{opened_form, seal_bytes, sealed_form, unseal_bytes};
use crate::time::{max_instant, min_instant, nanos_per_minute, trunc_seconds, Timestamp};

verus! {

broadcast use {vstd::utf8::encode_utf8_valid_utf8, vstd::utf8::encode_utf8_decode_utf8};

/// The parent PIN of a new configuration.
pub const DEFAULT_PIN: &'static str = "0000";

/// An agent heartbeat counts as fresh for this many whole seconds.
pub const HEARTBEAT_TIMEOUT_SECS: i64 = 20;

/// Shortest accepted unlock or extension.
pub const MIN_DURATION_MINUTES: u16 = 1;

/// Longest accepted unlock or extension.
pub const MAX_DURATION_MINUTES: u16 = 480;

/// Whether a number of minutes is an accepted unlock duration.
pub open spec fn valid_duration(minutes: int) -> bool {
    MIN_DURATION_MINUTES <= minutes <= MAX_DURATION_MINUTES
}

/// Whether an unlock deadline is still ahead of `now`.
pub open spec fn unlocked_at(expires: Option<Timestamp>, now: Timestamp) -> bool {
    match expires {
        Some(e) => e@ > now@,
        None => false,
    }
}

/// Minutes left before `expires`: the whole seconds left, rounded up to
/// minutes, and zero once the deadline has passed.
pub open spec fn minutes_left(expires: Option<Timestamp>, now: Timestamp) -> int {
    match expires {
        Some(e) => if e@ > now@ {
            (trunc_seconds(e@ - now@) + 59) / 60
        } else {
            0
        },
        None => 0,
    }
}

/// Whether the last heartbeat is at most the timeout in whole seconds ago.
pub open spec fn heartbeat_fresh(last: Option<Timestamp>, now: Timestamp) -> bool {
    match last {
        Some(h) => trunc_seconds(now@ - h@) <= HEARTBEAT_TIMEOUT_SECS,
        None => false,
    }
}

/// The instant from which an extension counts: the current deadline, or
/// `now` if there is none or it lies in the past.
pub open spec fn extension_base(expires: Option<Timestamp>, now: Timestamp) -> Timestamp {
    match expires {
        Some(e) => if e@ >= now@ { e } else { now },
        None => now,
    }
}

/// What checking a PIN against the stored hash comes to.
#[derive(Debug, Clone, Copy, PartialEq, Eq, Structural)]
pub enum PinVerdict {
    /// No PIN has been set.
    Missing,
    /// The stored hash cannot be decoded, opened or parsed.
    Corrupt,
    /// The PIN does not match.
    Wrong,
    /// The PIN matches.
    Accepted,
}

/// Whether a PIN is short enough to be hashed: at most `0xFFFF_FFFF` bytes
/// of UTF-8.
pub open spec fn pin_fits(pin: Seq<char>) -> bool {
    vstd::utf8::encode_utf8(pin).len() <= 0xFFFF_FFFF
}

/// The PHC string held in a stored PIN hash: Base64 text of the sealed UTF-8
/// bytes of the string.
pub open spec fn stored_phc(stored: Seq<char>) -> Option<Seq<char>> {
    match base64_bytes(stored) {
        Some(sealed) => if vstd::utf8::valid_utf8(opened_form(sealed)) {
            Some(vstd::utf8::decode_utf8(opened_form(sealed)))
        } else {
            None
        },
        None => None,
    }
}

/// The verdict on `pin` for a stored PIN hash.
pub open spec fn pin_verdict(pin_hash: Option<String>, pin: Seq<char>) -> PinVerdict {
    match pin_hash {
        None => PinVerdict::Missing,
        Some(stored) => match stored_phc(stored@) {
            None => PinVerdict::Corrupt,
            Some(phc) => match argon2_check(phc, pin) {
                PinCheck::Malformed => PinVerdict::Corrupt,
                PinCheck::Mismatch => PinVerdict::Wrong,
                PinCheck::Match => PinVerdict::Accepted,
            },
        },
    }
}

/// The follow-up that is due once an unlock period has run out.
#[derive(Debug)]
pub struct PendingExpiryAction {
    pub warn_only: bool,
    pub action: UnlockExpiryAction,
    pub protected_user_sid: Option<String>,
}

/// Whether an unlock deadline has passed by `now`, so that its follow-up is
/// due.
pub open spec fn expiry_due(expires: Option<Timestamp>, now: Timestamp) -> bool {
    match expires {
        Some(e) => e@ <= now@,
        None => false,
    }
}

/// The follow-up chosen for the current unlock: App lock when none was
/// chosen.
pub open spec fn chosen_action(choice: Option<UnlockExpiryAction>) -> UnlockExpiryAction {
    match choice {
        Some(a) => a,
        None => UnlockExpiryAction::AppLock,
    }
}

/// The configuration once a due follow-up has been handed out: no deadline
/// and no choice.
pub open spec fn after_expiry(config: AppConfig) -> AppConfig {
    AppConfig { unlock_expires_at_utc: None, unlock_expiry_action: None, ..config }
}

/// The follow-up that `config` hands out when its deadline is due.
pub open spec fn due_follow_up(config: AppConfig, p: PendingExpiryAction) -> bool {
    &&& p.warn_only == config.warn_only
    &&& p.action == chosen_action(config.unlock_expiry_action)
    &&& p.protected_user_sid == config.protected_user_sid
}

/// A change of the configuration requested by a client.
#[derive(Debug, Clone, Copy, PartialEq, Eq, Structural)]
pub enum ConfigChange {
    /// Unlock for a number of minutes from now; optionally choose the follow-up.
    Unlock { duration_minutes: u16, expiry_action: Option<UnlockExpiryAction> },
    /// Extend the unlock by a number of minutes; optionally choose the follow-up.
    Extend { duration_minutes: u16, expiry_action: Option<UnlockExpiryAction> },
    /// End the unlock now.
    Lock,
    /// Note an agent heartbeat now.
    RecordHeartbeat,
    /// Choose the follow-up of the current unlock.
    SetExpiryAction(UnlockExpiryAction),
}

/// The service configuration, as persisted.
#[derive(Debug)]
pub struct AppConfig {
    pub protected_user_sid: Option<String>,
    pub pin_hash: Option<String>,
    pub warn_only: bool,
    pub unlock_expires_at_utc: Option<Timestamp>,
    pub unlock_expiry_action: Option<UnlockExpiryAction>,
    pub last_agent_heartbeat_utc: Option<Timestamp>,
}

/// The status that a configuration reports at `now`.
pub open spec fn status_of(config: AppConfig, now: Timestamp, protected_user_logged_in: bool) -> DeviceStatus {
    let unlocked = unlocked_at(config.unlock_expires_at_utc, now);
    DeviceStatus {
        mode: if unlocked { DeviceMode::Unlocked } else { DeviceMode::Locked },
        warn_only: config.warn_only,
        unlock_expires_at_utc: if unlocked { config.unlock_expires_at_utc } else { None },
        unlock_expiry_action: if unlocked { config.unlock_expiry_action } else { None },
        remaining_minutes: minutes_left(config.unlock_expires_at_utc, now) as u64,
        agent_healthy: heartbeat_fresh(config.last_agent_heartbeat_utc, now),
        protected_user_logged_in,
        last_seen_at_utc: config.last_agent_heartbeat_utc,
    }
}

/// `config` with the follow-up action replaced when one is given.
pub open spec fn with_expiry_choice(config: AppConfig, choice: Option<UnlockExpiryAction>) -> AppConfig {
    match choice {
        Some(a) => AppConfig { unlock_expiry_action: Some(a), ..config },
        None => config,
    }
}

/// The configuration after `change` at `now`; `None` when the requested
/// duration is not accepted.
pub open spec fn changed_config(config: AppConfig, change: ConfigChange, now: Timestamp) -> Option<AppConfig> {
    match change {
        ConfigChange::Unlock { duration_minutes, expiry_action } => if valid_duration(
            duration_minutes as int,
        ) {
            Some(
                with_expiry_choice(
                    AppConfig {
                        unlock_expires_at_utc: Some(now.after_minutes(duration_minutes as int)),
                        ..config
                    },
                    expiry_action,
                ),
            )
        } else {
            None
        },
        ConfigChange::Extend { duration_minutes, expiry_action } => if valid_duration(
            duration_minutes as int,
        ) {
            Some(
                with_expiry_choice(
                    AppConfig {
                        unlock_expires_at_utc: Some(
                            extension_base(config.unlock_expires_at_utc, now).after_minutes(
                                duration_minutes as int,
                            ),
                        ),
                        ..config
                    },
                    expiry_action,
                ),
            )
        } else {
            None
        },
        ConfigChange::Lock => Some(AppConfig { unlock_expires_at_utc: None, ..config }),
        ConfigChange::RecordHeartbeat => Some(
            AppConfig { last_agent_heartbeat_utc: Some(now), ..config },
        ),
        ConfigChange::SetExpiryAction(a) => Some(
            AppConfig { unlock_expiry_action: Some(a), ..config },
        ),
    }
}

/// Whether the deadline that `change` would set stays in the representable
/// range.
pub open spec fn change_in_range(config: AppConfig, change: ConfigChange, now: Timestamp) -> bool {
    match change {
        ConfigChange::Unlock { duration_minutes, .. } => valid_duration(duration_minutes as int)
            ==> now@ + duration_minutes * nanos_per_minute() <= max_instant(),
        ConfigChange::Extend { duration_minutes, .. } => valid_duration(duration_minutes as int)
            ==> extension_base(config.unlock_expires_at_utc, now)@ + duration_minutes
            * nanos_per_minute() <= max_instant(),
        _ => true,
    }
}

fn copy_text(text: &Option<String>) -> (r: Option<String>)
    ensures
        r == *text,
{
    match text {
        Some(s) => Some(s.clone()),
        None => None,
    }
}

impl Default for AppConfig {
    fn default() -> (r: Self)
        ensures
            r.protected_user_sid is None,
            r.pin_hash is None,
            !r.warn_only,
            r.unlock_expires_at_utc is None,
            r.unlock_expiry_action is None,
            r.last_agent_heartbeat_utc is None,
    {
        AppConfig {
            protected_user_sid: None,
            pin_hash: None,
            warn_only: false,
            unlock_expires_at_utc: None,
            unlock_expiry_action: None,
            last_agent_heartbeat_utc: None,
        }
    }
}

impl AppConfig {
    /// An identical copy of the configuration.
    pub fn duplicate(&self) -> (r: AppConfig)
        ensures
            r == *self,
    {
        AppConfig {
            protected_user_sid: copy_text(&self.protected_user_sid),
            pin_hash: copy_text(&self.pin_hash),
            warn_only: self.warn_only,
            unlock_expires_at_utc: self.unlock_expires_at_utc,
            unlock_expiry_action: self.unlock_expiry_action,
            last_agent_heartbeat_utc: self.last_agent_heartbeat_utc,
        }
    }

    /// A new configuration: the defaults, with the parent PIN `0000`.
    pub fn initial() -> (r: Result<AppConfig>)
        ensures
            r matches Ok(c) && {
                &&& c.protected_user_sid is None
                &&& !c.warn_only
                &&& c.unlock_expires_at_utc is None
                &&& c.unlock_expiry_action is None
                &&& c.last_agent_heartbeat_utc is None
                &&& pin_verdict(c.pin_hash, DEFAULT_PIN@) == PinVerdict::Accepted
            },
    {
        let mut config = AppConfig::default();
        proof {
            reveal_strlit("0000");
            vstd::utf8::is_ascii_chars_encode_utf8(DEFAULT_PIN@);
        }
        match config.set_pin(DEFAULT_PIN) {
            Ok(()) => Ok(config),
            Err(e) => Err(e),
        }
    }

    /// Stores a new PIN: an Argon2 hash with a random salt, sealed and
    /// Base64-encoded. On success the new PIN, and only what matches its hash,
    /// is accepted; on failure the configuration is unchanged.
    pub fn set_pin(&mut self, pin: &str) -> (r: Result<()>)
        ensures
            pin_fits(pin@) ==> r is Ok,
            match r {
                Ok(()) => {
                    &&& final(self).pin_hash is Some
                    &&& pin_verdict(final(self).pin_hash, pin@) == PinVerdict::Accepted
                    &&& final(self).protected_user_sid == old(self).protected_user_sid
                    &&& final(self).warn_only == old(self).warn_only
                    &&& final(self).unlock_expires_at_utc == old(self).unlock_expires_at_utc
                    &&& final(self).unlock_expiry_action == old(self).unlock_expiry_action
                    &&& final(self).last_agent_heartbeat_utc == old(self).last_agent_heartbeat_utc
                },
                Err(e) => e is SecretSeal && *final(self) == *old(self),
            },
    {
        let hash = match hash_pin(pin) {
            Some(h) => h,
            None => return Err(Error::SecretSeal),
        };
        let sealed = match seal_bytes(hash.as_str().as_bytes()) {
            Ok(s) => s,
            Err(e) => return Err(e),
        };
        let encoded = base64_encode(sealed.as_slice());
        proof {
            assert(sealed@ == vstd::utf8::encode_utf8(hash@));
            assert(stored_phc(encoded@) == Some(hash@));
        }
        self.pin_hash = Some(encoded);
        Ok(())
    }

    /// Checks `pin` against the stored hash.
    pub fn verify_pin(&self, pin: &str) -> (r: Result<()>)
        ensures
            match pin_verdict(self.pin_hash, pin@) {
                PinVerdict::Missing => r matches Err(Error::ConfigIncomplete(field)) && field@
                    == "pin_hash"@,
                PinVerdict::Corrupt => r matches Err(Error::SecretUnseal),
                PinVerdict::Wrong => r matches Err(Error::InvalidPin),
                PinVerdict::Accepted => r is Ok,
            },
    {
        let encoded = match &self.pin_hash {
            Some(e) => e,
            None => return Err(Error::ConfigIncomplete("pin_hash")),
        };
        let sealed = match base64_decode(encoded.as_str()) {
            Ok(s) => s,
            Err(_) => return Err(Error::SecretUnseal),
        };
        let plaintext = match unseal_bytes(sealed.as_slice()) {
            Ok(p) => p,
            Err(e) => return Err(e),
        };
        let hash = match crate::secret::utf8_text(plaintext.as_slice()) {
            Some(h) => h,
            None => return Err(Error::SecretUnseal),
        };
        match check_pin(hash, pin) {
            PinCheck::Malformed => Err(Error::SecretUnseal),
            PinCheck::Mismatch => Err(Error::InvalidPin),
            PinCheck::Match => Ok(()),
        }
    }

    /// Accepts durations from one to 480 minutes.
    pub fn validate_duration_minutes(duration_minutes: u16) -> (r: Result<()>)
        ensures
            r is Ok <==> valid_duration(duration_minutes as int),
            r matches Err(e) ==> e is InvalidDuration,
    {
        if !(MIN_DURATION_MINUTES <= duration_minutes && duration_minutes <= MAX_DURATION_MINUTES) {
            return Err(Error::InvalidDuration);
        }
        Ok(())
    }

    /// Ends any unlock period at once.
    pub fn lock(&mut self)
        ensures
            *final(self) == (AppConfig { unlock_expires_at_utc: None, ..*old(self) }),
    {
        self.unlock_expires_at_utc = None;
    }

    /// Unlocks for `duration_minutes` from `now`, replacing any deadline.
    pub fn unlock_until(&mut self, duration_minutes: u16, now: Timestamp) -> (r: Result<()>)
        requires
            valid_duration(duration_minutes as int) ==> now@ + duration_minutes * nanos_per_minute()
                <= max_instant(),
        ensures
            r is Ok <==> valid_duration(duration_minutes as int),
            match r {
                Ok(()) => *final(self) == (AppConfig {
                    unlock_expires_at_utc: Some(now.after_minutes(duration_minutes as int)),
                    ..*old(self)
                }),
                Err(e) => e is InvalidDuration && *final(self) == *old(self),
            },
    {
        Self::validate_duration_minutes(duration_minutes)?;
        self.unlock_expires_at_utc = Some(now.plus_minutes(duration_minutes));
        Ok(())
    }

    /// Adds `duration_minutes` to the current deadline, or to `now` if the
    /// deadline is absent or past.
    pub fn extend_unlock(&mut self, duration_minutes: u16, now: Timestamp) -> (r: Result<()>)
        requires
            valid_duration(duration_minutes as int) ==> extension_base(
                old(self).unlock_expires_at_utc,
                now,
            )@ + duration_minutes * nanos_per_minute() <= max_instant(),
        ensures
            r is Ok <==> valid_duration(duration_minutes as int),
            match r {
                Ok(()) => *final(self) == (AppConfig {
                    unlock_expires_at_utc: Some(
                        extension_base(old(self).unlock_expires_at_utc, now).after_minutes(
                            duration_minutes as int,
                        ),
                    ),
                    ..*old(self)
                }),
                Err(e) => e is InvalidDuration && *final(self) == *old(self),
            },
    {
        Self::validate_duration_minutes(duration_minutes)?;
        let baseline = match self.unlock_expires_at_utc {
            Some(e) => if now.is_after(&e) {
                now
            } else {
                e
            },
            None => now,
        };
        self.unlock_expires_at_utc = Some(baseline.plus_minutes(duration_minutes));
        Ok(())
    }

    /// Applies `change` at `now`.
    pub fn apply_change(&mut self, change: ConfigChange, now: Timestamp) -> (r: Result<()>)
        requires
            change_in_range(*old(self), change, now),
        ensures
            match changed_config(*old(self), change, now) {
                Some(c) => r is Ok && *final(self) == c,
                None => r matches Err(e) && e is InvalidDuration && *final(self) == *old(self),
            },
    {
        match change {
            ConfigChange::Unlock { duration_minutes, expiry_action } => {
                self.unlock_until(duration_minutes, now)?;
                if let Some(action) = expiry_action {
                    self.set_expiry_action(action);
                }
            },
            ConfigChange::Extend { duration_minutes, expiry_action } => {
                self.extend_unlock(duration_minutes, now)?;
                if let Some(action) = expiry_action {
                    self.set_expiry_action(action);
                }
            },
            ConfigChange::Lock => self.lock(),
            ConfigChange::RecordHeartbeat => self.record_heartbeat(now),
            ConfigChange::SetExpiryAction(action) => self.set_expiry_action(action),
        }
        Ok(())
    }

    /// Whether `change` at `now` keeps the deadline representable.
    pub fn change_fits(&self, change: ConfigChange, now: Timestamp) -> (r: bool)
        ensures
            r == change_in_range(*self, change, now),
    {
        match change {
            ConfigChange::Unlock { duration_minutes, .. } => !(MIN_DURATION_MINUTES
                <= duration_minutes && duration_minutes <= MAX_DURATION_MINUTES)
                || now.can_add_minutes(duration_minutes),
            ConfigChange::Extend { duration_minutes, .. } => {
                let baseline = match self.unlock_expires_at_utc {
                    Some(e) => if now.is_after(&e) {
                        now
                    } else {
                        e
                    },
                    None => now,
                };
                !(MIN_DURATION_MINUTES <= duration_minutes && duration_minutes
                    <= MAX_DURATION_MINUTES) || baseline.can_add_minutes(duration_minutes)
            },
            _ => true,
        }
    }

    /// Chooses what happens when the unlock period runs out.
    pub fn set_expiry_action(&mut self, action: UnlockExpiryAction)
        ensures
            *final(self) == (AppConfig { unlock_expiry_action: Some(action), ..*old(self) }),
    {
        self.unlock_expiry_action = Some(action);
    }

    /// Notes an agent heartbeat at `now`.
    pub fn record_heartbeat(&mut self, now: Timestamp)
        ensures
            *final(self) == (AppConfig { last_agent_heartbeat_utc: Some(now), ..*old(self) }),
    {
        self.last_agent_heartbeat_utc = Some(now);
    }

    /// Forgets the last heartbeat; says whether there was one.
    pub fn clear_saved_agent_heartbeat(&mut self) -> (r: bool)
        ensures
            r == old(self).last_agent_heartbeat_utc is Some,
            *final(self) == (AppConfig { last_agent_heartbeat_utc: None, ..*old(self) }),
    {
        let had = self.last_agent_heartbeat_utc.is_some();
        self.last_agent_heartbeat_utc = None;
        had
    }

    /// Unlocked while the deadline lies ahead of `now`.
    pub fn effective_mode(&self, now: Timestamp) -> (r: DeviceMode)
        ensures
            r == (if unlocked_at(self.unlock_expires_at_utc, now) {
                DeviceMode::Unlocked
            } else {
                DeviceMode::Locked
            }),
    {
        match self.unlock_expires_at_utc {
            Some(expires_at) => if expires_at.is_after(&now) {
                DeviceMode::Unlocked
            } else {
                DeviceMode::Locked
            },
            None => DeviceMode::Locked,
        }
    }

    /// Minutes left in the unlock period, rounded up.
    pub fn remaining_minutes(&self, now: Timestamp) -> (r: u64)
        ensures
            r == minutes_left(self.unlock_expires_at_utc, now),
    {
        let expires_at = match self.unlock_expires_at_utc {
            Some(e) => e,
            None => return 0,
        };
        if !expires_at.is_after(&now) {
            return 0;
        }
        let remaining_secs = expires_at.whole_seconds_since(&now);
        ((remaining_secs as u64) + 59) / 60
    }

    /// Whether the agent sent a heartbeat within the timeout.
    pub fn agent_healthy(&self, now: Timestamp) -> (r: bool)
        ensures
            r == heartbeat_fresh(self.last_agent_heartbeat_utc, now),
    {
        match self.last_agent_heartbeat_utc {
            Some(heartbeat) => now.whole_seconds_since(&heartbeat) <= HEARTBEAT_TIMEOUT_SECS,
            None => false,
        }
    }

    /// The status reported at `now`.
    pub fn status(&self, now: Timestamp, protected_user_logged_in: bool) -> (r: DeviceStatus)
        ensures
            r == status_of(*self, now, protected_user_logged_in),
    {
        let mode = self.effective_mode(now);
        let unlocked = match mode {
            DeviceMode::Unlocked => true,
            DeviceMode::Locked => false,
        };
        DeviceStatus {
            mode,
            warn_only: self.warn_only,
            unlock_expires_at_utc: if unlocked { self.unlock_expires_at_utc } else { None },
            unlock_expiry_action: if unlocked { self.unlock_expiry_action } else { None },
            remaining_minutes: self.remaining_minutes(now),
            agent_healthy: self.agent_healthy(now),
            protected_user_logged_in,
            last_seen_at_utc: self.last_agent_heartbeat_utc,
        }
    }

    /// Once the unlock deadline has passed, hands out the follow-up action
    /// (App lock when none was chosen) and clears the deadline and the choice,
    /// so that each deadline yields its follow-up once.
    pub fn take_pending_expiry_action(&mut self, now: Timestamp) -> (r: Option<PendingExpiryAction>)
        ensures
            expiry_due(old(self).unlock_expires_at_utc, now) ==> (r matches Some(p) && due_follow_up(
                *old(self),
                p,
            ) && *final(self) == after_expiry(*old(self))),
            !expiry_due(old(self).unlock_expires_at_utc, now) ==> r is None && *final(self) == *old(
                self,
            ),
    {
        let expires_at = match self.unlock_expires_at_utc {
            Some(e) => e,
            None => return None,
        };
        if expires_at.is_after(&now) {
            return None;
        }
        let action = match self.unlock_expiry_action {
            Some(a) => a,
            None => UnlockExpiryAction::AppLock,
        };
        let pending = PendingExpiryAction {
            warn_only: self.warn_only,
            action,
            protected_user_sid: copy_text(&self.protected_user_sid),
        };
        self.unlock_expires_at_utc = None;
        self.unlock_expiry_action = None;
        Some(pending)
    }
}

/// Right after unlocking for `minutes` at `now`, the device reports itself
/// unlocked with exactly `minutes` minutes left.
pub proof fn law_unlock_reports_full_duration(now: Timestamp, deadline: Timestamp, minutes: int)
    requires
        valid_duration(minutes),
        deadline@ == now@ + minutes * nanos_per_minute(),
    ensures
        unlocked_at(Some(deadline), now),
        minutes_left(Some(deadline), now) == minutes,
{
    assert(deadline@ - now@ == minutes * 60 * 1_000_000_000) by (nonlinear_arith)
        requires deadline@ == now@ + minutes * nanos_per_minute();
    assert((minutes * 60 * 1_000_000_000) / 1_000_000_000 == minutes * 60) by (nonlinear_arith);
    assert((minutes * 60 + 59) / 60 == minutes) by (nonlinear_arith);
}

/// Extending a running unlock adds the extension to the time left: after
/// unlocking for `first` minutes at `now` and extending by `second` minutes at
/// the same instant, `first + second` minutes are left.
pub proof fn law_extend_adds_to_remaining(
    now: Timestamp,
    first_deadline: Timestamp,
    second_deadline: Timestamp,
    first: int,
    second: int,
)
    requires
        valid_duration(first),
        valid_duration(second),
        first_deadline@ == now@ + first * nanos_per_minute(),
        second_deadline@ == extension_base(Some(first_deadline), now)@ + second * nanos_per_minute(),
    ensures
        unlocked_at(Some(second_deadline), now),
        minutes_left(Some(second_deadline), now) == first + second,
{
    assert(second_deadline@ - now@ == (first + second) * 60 * 1_000_000_000) by (nonlinear_arith)
        requires
            first_deadline@ == now@ + first * nanos_per_minute(),
            second_deadline@ == first_deadline@ + second * nanos_per_minute(),
    ;
    assert(((first + second) * 60 * 1_000_000_000) / 1_000_000_000 == (first + second) * 60)
        by (nonlinear_arith);
    assert(((first + second) * 60 + 59) / 60 == first + second) by (nonlinear_arith);
}

/// Extending while locked (no deadline, or one that has passed) counts from
/// `now`, like a fresh unlock.
pub proof fn law_extend_when_locked_counts_from_now(expires: Option<Timestamp>, now: Timestamp)
    requires
        !unlocked_at(expires, now),
    ensures
        extension_base(expires, now)@ == now@,
{
}

/// A locked device has no time left, and time left means unlocked. The
/// converse needs at least a whole second before the deadline: in the last
/// second the device is still unlocked while zero whole minutes are left.
pub proof fn law_time_left_matches_mode(expires: Option<Timestamp>, now: Timestamp)
    ensures
        !unlocked_at(expires, now) ==> minutes_left(expires, now) == 0,
        minutes_left(expires, now) > 0 ==> unlocked_at(expires, now),
        (expires matches Some(e) && e@ - now@ >= 1_000_000_000) ==> minutes_left(expires, now) > 0,
{
    if let Some(e) = expires {
        if e@ - now@ >= 1_000_000_000 {
            assert((e@ - now@) / 1_000_000_000 >= 1) by (nonlinear_arith)
                requires e@ - now@ >= 1_000_000_000;
        }
    }
}

/// The reported status agrees with itself: unlocked exactly when it carries
/// a deadline, that deadline is always ahead of `now`, and a follow-up action
/// is only reported while unlocked.
pub proof fn law_status_is_consistent(config: AppConfig, now: Timestamp, logged_in: bool)
    ensures
        ({
            let s = status_of(config, now, logged_in);
            &&& (s.mode == DeviceMode::Unlocked <==> s.unlock_expires_at_utc is Some)
            &&& (s.unlock_expires_at_utc matches Some(e) ==> e@ > now@)
            &&& (s.unlock_expiry_action is Some ==> s.mode == DeviceMode::Unlocked)
            &&& (s.mode == DeviceMode::Locked ==> s.remaining_minutes == 0)
        }),
{
    law_time_left_matches_mode(config.unlock_expires_at_utc, now);
}

/// A heartbeat keeps the agent healthy for twenty whole seconds, and not for
/// a whole second longer.
pub proof fn law_heartbeat_freshness(heartbeat: Timestamp, now: Timestamp)
    ensures
        heartbeat@ <= now@ < heartbeat@ + 21 * 1_000_000_000 ==> heartbeat_fresh(Some(heartbeat), now),
        now@ >= heartbeat@ + 21 * 1_000_000_000 ==> !heartbeat_fresh(Some(heartbeat), now),
        !heartbeat_fresh(None, now),
{
    if heartbeat@ <= now@ && now@ < heartbeat@ + 21 * 1_000_000_000 {
        assert((now@ - heartbeat@) / 1_000_000_000 <= 20) by (nonlinear_arith)
            requires 0 <= now@ - heartbeat@ < 21 * 1_000_000_000;
    }
    if now@ >= heartbeat@ + 21 * 1_000_000_000 {
        assert((now@ - heartbeat@) / 1_000_000_000 >= 21) by (nonlinear_arith)
            requires now@ - heartbeat@ >= 21 * 1_000_000_000;
    }
}

/// Each deadline yields its follow-up once: after it has been handed out,
/// no follow-up is due at any later instant until a new unlock is started.
pub proof fn law_follow_up_fires_once(config: AppConfig, now: Timestamp, later: Timestamp)
    requires
        expiry_due(config.unlock_expires_at_utc, now),
    ensures
        !expiry_due(after_expiry(config).unlock_expires_at_utc, later),
        after_expiry(config).unlock_expiry_action is None,
        status_of(after_expiry(config), later, false).mode == DeviceMode::Locked,
{
}

/// A heartbeat changes only the heartbeat: any other change made before or
/// after it gives the same configuration apart from the heartbeat, so the
/// deadline and follow-up are what that change set, whichever comes first.
pub proof fn law_heartbeat_changes_only_the_heartbeat(
    config: AppConfig,
    change: ConfigChange,
    beat: Timestamp,
    now: Timestamp,
)
    requires
        !(change is RecordHeartbeat),
    ensures
        changed_config(config, ConfigChange::RecordHeartbeat, beat) == Some(
            AppConfig { last_agent_heartbeat_utc: Some(beat), ..config },
        ),
        match changed_config(config, change, now) {
            Some(c) => {
                &&& changed_config(
                    AppConfig { last_agent_heartbeat_utc: Some(beat), ..config },
                    change,
                    now,
                ) == Some(AppConfig { last_agent_heartbeat_utc: Some(beat), ..c })
                &&& changed_config(c, ConfigChange::RecordHeartbeat, beat) == Some(
                    AppConfig { last_agent_heartbeat_utc: Some(beat), ..c },
                )
            },
            None => changed_config(
                AppConfig { last_agent_heartbeat_utc: Some(beat), ..config },
                change,
                now,
            ) is None,
        },
{
}

/// An accepted unlock replaces any deadline: whatever the configuration was
/// (locked, or unlocked for longer or shorter), unlocking for `minutes` at
/// `now` sets the deadline to exactly `now` plus `minutes`, so the device is
/// unlocked with `minutes` minutes left; everything but the deadline and the
/// follow-up stays as it was.
pub proof fn law_unlock_replaces_any_deadline(
    config: AppConfig,
    minutes: u16,
    action: Option<UnlockExpiryAction>,
    now: Timestamp,
)
    requires
        valid_duration(minutes as int),
        min_instant() <= now@,
        now@ + minutes * nanos_per_minute() <= max_instant(),
    ensures
        changed_config(config, ConfigChange::Unlock { duration_minutes: minutes, expiry_action: action }, now)
            matches Some(c) && {
            &&& c.unlock_expires_at_utc matches Some(e) && e@ == now@ + minutes * nanos_per_minute()
            &&& unlocked_at(c.unlock_expires_at_utc, now)
            &&& minutes_left(c.unlock_expires_at_utc, now) == minutes
            &&& c.warn_only == config.warn_only
            &&& c.pin_hash == config.pin_hash
            &&& c.protected_user_sid == config.protected_user_sid
            &&& c.last_agent_heartbeat_utc == config.last_agent_heartbeat_utc
        },
{
    now.lemma_after_minutes(minutes as int);
    let deadline = now.after_minutes(minutes as int);
    law_unlock_reports_full_duration(now, deadline, minutes as int);
}

/// Warn-only (test) mode is always reported as configured, whether the
/// device is locked or unlocked and at every instant.
pub proof fn law_status_reports_warn_only(config: AppConfig, now: Timestamp, logged_in: bool)
    ensures
        status_of(config, now, logged_in).warn_only == config.warn_only,
        status_of(config, now, logged_in).protected_user_logged_in == logged_in,
        status_of(config, now, logged_in).last_seen_at_utc == config.last_agent_heartbeat_utc,
{
}

} // verus!
