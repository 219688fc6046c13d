//! The service's in-memory state: the current configuration, the open
//! control sessions, whether the protected user is at the console, and when
//! the agent was last (re)launched. Persisting a changed configuration is the
//! caller's part: the `prepare_*` functions return the configuration to save,
//! and `replace_config` installs it once it is saved.
use vstd::prelude::*;

use crate::config::{
    after_expiry, changed_config, pin_fits, change_in_range, due_follow_up, expiry_due, heartbeat_fresh,
    pin_verdict, status_of, AppConfig, ConfigChange, PendingExpiryAction,
    PinVerdict,
};
use crate::error::{Error, Result};
use crate::control::SESSION_TTL_MINUTES;
use crate::model::{AuthPinResponse, DeviceStatus};
use crate::sessions::{live_sessions, session_valid, SessionStore};
use crate::time::{max_instant, nanos_per_minute, Timestamp};

verus! {

/// The agent is relaunched at most once per this many seconds.
pub const AGENT_SPAWN_RETRY_SECS: i64 = 15;

/// Whether a new launch attempt is allowed at `now`, given the last one.
pub open spec fn spawn_allowed(last: Option<Timestamp>, now: Timestamp) -> bool {
    match last {
        Some(l) => now@ - l@ >= AGENT_SPAWN_RETRY_SECS * 1_000_000_000,
        None => true,
    }
}

/// Whether a session opened at `now` expires within the representable range.
pub open spec fn session_fits(now: Timestamp) -> bool {
    now@ + SESSION_TTL_MINUTES * nanos_per_minute() <= max_instant()
}

/// What preparing `change` at `now` gives: the changed configuration and the
/// status it reports, or `InvalidDuration` when the duration is refused.
pub open spec fn change_prepared(
    config: AppConfig,
    change: ConfigChange,
    now: Timestamp,
    logged_in: bool,
    r: Result<(AppConfig, DeviceStatus)>,
) -> bool {
    match changed_config(config, change, now) {
        Some(c) => r matches Ok((next, status)) && next == c && status == status_of(c, now, logged_in),
        None => r matches Err(e) && e is InvalidDuration,
    }
}

/// What checking `pin` and then preparing `change` at `now` gives: the PIN's
/// error first, otherwise as `change_prepared`.
pub open spec fn local_change_prepared(
    config: AppConfig,
    pin: Seq<char>,
    change: ConfigChange,
    now: Timestamp,
    logged_in: bool,
    r: Result<(AppConfig, DeviceStatus)>,
) -> bool {
    match pin_verdict(config.pin_hash, pin) {
        PinVerdict::Missing => r matches Err(Error::ConfigIncomplete(field)) && field@ == "pin_hash"@,
        PinVerdict::Corrupt => r matches Err(Error::SecretUnseal),
        PinVerdict::Wrong => r matches Err(Error::InvalidPin),
        PinVerdict::Accepted => change_prepared(config, change, now, logged_in, r),
    }
}

/// What checking `pin` and opening a session at `now` does to the state:
/// the PIN's error and nothing changed, or a new session valid for ten
/// minutes from `now`, and nothing else changed.
pub open spec fn session_opened(
    before: AppState,
    after: AppState,
    pin: Seq<char>,
    now: Timestamp,
    r: Result<AuthPinResponse>,
) -> bool {
    &&& match pin_verdict(before.config_spec().pin_hash, pin) {
        PinVerdict::Missing => r matches Err(Error::ConfigIncomplete(field)) && field@ == "pin_hash"@,
        PinVerdict::Corrupt => r matches Err(Error::SecretUnseal),
        PinVerdict::Wrong => r matches Err(Error::InvalidPin),
        PinVerdict::Accepted => r is Ok,
    }
    &&& match r {
        Ok(resp) => {
            &&& uuid_v4_text(resp.token@)
            &&& resp.expires_at_utc == now.after_minutes(SESSION_TTL_MINUTES as int)
            &&& after.sessions_spec() == before.sessions_spec().insert(resp.token@, resp.expires_at_utc)
        },
        Err(_) => after.sessions_spec() == before.sessions_spec(),
    }
    &&& after.config_spec() == before.config_spec()
    &&& after.logged_in_spec() == before.logged_in_spec()
    &&& after.last_spawn_spec() == before.last_spawn_spec()
}

/// Whether `c` is a lower-case hexadecimal digit.
pub open spec fn is_lower_hex(c: char) -> bool {
    ('0' <= c <= '9') || ('a' <= c <= 'f')
}

/// The text of a version 4 UUID in hyphenated lower-case form: 36
/// characters, hyphens at 8, 13, 18 and 23, hexadecimal digits elsewhere,
/// the version digit `4` at 14 and a variant digit from `8` to `b` at 19.
pub open spec fn uuid_v4_text(t: Seq<char>) -> bool {
    &&& t.len() == 36
    &&& forall|i: int|
        0 <= i < 36 ==> if i == 8 || i == 13 || i == 18 || i == 23 {
            #[trigger] t[i] == '-'
        } else {
            is_lower_hex(t[i])
        }
    &&& t[14] == '4'
    &&& (t[19] == '8' || t[19] == '9' || t[19] == 'a' || t[19] == 'b')
}

/// A fresh random session token (`uuid::Uuid::new_v4().to_string()`). The
/// value is random, so only its form is stated: `new_v4` sets the version
/// bits to 4 and the variant bits to `10`, and `Display` writes the
/// hyphenated lower-case form (`fmt::LowerHex`, `format_hyphenated`).
#[verifier::external_body]
fn new_session_token() -> (r: String)
    ensures
        uuid_v4_text(r@),
{
    uuid::Uuid::new_v4().to_string()
}

/// What one round of agent supervision decided.
#[derive(Debug, Clone, Copy, PartialEq, Eq, Structural)]
pub struct SupervisionStep {
    /// The status at the time of the round.
    pub status: DeviceStatus,
    /// The protected user is logged in but the agent's heartbeat is stale.
    pub agent_stale: bool,
    /// A new agent should be launched now.
    pub spawn_agent: bool,
}

/// The service's state.
pub struct AppState {
    config: AppConfig,
    sessions: SessionStore,
    protected_user_logged_in: bool,
    last_spawn_attempt: Option<Timestamp>,
}

impl AppState {
    /// The current configuration.
    pub closed spec fn config_spec(self) -> AppConfig {
        self.config
    }

    /// The open sessions.
    pub closed spec fn sessions_spec(self) -> Map<Seq<char>, Timestamp> {
        self.sessions@
    }

    /// Whether the protected user is at the console.
    pub closed spec fn logged_in_spec(self) -> bool {
        self.protected_user_logged_in
    }

    /// When the agent was last launched.
    pub closed spec fn last_spawn_spec(self) -> Option<Timestamp> {
        self.last_spawn_attempt
    }

    /// Starts from a loaded configuration, with no sessions, nobody logged in
    /// and no launch attempt yet.
    pub fn new(config: AppConfig) -> (r: AppState)
        ensures
            r.config_spec() == config,
            r.sessions_spec() == Map::<Seq<char>, Timestamp>::empty(),
            !r.logged_in_spec(),
            r.last_spawn_spec() is None,
    {
        AppState {
            config,
            sessions: SessionStore::new(),
            protected_user_logged_in: false,
            last_spawn_attempt: None,
        }
    }

    /// A copy of the current configuration.
    pub fn current_config(&self) -> (r: AppConfig)
        ensures
            r == self.config_spec(),
    {
        self.config.duplicate()
    }

    /// Installs a configuration (once it has been saved).
    pub fn replace_config(&mut self, config: AppConfig)
        ensures
            final(self).config_spec() == config,
            final(self).sessions_spec() == old(self).sessions_spec(),
            final(self).logged_in_spec() == old(self).logged_in_spec(),
            final(self).last_spawn_spec() == old(self).last_spawn_spec(),
    {
        self.config = config;
    }

    /// Checks `pin` against the configured PIN.
    pub fn verify_pin(&self, pin: &str) -> (r: Result<()>)
        ensures
            r is Ok <==> pin_verdict(self.config_spec().pin_hash, pin@) == PinVerdict::Accepted,
            match pin_verdict(self.config_spec().pin_hash, pin@) {
                PinVerdict::Missing => r matches Err(Error::ConfigIncomplete(field)) && field@
                    == "pin_hash"@,
                PinVerdict::Corrupt => r matches Err(Error::SecretUnseal),
                PinVerdict::Wrong => r matches Err(Error::InvalidPin),
                PinVerdict::Accepted => r is Ok,
            },
    {
        self.config.verify_pin(pin)
    }

    /// Opens the session `token` until `expires_at_utc`.
    pub fn record_session(&mut self, token: String, expires_at_utc: Timestamp)
        ensures
            final(self).sessions_spec() == old(self).sessions_spec().insert(token@, expires_at_utc),
            final(self).config_spec() == old(self).config_spec(),
            final(self).logged_in_spec() == old(self).logged_in_spec(),
            final(self).last_spawn_spec() == old(self).last_spawn_spec(),
    {
        self.sessions.record(token, expires_at_utc);
    }

    /// Drops the sessions that expired by `now`, then accepts `token` if it
    /// names a session still valid at `now`.
    pub fn require_session_at(&mut self, token: &str, now: Timestamp) -> (r: Result<()>)
        ensures
            r is Ok <==> session_valid(old(self).sessions_spec(), token@, now),
            r matches Err(e) ==> e is InvalidSessionToken,
            final(self).sessions_spec() == live_sessions(old(self).sessions_spec(), now),
            final(self).config_spec() == old(self).config_spec(),
            final(self).logged_in_spec() == old(self).logged_in_spec(),
            final(self).last_spawn_spec() == old(self).last_spawn_spec(),
    {
        self.sessions.prune(now);
        match self.sessions.expiry_of(token) {
            Some(expires_at) => if expires_at.is_after(&now) {
                Ok(())
            } else {
                Err(Error::InvalidSessionToken)
            },
            None => Err(Error::InvalidSessionToken),
        }
    }

    /// Checks `pin` and, if it is accepted, opens a new session valid for ten
    /// minutes from `now`.
    pub fn authenticate(&mut self, pin: &str, now: Timestamp) -> (r: Result<AuthPinResponse>)
        requires
            session_fits(now),
        ensures
            session_opened(*old(self), *final(self), pin@, now, r),
    {
        self.verify_pin(pin)?;
        let expires_at_utc = now.plus_minutes(SESSION_TTL_MINUTES);
        let token = new_session_token();
        self.record_session(token.clone(), expires_at_utc);
        Ok(AuthPinResponse { token, expires_at_utc })
    }

    /// `authenticate` at the current time; `Error::Time` if the session's
    /// expiry would leave the representable range.
    pub fn authenticate_now(&mut self, pin: &str) -> (r: Result<AuthPinResponse>)
        ensures
            exists|now: Timestamp|
                #![trigger session_fits(now)]
                (session_fits(now) ==> session_opened(*old(self), *final(self), pin@, now, r)) && (
                !session_fits(now) ==> (r matches Err(Error::Time) && *final(self) == *old(self))),
    {
        let now = Timestamp::now();
        if !now.can_add_minutes(SESSION_TTL_MINUTES) {
            assert(!session_fits(now));
            return Err(Error::Time);
        }
        assert(session_fits(now));
        self.authenticate(pin, now)
    }

    /// `require_session_at` at the current time.
    pub fn require_session(&mut self, token: &str) -> (r: Result<()>)
        ensures
            exists|now: Timestamp|
                (r is Ok <==> session_valid(old(self).sessions_spec(), token@, now))
                    && final(self).sessions_spec() == live_sessions(old(self).sessions_spec(), now),
            r matches Err(e) ==> e is InvalidSessionToken,
            final(self).config_spec() == old(self).config_spec(),
            final(self).logged_in_spec() == old(self).logged_in_spec(),
            final(self).last_spawn_spec() == old(self).last_spawn_spec(),
    {
        let now = Timestamp::now();
        self.require_session_at(token, now)
    }

    /// The status at `now`.
    pub fn device_status_at(&self, now: Timestamp) -> (r: DeviceStatus)
        ensures
            r == status_of(self.config_spec(), now, self.logged_in_spec()),
    {
        self.config.status(now, self.protected_user_logged_in)
    }

    /// The status at the current time.
    pub fn device_status(&self) -> (r: DeviceStatus)
        ensures
            exists|now: Timestamp| r == status_of(self.config_spec(), now, self.logged_in_spec()),
    {
        let now = Timestamp::now();
        self.device_status_at(now)
    }

    /// The configuration after `change` at `now`, and the status it reports.
    pub fn prepare_change(&self, change: ConfigChange, now: Timestamp) -> (r: Result<(AppConfig, DeviceStatus)>)
        requires
            change_in_range(self.config_spec(), change, now),
        ensures
            change_prepared(self.config_spec(), change, now, self.logged_in_spec(), r),
    {
        let mut config = self.config.duplicate();
        config.apply_change(change, now)?;
        let status = config.status(now, self.protected_user_logged_in);
        Ok((config, status))
    }

    /// `prepare_change` at the current time; `Error::Time` when the new
    /// deadline would leave the representable range.
    pub fn prepare_change_now(&self, change: ConfigChange) -> (r: Result<(AppConfig, DeviceStatus)>)
        ensures
            exists|now: Timestamp|
                #![trigger change_in_range(self.config_spec(), change, now)]
                (change_in_range(self.config_spec(), change, now) ==> change_prepared(
                    self.config_spec(),
                    change,
                    now,
                    self.logged_in_spec(),
                    r,
                )) && (!change_in_range(self.config_spec(), change, now) ==> r matches Err(
                    Error::Time,
                )),
    {
        let now = Timestamp::now();
        if !self.config.change_fits(change, now) {
            return Err(Error::Time);
        }
        self.prepare_change(change, now)
    }

    /// Checks the PIN, then prepares `change` (the agent's local unlock and
    /// extend).
    pub fn prepare_local_change(&self, pin: &str, change: ConfigChange, now: Timestamp) -> (r: Result<
        (AppConfig, DeviceStatus),
    >)
        requires
            change_in_range(self.config_spec(), change, now),
        ensures
            local_change_prepared(self.config_spec(), pin@, change, now, self.logged_in_spec(), r),
    {
        self.verify_pin(pin)?;
        self.prepare_change(change, now)
    }

    /// `prepare_local_change` at the current time; `Error::Time` when the
    /// new deadline would leave the representable range.
    pub fn prepare_local_change_now(&self, pin: &str, change: ConfigChange) -> (r: Result<
        (AppConfig, DeviceStatus),
    >)
        ensures
            exists|now: Timestamp|
                #![trigger change_in_range(self.config_spec(), change, now)]
                (change_in_range(self.config_spec(), change, now) ==> local_change_prepared(
                    self.config_spec(),
                    pin@,
                    change,
                    now,
                    self.logged_in_spec(),
                    r,
                )) && (!change_in_range(self.config_spec(), change, now) ==> r matches Err(
                    Error::Time,
                )),
    {
        let now = Timestamp::now();
        if !self.config.change_fits(change, now) {
            return Err(Error::Time);
        }
        self.prepare_local_change(pin, change, now)
    }

    /// Checks the current PIN and, if it is accepted, prepares the
    /// configuration with `new_pin` as the parent PIN (nothing else changed).
    pub fn prepare_change_pin(&self, current_pin: &str, new_pin: &str) -> (r: Result<AppConfig>)
        ensures
            match pin_verdict(self.config_spec().pin_hash, current_pin@) {
                PinVerdict::Missing => r matches Err(Error::ConfigIncomplete(field)) && field@
                    == "pin_hash"@,
                PinVerdict::Corrupt => r matches Err(Error::SecretUnseal),
                PinVerdict::Wrong => r matches Err(Error::InvalidPin),
                PinVerdict::Accepted => {
                    &&& pin_fits(new_pin@) ==> r is Ok
                    &&& r matches Err(e) ==> e is SecretSeal
                    &&& r matches Ok(next) ==> {
                        &&& pin_verdict(next.pin_hash, new_pin@) == PinVerdict::Accepted
                        &&& next == (AppConfig { pin_hash: next.pin_hash, ..self.config_spec() })
                    }
                },
            },
    {
        self.verify_pin(current_pin)?;
        let mut config = self.config.duplicate();
        config.set_pin(new_pin)?;
        Ok(config)
    }

    /// Records whether the protected user is at the console.
    pub fn set_protected_user_logged_in(&mut self, value: bool)
        ensures
            final(self).logged_in_spec() == value,
            final(self).config_spec() == old(self).config_spec(),
            final(self).sessions_spec() == old(self).sessions_spec(),
            final(self).last_spawn_spec() == old(self).last_spawn_spec(),
    {
        self.protected_user_logged_in = value;
    }

    /// Allows a launch attempt at most every fifteen seconds; an allowed
    /// attempt is remembered.
    pub fn should_retry_agent_spawn(&mut self, now: Timestamp) -> (r: bool)
        ensures
            r == spawn_allowed(old(self).last_spawn_spec(), now),
            final(self).last_spawn_spec() == if r {
                Some(now)
            } else {
                old(self).last_spawn_spec()
            },
            final(self).config_spec() == old(self).config_spec(),
            final(self).sessions_spec() == old(self).sessions_spec(),
            final(self).logged_in_spec() == old(self).logged_in_spec(),
    {
        let can_retry = match self.last_spawn_attempt {
            Some(last_attempt) => now.nanos_since(&last_attempt) >= (AGENT_SPAWN_RETRY_SECS as i128)
                * 1_000_000_000,
            None => true,
        };
        if can_retry {
            self.last_spawn_attempt = Some(now);
        }
        can_retry
    }

    /// The status at `now`, and whether the protected user is logged in while
    /// the agent's heartbeat is stale (which deserves a warning).
    pub fn mark_agent_unhealthy_if_needed(&self, now: Timestamp) -> (r: (DeviceStatus, bool))
        ensures
            r.0 == status_of(self.config_spec(), now, self.logged_in_spec()),
            r.1 == (!heartbeat_fresh(self.config_spec().last_agent_heartbeat_utc, now)
                && self.logged_in_spec()),
    {
        let status = self.config.status(now, self.protected_user_logged_in);
        let stale = !status.agent_healthy && status.protected_user_logged_in;
        (status, stale)
    }

    /// One supervision round at `now`: the status, whether to warn about a
    /// stale agent, and whether to launch a new agent (only when the user is
    /// logged in, the agent is stale and the retry interval has passed; only
    /// then is the attempt recorded).
    pub fn supervise_agent(&mut self, now: Timestamp) -> (r: SupervisionStep)
        ensures
            r.status == status_of(old(self).config_spec(), now, old(self).logged_in_spec()),
            r.agent_stale == (old(self).logged_in_spec() && !r.status.agent_healthy),
            r.spawn_agent == (r.agent_stale && spawn_allowed(old(self).last_spawn_spec(), now)),
            final(self).last_spawn_spec() == if r.spawn_agent {
                Some(now)
            } else {
                old(self).last_spawn_spec()
            },
            final(self).config_spec() == old(self).config_spec(),
            final(self).sessions_spec() == old(self).sessions_spec(),
            final(self).logged_in_spec() == old(self).logged_in_spec(),
    {
        let (status, stale) = self.mark_agent_unhealthy_if_needed(now);
        let spawn = stale && self.should_retry_agent_spawn(now);
        SupervisionStep { status, agent_stale: stale, spawn_agent: spawn }
    }

    /// If the unlock deadline has passed by `now`: the configuration with the
    /// deadline and follow-up cleared, and the follow-up that is due.
    pub fn prepare_pending_expiry_action(&self, now: Timestamp) -> (r: Option<(AppConfig, PendingExpiryAction)>)
        ensures
            expiry_due(self.config_spec().unlock_expires_at_utc, now) ==> (r matches Some((next, p))
                && next == after_expiry(self.config_spec()) && due_follow_up(self.config_spec(), p)),
            !expiry_due(self.config_spec().unlock_expires_at_utc, now) ==> r is None,
    {
        let mut config = self.config.duplicate();
        match config.take_pending_expiry_action(now) {
            Some(pending) => Some((config, pending)),
            None => None,
        }
    }

    /// If a heartbeat is saved: the configuration without it.
    pub fn prepare_clear_saved_agent_heartbeat(&self) -> (r: Option<AppConfig>)
        ensures
            match self.config_spec().last_agent_heartbeat_utc {
                Some(_) => r == Some(
                    AppConfig { last_agent_heartbeat_utc: None, ..self.config_spec() },
                ),
                None => r is None,
            },
    {
        let mut config = self.config.duplicate();
        if config.clear_saved_agent_heartbeat() {
            Some(config)
        } else {
            None
        }
    }
}

/// A control request is accepted exactly while its session is open and not
/// expired: after `record_session(token, e)`, `require_session_at(token, now)`
/// succeeds if and only if `now` is before `e`.
pub proof fn law_session_accepted_until_expiry(
    sessions: Map<Seq<char>, Timestamp>,
    token: Seq<char>,
    expires: Timestamp,
    now: Timestamp,
)
    ensures
        session_valid(sessions.insert(token, expires), token, now) <==> now@ < expires@,
{
}

/// A token that was never recorded is refused, and after pruning at `now` no
/// open session has expired.
pub proof fn law_sessions_refuse_unknown_and_expired(
    sessions: Map<Seq<char>, Timestamp>,
    token: Seq<char>,
    now: Timestamp,
)
    ensures
        !sessions.contains_key(token) ==> !session_valid(sessions, token, now),
        forall|k: Seq<char>| #[trigger]
            live_sessions(sessions, now).contains_key(k) ==> live_sessions(sessions, now)[k]@ > now@,
        session_valid(live_sessions(sessions, now), token, now) == session_valid(sessions, token, now),
{
}

/// Agent launches are spaced: once an attempt is allowed at `t`, no attempt
/// is allowed before fifteen seconds have passed.
pub proof fn law_spawn_attempts_spaced(first: Timestamp, later: Timestamp)
    ensures
        later@ - first@ < AGENT_SPAWN_RETRY_SECS * 1_000_000_000 ==> !spawn_allowed(Some(first), later),
        later@ - first@ >= AGENT_SPAWN_RETRY_SECS * 1_000_000_000 ==> spawn_allowed(Some(first), later),
{
}

} // verus!
