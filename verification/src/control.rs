//! The HTTP control plane's rules: reading unlock and extend bodies, reading
//! the bearer token, and the HTTP status that each error is answered with.
use vstd::prelude::*;

use crate::config::ConfigChange;
use crate::error::Error;
use crate::model::{LockCommandRequest, UnlockExpiryAction};
use crate::text::{
    chars_of, copy_range, has_prefix, parse_u16_chars, parse_u16_spec, starts_with_chars,
    string_from_chars, trim, trim_chars,
};
use crate::secret::utf8_text;

verus! {

/// A control session is valid for this many minutes.
pub const SESSION_TTL_MINUTES: u16 = 10;

/// Duration used when a body gives none.
pub const DEFAULT_DURATION_MINUTES: u16 = 30;

/// The readings of a JSON body that the parser uses: the document as an
/// unsigned number or as text, its `durationMinutes` member as an unsigned
/// number or as text, and its `expiryAction` member (present or not, its text
/// if it is a string, and its entries, each key with whether its value is
/// `null`, if it is an object).
pub struct JsonLockFieldsView {
    pub number: Option<u64>,
    pub text: Option<Seq<char>>,
    pub duration_number: Option<u64>,
    pub duration_text: Option<Seq<char>>,
    pub expiry_present: bool,
    pub expiry_text: Option<Seq<char>>,
    pub expiry_entries: Option<Seq<(Seq<char>, bool)>>,
}

/// The readings of a JSON body that the parser uses.
pub struct JsonLockFields {
    pub number: Option<u64>,
    pub text: Option<String>,
    pub duration_number: Option<u64>,
    pub duration_text: Option<String>,
    pub expiry_present: bool,
    pub expiry_text: Option<String>,
    pub expiry_entries: Option<Vec<(String, bool)>>,
}

/// The view of an optional text.
pub open spec fn text_view(t: Option<String>) -> Option<Seq<char>> {
    match t {
        Some(s) => Some(s@),
        None => None,
    }
}

/// The view of optional object entries.
pub open spec fn entries_view(t: Option<Vec<(String, bool)>>) -> Option<Seq<(Seq<char>, bool)>> {
    match t {
        Some(v) => Some(v@.map_values(|e: (String, bool)| (e.0@, e.1))),
        None => None,
    }
}

impl View for JsonLockFields {
    type V = JsonLockFieldsView;

    open spec fn view(&self) -> JsonLockFieldsView {
        JsonLockFieldsView {
            number: self.number,
            text: text_view(self.text),
            duration_number: self.duration_number,
            duration_text: text_view(self.duration_text),
            expiry_present: self.expiry_present,
            expiry_text: text_view(self.expiry_text),
            expiry_entries: entries_view(self.expiry_entries),
        }
    }
}

/// What the parser reads of one JSON value: it as an unsigned number, as
/// text, and, if it is an object, its entries (each key with whether its
/// value is `null`).
pub struct JsonReadingView {
    pub number: Option<u64>,
    pub text: Option<Seq<char>>,
    pub entries: Option<Seq<(Seq<char>, bool)>>,
}

/// The readings of one JSON value.
pub struct JsonReading {
    pub number: Option<u64>,
    pub text: Option<String>,
    pub entries: Option<Vec<(String, bool)>>,
}

impl View for JsonReading {
    type V = JsonReadingView;

    open spec fn view(&self) -> JsonReadingView {
        JsonReadingView {
            number: self.number,
            text: text_view(self.text),
            entries: entries_view(self.entries),
        }
    }
}

/// What the parser reads of a JSON document: the document itself, and, if it
/// is an object, its members in order, each with its readings.
pub struct JsonDocumentView {
    pub top: JsonReadingView,
    pub members: Option<Seq<(Seq<char>, JsonReadingView)>>,
}

/// The readings of a JSON document.
pub struct JsonDocument {
    pub top: JsonReading,
    pub members: Option<Vec<(String, JsonReading)>>,
}

impl View for JsonDocument {
    type V = JsonDocumentView;

    open spec fn view(&self) -> JsonDocumentView {
        JsonDocumentView {
            top: self.top@,
            members: match self.members {
                Some(ms) => Some(ms@.map_values(|m: (String, JsonReading)| (m.0@, m.1@))),
                None => None,
            },
        }
    }
}

/// What `serde_json` reads from a body: `None` when it is not JSON.
pub uninterp spec fn json_document(body: Seq<u8>) -> Option<JsonDocumentView>;

/// Parses `body` as a `serde_json::Value` (`serde_json::from_slice`) and
/// reads it, and each member of it if it is an object, with `Value::as_u64`,
/// `Value::as_str`, `Value::as_object` and `Value::is_null`. All of these are
/// functions of the bytes, so the readings are named as a function of the
/// body. The members come from a `serde_json::Map`, so no key occurs twice.
#[verifier::external_body]
fn read_json_document(body: &[u8]) -> (r: Option<JsonDocument>)
    ensures
        match r {
            Some(d) => json_document(body@) == Some(d@),
            None => json_document(body@) is None,
        },
{
    let value: serde_json::Value = serde_json::from_slice(body).ok()?;
    let read = |v: &serde_json::Value| JsonReading {
        number: v.as_u64(),
        text: v.as_str().map(String::from),
        entries: v.as_object().map(|m| m.iter().map(|(k, e)| (k.clone(), e.is_null())).collect()),
    };
    Some(JsonDocument {
        top: read(&value),
        members: value.as_object().map(|m| m.iter().map(|(k, v)| (k.clone(), read(v))).collect()),
    })
}

/// The readings of the first member named `key`, if there is one.
pub open spec fn member_named(
    members: Seq<(Seq<char>, JsonReadingView)>,
    key: Seq<char>,
) -> Option<JsonReadingView>
    decreases members.len(),
{
    if members.len() == 0 {
        None
    } else if members[0].0 == key {
        Some(members[0].1)
    } else {
        member_named(members.drop_first(), key)
    }
}

/// The readings of the member `key` of a document (none unless it is an
/// object).
pub open spec fn document_member(d: JsonDocumentView, key: Seq<char>) -> Option<JsonReadingView> {
    match d.members {
        Some(ms) => member_named(ms, key),
        None => None,
    }
}

/// The readings that the unlock and extend bodies use: the document's own,
/// and those of its members `durationMinutes` and `expiryAction`.
pub open spec fn lock_fields_of(d: JsonDocumentView) -> JsonLockFieldsView {
    let duration = document_member(d, "durationMinutes"@);
    let expiry = document_member(d, "expiryAction"@);
    JsonLockFieldsView {
        number: d.top.number,
        text: d.top.text,
        duration_number: match duration {
            Some(m) => m.number,
            None => None,
        },
        duration_text: match duration {
            Some(m) => m.text,
            None => None,
        },
        expiry_present: expiry is Some,
        expiry_text: match expiry {
            Some(m) => m.text,
            None => None,
        },
        expiry_entries: match expiry {
            Some(m) => m.entries,
            None => None,
        },
    }
}

fn copy_text(t: &Option<String>) -> (r: Option<String>)
    ensures
        r == *t,
{
    match t {
        Some(s) => Some(s.clone()),
        None => None,
    }
}

fn copy_entries(t: &Option<Vec<(String, bool)>>) -> (r: Option<Vec<(String, bool)>>)
    ensures
        entries_view(r) == entries_view(*t),
{
    match t {
        None => None,
        Some(es) => {
            let mut out: Vec<(String, bool)> = Vec::new();
            let mut i: usize = 0;
            while i < es.len()
                invariant
                    i <= es.len(),
                    out@ == es@.subrange(0, i as int),
                decreases es.len() - i,
            {
                let e = &es[i];
                out.push((e.0.clone(), e.1));
                i = i + 1;
            }
            assert(es@.subrange(0, es@.len() as int) =~= es@);
            Some(out)
        },
    }
}

/// The readings of the member `key` of a document.
pub fn member_of(doc: &JsonDocument, key: &str) -> (r: Option<JsonReading>)
    ensures
        match r {
            Some(m) => document_member(doc@, key@) == Some(m@),
            None => document_member(doc@, key@) is None,
        },
{
    let members = match &doc.members {
        Some(ms) => ms,
        None => return None,
    };
    let ghost view = doc@.members->0;
    let wanted = key.to_owned();
    let mut i: usize = 0;
    assert(view.subrange(0, view.len() as int) =~= view);
    while i < members.len()
        invariant
            i <= members.len(),
            wanted@ == key@,
            doc.members == Some(*members),
            view == members@.map_values(|m: (String, JsonReading)| (m.0@, m.1@)),
            member_named(view, key@) == member_named(view.subrange(i as int, view.len() as int), key@),
        decreases members.len() - i,
    {
        let ghost rest = view.subrange(i as int, view.len() as int);
        assert(rest.drop_first() =~= view.subrange(i + 1, view.len() as int));
        assert(rest[0] == (members@[i as int].0@, members@[i as int].1@));
        if members[i].0 == wanted {
            let m = &members[i].1;
            return Some(JsonReading { number: m.number, text: copy_text(&m.text), entries: copy_entries(&m.entries) });
        }
        i = i + 1;
    }
    assert(view.subrange(i as int, view.len() as int).len() == 0);
    None
}

/// The readings that the unlock and extend bodies use, picked from a
/// document.
pub fn lock_fields(doc: &JsonDocument) -> (r: JsonLockFields)
    ensures
        r@ == lock_fields_of(doc@),
{
    let duration = member_of(doc, "durationMinutes");
    let expiry = member_of(doc, "expiryAction");
    JsonLockFields {
        number: doc.top.number,
        text: copy_text(&doc.top.text),
        duration_number: match &duration {
            Some(m) => m.number,
            None => None,
        },
        duration_text: match &duration {
            Some(m) => copy_text(&m.text),
            None => None,
        },
        expiry_present: expiry.is_some(),
        expiry_text: match &expiry {
            Some(m) => copy_text(&m.text),
            None => None,
        },
        expiry_entries: match &expiry {
            Some(m) => copy_entries(&m.entries),
            None => None,
        },
    }
}

/// The follow-up action that a name stands for (`agent_lock` is an older
/// name of App lock).
pub open spec fn action_named(name: Seq<char>) -> Option<UnlockExpiryAction> {
    if name == "app_lock"@ || name == "agent_lock"@ {
        Some(UnlockExpiryAction::AppLock)
    } else if name == "windows_lock"@ {
        Some(UnlockExpiryAction::WindowsLock)
    } else if name == "shutdown"@ {
        Some(UnlockExpiryAction::Shutdown)
    } else {
        None
    }
}

/// The follow-up action of a name.
pub fn action_from_name(name: &String) -> (r: Option<UnlockExpiryAction>)
    ensures
        r == action_named(name@),
{
    if *name == "app_lock".to_owned() || *name == "agent_lock".to_owned() {
        Some(UnlockExpiryAction::AppLock)
    } else if *name == "windows_lock".to_owned() {
        Some(UnlockExpiryAction::WindowsLock)
    } else if *name == "shutdown".to_owned() {
        Some(UnlockExpiryAction::Shutdown)
    } else {
        None
    }
}

/// The duration and follow-up read from an unlock or extend body.
#[derive(Debug, Clone, Copy, PartialEq, Eq, Structural)]
pub struct ParsedLockCommand {
    pub duration_minutes: u16,
    pub expiry_action: Option<UnlockExpiryAction>,
}

/// Why a body was refused.
#[derive(Debug, Clone, Copy, PartialEq, Eq, Structural)]
pub enum LockCommandError {
    /// A duration was given but is not a `u16`, or the follow-up is unknown.
    InvalidDuration,
    /// No duration could be read at all.
    Unrecognized,
}

/// The follow-up that the JSON readings give: absent, a known name (as a
/// string, or as the one key of an object whose value is `null`, the two
/// forms serde reads a unit variant from), or an error.
pub open spec fn expiry_reading(f: JsonLockFieldsView) -> Result<Option<UnlockExpiryAction>, LockCommandError> {
    if !f.expiry_present {
        Ok(None)
    } else {
        let name: Option<Seq<char>> = match f.expiry_text {
            Some(t) => Some(t),
            None => match f.expiry_entries {
                Some(es) => if es.len() == 1 && es[0].1 {
                    Some(es[0].0)
                } else {
                    None
                },
                None => None,
            },
        };
        match name {
            Some(n) => match action_named(n) {
                Some(a) => Ok(Some(a)),
                None => Err(LockCommandError::InvalidDuration),
            },
            None => Err(LockCommandError::InvalidDuration),
        }
    }
}

/// The command read from a duration and the JSON readings.
pub open spec fn with_expiry(duration: Option<u16>, f: JsonLockFieldsView) -> Result<ParsedLockCommand, LockCommandError> {
    match duration {
        None => Err(LockCommandError::InvalidDuration),
        Some(d) => match expiry_reading(f) {
            Ok(a) => Ok(ParsedLockCommand { duration_minutes: d, expiry_action: a }),
            Err(e) => Err(e),
        },
    }
}

/// The command that the JSON readings give: a number (the `durationMinutes`
/// member, else the whole document) up to 65535, else a text holding such a
/// number, each with the follow-up; `None` when neither is there.
pub open spec fn json_command(f: JsonLockFieldsView) -> Option<Result<ParsedLockCommand, LockCommandError>> {
    let number = match f.duration_number {
        Some(n) => Some(n),
        None => f.number,
    };
    let text = match f.duration_text {
        Some(t) => Some(t),
        None => f.text,
    };
    match number {
        Some(n) => Some(with_expiry(if n <= u16::MAX { Some(n as u16) } else { None }, f)),
        None => match text {
            Some(t) => Some(with_expiry(parse_u16_spec(t), f)),
            None => None,
        },
    }
}

/// The reading of a body as plain text (after the JSON readings found no
/// duration): blank means the default, `durationMinutes=N` and `N` give `N`.
pub open spec fn text_command(body: Seq<u8>) -> Option<Result<ParsedLockCommand, LockCommandError>> {
    if !vstd::utf8::valid_utf8(body) {
        None
    } else {
        let t = trim(vstd::utf8::decode_utf8(body));
        let prefix = "durationMinutes="@;
        if t.len() == 0 {
            Some(Ok(ParsedLockCommand { duration_minutes: 30, expiry_action: None }))
        } else if has_prefix(t, prefix) {
            match parse_u16_spec(trim(t.subrange(prefix.len() as int, t.len() as int))) {
                Some(d) => Some(Ok(ParsedLockCommand { duration_minutes: d, expiry_action: None })),
                None => Some(Err(LockCommandError::InvalidDuration)),
            }
        } else {
            match parse_u16_spec(t) {
                Some(d) => Some(Ok(ParsedLockCommand { duration_minutes: d, expiry_action: None })),
                None => None,
            }
        }
    }
}

/// How an unlock or extend body reads. In order: an empty body means 30
/// minutes; then the typed JSON reading; then a JSON number (the
/// `durationMinutes` member or the whole document), then JSON text holding a
/// number; then plain text; otherwise the body is refused.
pub open spec fn lock_command(body: Seq<u8>, typed: Option<LockCommandRequest>) -> Result<ParsedLockCommand, LockCommandError> {
    if body.len() == 0 {
        Ok(ParsedLockCommand { duration_minutes: 30, expiry_action: None })
    } else if typed is Some {
        let t = typed->0;
        if t.duration_minutes >= 0 {
            Ok(ParsedLockCommand { duration_minutes: t.duration_minutes as u16, expiry_action: t.expiry_action })
        } else {
            Err(LockCommandError::InvalidDuration)
        }
    } else {
        let from_json: Option<Result<ParsedLockCommand, LockCommandError>> = match json_document(
            body,
        ) {
            Some(d) => json_command(lock_fields_of(d)),
            None => None,
        };
        match from_json {
            Some(r) => r,
            None => match text_command(body) {
                Some(r) => r,
                None => Err(LockCommandError::Unrecognized),
            },
        }
    }
}

fn expiry_from_fields(f: &JsonLockFields) -> (r: Result<Option<UnlockExpiryAction>, LockCommandError>)
    ensures
        r == expiry_reading(f@),
{
    if !f.expiry_present {
        return Ok(None);
    }
    let name: Option<&String> = match &f.expiry_text {
        Some(t) => Some(t),
        None => match &f.expiry_entries {
            Some(es) => if es.len() == 1 && es[0].1 {
                Some(&es[0].0)
            } else {
                None
            },
            None => None,
        },
    };
    match name {
        Some(n) => match action_from_name(n) {
            Some(a) => Ok(Some(a)),
            None => Err(LockCommandError::InvalidDuration),
        },
        None => Err(LockCommandError::InvalidDuration),
    }
}

/// Reads the command from the JSON readings of a body.
pub fn command_from_json(fields: &JsonLockFields) -> (r: Option<Result<ParsedLockCommand, LockCommandError>>)
    ensures
        r == json_command(fields@),
{
    let number = match fields.duration_number {
        Some(n) => Some(n),
        None => fields.number,
    };
    if let Some(n) = number {
        if n > 65535 {
            return Some(Err(LockCommandError::InvalidDuration));
        }
        return Some(
            match expiry_from_fields(fields) {
                Ok(a) => Ok(ParsedLockCommand { duration_minutes: n as u16, expiry_action: a }),
                Err(e) => Err(e),
            },
        );
    }
    let text = match &fields.duration_text {
        Some(t) => Some(t),
        None => match &fields.text {
            Some(t) => Some(t),
            None => None,
        },
    };
    match text {
        Some(t) => {
            let cs = chars_of(t.as_str());
            match parse_u16_chars(&cs) {
                Some(d) => Some(
                    match expiry_from_fields(fields) {
                        Ok(a) => Ok(ParsedLockCommand { duration_minutes: d, expiry_action: a }),
                        Err(e) => Err(e),
                    },
                ),
                None => Some(Err(LockCommandError::InvalidDuration)),
            }
        },
        None => None,
    }
}

fn command_from_text(body: &[u8]) -> (r: Option<Result<ParsedLockCommand, LockCommandError>>)
    ensures
        r == text_command(body@),
{
    let text = match utf8_text(body) {
        Some(t) => t,
        None => return None,
    };
    let all = chars_of(text);
    let trimmed = trim_chars(&all);
    if trimmed.len() == 0 {
        return Some(Ok(ParsedLockCommand { duration_minutes: DEFAULT_DURATION_MINUTES, expiry_action: None }));
    }
    let prefix_text = "durationMinutes=";
    let prefix = chars_of(prefix_text);
    proof {
        reveal_strlit("durationMinutes=");
    }
    if starts_with_chars(&trimmed, &prefix) {
        let rest = copy_range(&trimmed, prefix.len(), trimmed.len());
        let value = trim_chars(&rest);
        return match parse_u16_chars(&value) {
            Some(d) => Some(Ok(ParsedLockCommand { duration_minutes: d, expiry_action: None })),
            None => Some(Err(LockCommandError::InvalidDuration)),
        };
    }
    match parse_u16_chars(&trimmed) {
        Some(d) => Some(Ok(ParsedLockCommand { duration_minutes: d, expiry_action: None })),
        None => None,
    }
}

/// Reads an unlock or extend body. `typed` is the body read as a
/// `LockCommandRequest` JSON document (by the caller, which owns the serde
/// derive), or `None` when it is not one.
pub fn parse_lock_command(body: &[u8], typed: Option<LockCommandRequest>) -> (r: Result<ParsedLockCommand, LockCommandError>)
    ensures
        r == lock_command(body@, typed),
{
    if body.len() == 0 {
        return Ok(ParsedLockCommand { duration_minutes: DEFAULT_DURATION_MINUTES, expiry_action: None });
    }
    if let Some(payload) = typed {
        if payload.duration_minutes >= 0 {
            return Ok(ParsedLockCommand {
                duration_minutes: payload.duration_minutes as u16,
                expiry_action: payload.expiry_action,
            });
        }
        return Err(LockCommandError::InvalidDuration);
    }
    if let Some(doc) = read_json_document(body) {
        let fields = lock_fields(&doc);
        if let Some(r) = command_from_json(&fields) {
            return r;
        }
    }
    match command_from_text(body) {
        Some(r) => r,
        None => Err(LockCommandError::Unrecognized),
    }
}


/// The token of an `Authorization` header of the form `Bearer <token>`.
pub fn bearer_token(header: &str) -> (r: Option<String>)
    ensures
        match r {
            Some(t) => has_prefix(header@, "Bearer "@) && t@ == header@.subrange(
                "Bearer "@.len() as int,
                header@.len() as int,
            ),
            None => !has_prefix(header@, "Bearer "@),
        },
{
    let all = chars_of(header);
    let prefix = chars_of("Bearer ");
    if !starts_with_chars(&all, &prefix) {
        return None;
    }
    let rest = copy_range(&all, prefix.len(), all.len());
    Some(string_from_chars(rest.as_slice()))
}

/// The HTTP status classes that errors are answered with.
#[derive(Debug, Clone, Copy, PartialEq, Eq, Structural)]
pub enum HttpStatus {
    /// 400
    BadRequest,
    /// 401
    Unauthorized,
    /// 500
    InternalServerError,
    /// 503
    ServiceUnavailable,
}

/// The status for an error: wrong PIN or session is 401, a bad duration 400,
/// a missing PIN or snapshot 503, anything else 500.
pub open spec fn error_status(e: Error) -> HttpStatus {
    match e {
        Error::InvalidPin | Error::InvalidSessionToken => HttpStatus::Unauthorized,
        Error::InvalidDuration => HttpStatus::BadRequest,
        Error::ConfigIncomplete(_) | Error::SnapshotUnavailable(_) => HttpStatus::ServiceUnavailable,
        _ => HttpStatus::InternalServerError,
    }
}

/// The HTTP status that `error` is answered with.
pub fn status_for_error(error: &Error) -> (r: HttpStatus)
    ensures
        r == error_status(*error),
{
    match error {
        Error::InvalidPin | Error::InvalidSessionToken => HttpStatus::Unauthorized,
        Error::InvalidDuration => HttpStatus::BadRequest,
        Error::ConfigIncomplete(_) | Error::SnapshotUnavailable(_) => HttpStatus::ServiceUnavailable,
        _ => HttpStatus::InternalServerError,
    }
}

/// What an unlock request asks for.
#[derive(Debug, Clone, Copy, PartialEq, Eq, Structural)]
pub enum UnlockPlan {
    /// Zero minutes without a follow-up: refused.
    MissingExpiryAction,
    /// Zero minutes with App lock: lock at once.
    LockNow,
    /// Zero minutes with Windows lock: lock the workstation at once.
    WindowsLockNow,
    /// Zero minutes with Shutdown: shut down at once.
    ShutdownNow,
    /// A timed unlock.
    Unlock(ConfigChange),
}

/// A zero duration applies the chosen follow-up at once; any other duration
/// asks for a timed unlock.
pub open spec fn unlock_plan(command: ParsedLockCommand) -> UnlockPlan {
    if command.duration_minutes == 0 {
        match command.expiry_action {
            None => UnlockPlan::MissingExpiryAction,
            Some(UnlockExpiryAction::AppLock) => UnlockPlan::LockNow,
            Some(UnlockExpiryAction::WindowsLock) => UnlockPlan::WindowsLockNow,
            Some(UnlockExpiryAction::Shutdown) => UnlockPlan::ShutdownNow,
        }
    } else {
        UnlockPlan::Unlock(
            ConfigChange::Unlock {
                duration_minutes: command.duration_minutes,
                expiry_action: command.expiry_action,
            },
        )
    }
}

/// Decides what an unlock request asks for.
pub fn plan_unlock(command: ParsedLockCommand) -> (r: UnlockPlan)
    ensures
        r == unlock_plan(command),
{
    if command.duration_minutes == 0 {
        match command.expiry_action {
            None => UnlockPlan::MissingExpiryAction,
            Some(UnlockExpiryAction::AppLock) => UnlockPlan::LockNow,
            Some(UnlockExpiryAction::WindowsLock) => UnlockPlan::WindowsLockNow,
            Some(UnlockExpiryAction::Shutdown) => UnlockPlan::ShutdownNow,
        }
    } else {
        UnlockPlan::Unlock(
            ConfigChange::Unlock {
                duration_minutes: command.duration_minutes,
                expiry_action: command.expiry_action,
            },
        )
    }
}

/// The change that an extend request asks for.
pub fn plan_extend(command: ParsedLockCommand) -> (r: ConfigChange)
    ensures
        r == (ConfigChange::Extend {
            duration_minutes: command.duration_minutes,
            expiry_action: command.expiry_action,
        }),
{
    ConfigChange::Extend {
        duration_minutes: command.duration_minutes,
        expiry_action: command.expiry_action,
    }
}

/// The duration of an agent request as the configuration takes it. A
/// negative number becomes zero minutes, which the unlock refuses as an
/// invalid duration once the PIN has been checked.
pub fn duration_from_request(duration_minutes: i16) -> (r: u16)
    ensures
        duration_minutes >= 0 ==> r == duration_minutes,
        duration_minutes < 0 ==> r == 0,
        duration_minutes < 0 ==> !crate::config::valid_duration(r as int),
{
    if duration_minutes < 0 {
        0
    } else {
        duration_minutes as u16
    }
}

/// An empty body asks for the default thirty minutes without a follow-up.
pub proof fn law_blank_body_means_default(body: Seq<u8>)
    requires
        body.len() == 0,
    ensures
        lock_command(body, None) == Ok::<ParsedLockCommand, LockCommandError>(
            ParsedLockCommand { duration_minutes: 30, expiry_action: None },
        ),
{
}

/// A zero-minute unlock never starts a timed unlock, and any other duration
/// always does, with the requested duration and follow-up.
pub proof fn law_zero_duration_acts_at_once(command: ParsedLockCommand)
    ensures
        command.duration_minutes == 0 ==> !(unlock_plan(command) is Unlock),
        command.duration_minutes != 0 ==> unlock_plan(command) == UnlockPlan::Unlock(
            ConfigChange::Unlock {
                duration_minutes: command.duration_minutes,
                expiry_action: command.expiry_action,
            },
        ),
{
}

/// A non-empty body with a typed reading is taken as typed: a non-negative
/// duration and the follow-up are used as they are (zero minutes included,
/// which the unlock then turns into the follow-up at once), and a negative
/// duration is refused. What the body's bytes say otherwise does not matter.
pub proof fn law_typed_body_taken_as_is(body: Seq<u8>, other: Seq<u8>, typed: LockCommandRequest)
    requires
        body.len() > 0,
        other.len() > 0,
    ensures
        typed.duration_minutes >= 0 ==> lock_command(body, Some(typed)) == Ok::<
            ParsedLockCommand,
            LockCommandError,
        >(
            ParsedLockCommand {
                duration_minutes: typed.duration_minutes as u16,
                expiry_action: typed.expiry_action,
            },
        ),
        typed.duration_minutes >= 0 ==> (lock_command(body, Some(typed)) matches Ok(c)
            && c.duration_minutes == typed.duration_minutes),
        typed.duration_minutes < 0 ==> lock_command(body, Some(typed)) is Err,
        lock_command(body, Some(typed)) == lock_command(other, Some(typed)),
        (typed.duration_minutes == 0 && typed.expiry_action matches Some(a)) ==> (lock_command(
            body,
            Some(typed),
        ) matches Ok(c) && !(unlock_plan(c) is Unlock) && !(unlock_plan(c) is MissingExpiryAction)),
{
}

} // verus!
