//! The decisions of the native sync runtime that need no connection: its
//! status record, the base URL it is configured with, the websocket scheme
//! for an HTTP scheme, the backoff between reconnects, and which commute
//! tickets need their directions refreshed.

use vstd::prelude::*;
use crate::json::{member, Json};
use crate::text::{chars_of, push_str, string_from_chars, trim, trim_chars};
use crate::agent::provider::trim_end_slashes;

verus! {

/// The state of the sync connection, as the app shows it.
#[derive(Debug, Clone)]
pub struct SyncConnectionStatus {
    pub connected: bool,
    pub phase: String,
    pub message: Option<String>,
    pub transport_owner: String,
}

impl Default for SyncConnectionStatus {
    /// Idle and disconnected, owned by the native transport.
    fn default() -> (r: Self)
        ensures
            !r.connected && r.phase@ == "idle"@ && r.message is None && r.transport_owner@ == "tauri-rust"@,
    {
        SyncConnectionStatus {
            connected: false,
            phase: String::from_str("idle"),
            message: None,
            transport_owner: String::from_str("tauri-rust"),
        }
    }
}

impl SyncConnectionStatus {
    /// The status shown when the runtime's state cannot be read.
    pub fn poisoned() -> (r: Self)
        ensures
            !r.connected && r.phase@ == "error"@ && (r.message matches Some(m) && m@
                == "sync runtime state lock poisoned"@) && r.transport_owner@ == "tauri-rust"@,
    {
        SyncConnectionStatus {
            connected: false,
            phase: String::from_str("error"),
            message: Some(String::from_str("sync runtime state lock poisoned")),
            transport_owner: String::from_str("tauri-rust"),
        }
    }
}

/// The sync base URL: the setting trimmed, without the `/` that end it;
/// a blank setting is refused.
pub open spec fn base_url_of(value: Seq<char>) -> Result<Seq<char>, Seq<char>> {
    if trim(value).len() == 0 {
        Err("sync base URL must not be empty"@)
    } else {
        Ok(trim_end_slashes(trim(value)))
    }
}

/// Normalizes the sync base URL.
pub fn normalize_base_url(value: &str) -> (r: Result<String, String>)
    ensures
        match base_url_of(value@) {
            Ok(u) => r matches Ok(s) && s@ == u,
            Err(m) => r matches Err(s) && s@ == m,
        },
{
    let cs = chars_of(value);
    let t = trim_chars(&cs);
    if t.len() == 0 {
        return Err(String::from_str("sync base URL must not be empty"));
    }
    let mut n: usize = t.len();
    assert(t@.take(n as int) =~= t@);
    while n > 0 && t[n - 1] == '/'
        invariant
            n <= t@.len(),
            trim_end_slashes(t@) == trim_end_slashes(t@.take(n as int)),
        decreases n,
    {
        assert(t@.take(n as int).drop_last() =~= t@.take(n - 1));
        n = n - 1;
    }
    assert(trim_end_slashes(t@.take(n as int)) == t@.take(n as int));
    let out = crate::text::chars_slice(&t, 0, n);
    Ok(string_from_chars(&out))
}

/// The websocket scheme for an HTTP scheme.
pub open spec fn ws_scheme_of(scheme: Seq<char>) -> Result<Seq<char>, Seq<char>> {
    if scheme == "https"@ {
        Ok("wss"@)
    } else if scheme == "http"@ {
        Ok("ws"@)
    } else {
        Err("unsupported sync URL scheme '"@ + scheme + "'"@)
    }
}

/// The websocket scheme for an HTTP scheme.
pub fn websocket_scheme(scheme: &str) -> (r: Result<&'static str, String>)
    ensures
        match ws_scheme_of(scheme@) {
            Ok(w) => r matches Ok(s) && s@ == w,
            Err(m) => r matches Err(s) && s@ == m,
        },
{
    if crate::text::str_eq(scheme, "https") {
        Ok("wss")
    } else if crate::text::str_eq(scheme, "http") {
        Ok("ws")
    } else {
        let mut m: Vec<char> = Vec::new();
        push_str(&mut m, "unsupported sync URL scheme '");
        push_str(&mut m, scheme);
        push_str(&mut m, "'");
        Err(string_from_chars(&m))
    }
}

/// The longest wait between reconnects, in seconds.
pub const MAX_RECONNECT_DELAY_SECONDS: u64 = 30;

/// The wait before the next reconnect: twice the last, at most 30 seconds.
pub fn next_reconnect_delay(delay_seconds: u64) -> (r: u64)
    ensures
        r == (if 2 * delay_seconds < 30 { 2 * delay_seconds } else { 30 }),
{
    if delay_seconds < MAX_RECONNECT_DELAY_SECONDS / 2 {
        delay_seconds * 2
    } else {
        MAX_RECONNECT_DELAY_SECONDS
    }
}

/// Whether a commute's directions need a refresh from the server: they
/// are missing or not an object, or they lack a total duration in
/// minutes, or their total duration is missing, blank or the server's
/// placeholder.
pub open spec fn directions_need_refresh(directions: Option<Json>) -> bool {
    match directions {
        Some(Json::Object(es)) => {
            let d = Json::Object(es);
            let minutes_missing = match member(d, "total_duration_minutes"@) {
                None | Some(Json::Null) => true,
                _ => false,
            };
            let placeholder = match member(d, "total_duration"@) {
                Some(Json::Str(s)) => trim(s@).len() == 0 || s@ == "Enriching via Server..."@,
                _ => true,
            };
            minutes_missing || placeholder
        },
        _ => true,
    }
}

/// Whether a commute's directions need a refresh from the server.
pub fn commute_needs_remote_refresh(directions: Option<&Json>) -> (r: bool)
    ensures
        r == directions_need_refresh(match directions {
            Some(d) => Some(*d),
            None => None,
        }),
{
    let d = match directions {
        Some(d) => d,
        None => return true,
    };
    match d {
        Json::Object(_) => {},
        _ => return true,
    }
    let minutes_missing = match d.get("total_duration_minutes") {
        None => true,
        Some(Json::Null) => true,
        _ => false,
    };
    let placeholder = match d.get("total_duration") {
        Some(Json::Str(s)) => {
            let cs = chars_of(s.as_str());
            let t = trim_chars(&cs);
            t.len() == 0 || crate::text::str_eq(s.as_str(), "Enriching via Server...")
        },
        _ => true,
    };
    minutes_missing || placeholder
}

/// The websocket path of a user's sync channel.
pub open spec fn sync_ws_path_of(user_id: int) -> Seq<char> {
    "/ws/sync/"@ + crate::json::int_text(user_id)
}

/// The websocket path of a user's sync channel.
pub fn sync_ws_path(user_id: i64) -> (r: String)
    ensures
        r@ == sync_ws_path_of(user_id as int),
{
    let mut v: Vec<char> = Vec::new();
    push_str(&mut v, "/ws/sync/");
    let digits = crate::json::integer_text(user_id as i128);
    crate::text::push_chars(&mut v, &digits);
    string_from_chars(&v)
}

/// The API path that asks the server to refresh a commute's directions.
pub open spec fn commute_refresh_path_of(ticket_id: Seq<char>) -> Seq<char> {
    "/api/tickets/"@ + ticket_id + "/commute/refresh"@
}

/// The API path that asks the server to refresh a commute's directions.
pub fn commute_refresh_path(ticket_id: &str) -> (r: String)
    ensures
        r@ == commute_refresh_path_of(ticket_id@),
{
    let mut v: Vec<char> = Vec::new();
    push_str(&mut v, "/api/tickets/");
    push_str(&mut v, ticket_id);
    push_str(&mut v, "/commute/refresh");
    string_from_chars(&v)
}

/// The ticket type a remote record names, case aside; anything unknown is
/// a task.
pub open spec fn remote_ticket_type(value: Seq<char>) -> crate::workspace::stack::TicketType {
    let up = value.map_values(|c: char| crate::text::upper_char(c));
    if up == "HABIT"@ {
        crate::workspace::stack::TicketType::Habit
    } else if up == "EVENT"@ {
        crate::workspace::stack::TicketType::Event
    } else if up == "COMMUTE"@ {
        crate::workspace::stack::TicketType::Commute
    } else if up == "COUNTDOWN"@ {
        crate::workspace::stack::TicketType::Countdown
    } else {
        crate::workspace::stack::TicketType::Task
    }
}

/// The ticket type a remote record names.
pub fn parse_remote_ticket_type(value: &str) -> (r: crate::workspace::stack::TicketType)
    ensures
        r == remote_ticket_type(value@),
{
    let cs = chars_of(value);
    let up = crate::text::upper_chars(&cs);
    let s = string_from_chars(&up);
    if crate::text::str_eq(s.as_str(), "HABIT") {
        crate::workspace::stack::TicketType::Habit
    } else if crate::text::str_eq(s.as_str(), "EVENT") {
        crate::workspace::stack::TicketType::Event
    } else if crate::text::str_eq(s.as_str(), "COMMUTE") {
        crate::workspace::stack::TicketType::Commute
    } else if crate::text::str_eq(s.as_str(), "COUNTDOWN") {
        crate::workspace::stack::TicketType::Countdown
    } else {
        crate::workspace::stack::TicketType::Task
    }
}

/// Whether the server acknowledged the pending action `action_id`.
pub fn is_acknowledged(action_id: &str, ack_ids: &Vec<String>) -> (r: bool)
    ensures
        r == exists|k: int| 0 <= k < ack_ids@.len() && (#[trigger] ack_ids@[k])@ == action_id@,
{
    let mut i: usize = 0;
    while i < ack_ids.len()
        invariant
            i <= ack_ids@.len(),
            forall|k: int| 0 <= k < i ==> (#[trigger] ack_ids@[k])@ != action_id@,
        decreases ack_ids@.len() - i,
    {
        if crate::text::str_eq(ack_ids[i].as_str(), action_id) {
            return true;
        }
        i = i + 1;
    }
    false
}

/// The most pending actions kept locally.
pub const MAX_PENDING_ACTIONS: usize = 50;

/// How many of the oldest pending actions to drop so that at most fifty
/// remain.
pub fn pending_overflow(len: usize) -> (r: usize)
    ensures
        r == (if len > 50 { len - 50 } else { 0 }),
{
    if len > MAX_PENDING_ACTIONS {
        len - MAX_PENDING_ACTIONS
    } else {
        0
    }
}

} // verus!
