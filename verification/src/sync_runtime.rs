//! The decisions of the native sync runtime, as a state machine: the host
//! connects, sends, waits and reads the socket, and hands each outcome
//! back as an event; the machine answers with the next steps to take and
//! the status to publish.

use vstd::prelude::*;
use crate::json::{member, Json};
use crate::sync::{next_reconnect_delay, SyncConnectionStatus};
use crate::text::{push_str, string_from_chars, views};

verus! {

/// A command the host sends to the running runtime.
#[derive(Debug, Clone, Copy, PartialEq, Eq)]
pub enum SyncRuntimeCommand {
    Flush,
    Refresh,
    Shutdown,
}

/// What a connected runtime waits on before it reads the socket again.
#[derive(Debug, Clone, Copy, PartialEq, Eq)]
pub enum SyncAwait {
    Nothing,
    /// A flush asked for by a command; a failure drops the connection.
    CommandFlush,
    /// The flush after the handshake; a failure drops the connection
    /// without a status of its own.
    HandshakeFlush,
    /// A refresh of the remote state; a failure is only reported.
    Refresh,
    /// The refresh after the server reported the client out of sync;
    /// success is followed by a flush.
    OutOfSyncRefresh,
}

/// Where the runtime stands.
#[derive(Debug, Clone, Copy, PartialEq, Eq)]
pub enum SyncStage {
    /// Building the websocket request and connecting.
    Connecting,
    /// Connected, sending the HELLO of the handshake.
    Hello,
    /// Reading the socket and the commands.
    Live { handshake_completed: bool, awaiting: SyncAwait },
    /// Waiting before the next attempt; `after_hello` when the HELLO
    /// failed, in which case a shutdown publishes nothing.
    Waiting { after_hello: bool },
    /// Done for good.
    Stopped,
}

/// The runtime: the base URL it syncs with, its stage, and the wait
/// before its next reconnect.
#[derive(Debug)]
pub struct SyncRuntime {
    pub base_url: String,
    pub stage: SyncStage,
    pub reconnect_delay_seconds: u64,
}

/// How an attempt to connect ended.
#[derive(Debug)]
pub enum ConnectOutcome {
    /// The websocket request could not be built.
    RequestRefused(String),
    Connected,
    Failed(String),
    /// No connection within ten seconds.
    TimedOut,
}

/// What came from the socket.
#[derive(Debug)]
pub enum SocketEvent {
    /// A close frame, or the end of the stream.
    Closed,
    TransportError(String),
    /// A text frame that is not JSON, with the parser's message.
    Malformed(String),
    /// A text frame, parsed.
    Text(Json),
    /// Any other frame.
    NonText,
}

/// What the host hands the runtime.
#[derive(Debug)]
pub enum SyncEvent {
    Connect(ConnectOutcome),
    /// The HELLO was sent, or why not.
    Hello(Result<(), String>),
    /// Fifteen seconds passed since the HELLO.
    HandshakeDeadline,
    /// A command, or `None` when the command channel closed.
    Command(Option<SyncRuntimeCommand>),
    /// The pending actions were flushed, or why not.
    Flushed(Result<(), String>),
    /// The remote state was fetched and applied, or why not.
    Refreshed(Result<(), String>),
    Socket(SocketEvent),
    /// The wait before reconnecting is over.
    WaitOver,
}

/// What the host is to do, in order.
#[derive(Debug)]
pub enum SyncStep {
    /// Record and announce this status.
    Publish(SyncConnectionStatus),
    /// Build the websocket request and connect within ten seconds.
    Connect,
    /// Send the HELLO with the hash of the local state.
    SendHello,
    /// Close the socket.
    Close,
    /// Send the pending actions.
    Flush,
    /// Fetch and apply the remote state.
    Refresh,
    /// Drop the pending actions with these ids.
    RemoveAcked(Vec<String>),
    /// Wait this many seconds (a shutdown command ends the wait).
    Wait(u64),
    /// End the runtime.
    Finish,
}

/// The type a server message names (empty when it names none).
pub open spec fn type_of(j: Json) -> Seq<char> {
    match member(j, "type"@) {
        Some(Json::Str(s)) => s@,
        _ => Seq::empty(),
    }
}

/// Whether an `ACK` reads as in sync: its status is `IN_SYNC`.
pub open spec fn in_sync_of(j: Json) -> bool {
    member(j, "status"@) matches Some(Json::Str(s)) && s@ == "IN_SYNC"@
}

/// The acknowledged action ids of a `SYNC_ACK`, when it lists them as
/// strings.
pub open spec fn ack_ids_of(j: Json) -> Option<Seq<Seq<char>>> {
    match member(j, "ack_action_ids"@) {
        Some(Json::Array(items)) => if forall|i: int| 0 <= i < items@.len() ==> (#[trigger] items@[i]) is Str {
            Some(Seq::new(items@.len(), |i: int| items@[i]->Str_0@))
        } else {
            None
        },
        _ => None,
    }
}

/// `s` publishes the status `connected`, `phase`, `message`.
pub open spec fn status_is(s: SyncStep, connected: bool, phase: Seq<char>, message: Option<Seq<char>>) -> bool {
    &&& s matches SyncStep::Publish(st)
    &&& st.connected == connected && st.phase@ == phase && st.transport_owner@ == "tauri-rust"@
    &&& match message {
        Some(m) => st.message matches Some(x) && x@ == m,
        None => st.message is None,
    }
}

/// The runtime stays where it was and does nothing.
pub open spec fn unchanged(old: SyncRuntime, new: SyncRuntime, steps: Seq<SyncStep>) -> bool {
    new.stage == old.stage && new.reconnect_delay_seconds == old.reconnect_delay_seconds && steps.len() == 0
}

/// The runtime moves to `stage`, keeps its delay, and takes `n` steps.
pub open spec fn moves(old: SyncRuntime, new: SyncRuntime, steps: Seq<SyncStep>, stage: SyncStage, n: int) -> bool {
    new.stage == stage && new.reconnect_delay_seconds == old.reconnect_delay_seconds && steps.len() == n
}

/// The runtime gives up the connection: it waits its delay (the last of
/// its `n` steps) before the next attempt.
pub open spec fn waits(old: SyncRuntime, new: SyncRuntime, steps: Seq<SyncStep>, after_hello: bool, n: int) -> bool {
    &&& moves(old, new, steps, SyncStage::Waiting { after_hello }, n)
    &&& steps[n - 1] == SyncStep::Wait(old.reconnect_delay_seconds)
}

/// The runtime is connected and reads the socket again.
pub open spec fn live(hc: bool) -> SyncStage {
    SyncStage::Live { handshake_completed: hc, awaiting: SyncAwait::Nothing }
}

/// What a server message does to a connected runtime that waits on
/// nothing.
pub open spec fn message_ok(old: SyncRuntime, hc: bool, j: Json, new: SyncRuntime, steps: Seq<SyncStep>) -> bool {
    let t = type_of(j);
    if t == "ACK"@ {
        if in_sync_of(j) {
            &&& moves(old, new, steps, SyncStage::Live { handshake_completed: true, awaiting: SyncAwait::HandshakeFlush }, 2)
            &&& status_is(steps[0], true, "connected"@, None) && steps[1] == SyncStep::Flush
        } else {
            moves(old, new, steps, live(true), 0)
        }
    } else if t == "OUT_OF_SYNC"@ {
        &&& moves(old, new, steps, SyncStage::Live { handshake_completed: true, awaiting: SyncAwait::OutOfSyncRefresh }, 1)
        &&& steps[0] == SyncStep::Refresh
    } else if t == "SYNC_ACK"@ {
        match ack_ids_of(j) {
            Some(ids) => {
                &&& moves(old, new, steps, SyncStage::Live { handshake_completed: hc, awaiting: SyncAwait::Refresh }, 3)
                &&& status_is(steps[0], true, "connected"@, None)
                &&& steps[1] matches SyncStep::RemoveAcked(v) && views(v@) == ids
                &&& steps[2] == SyncStep::Refresh
            },
            None => unchanged(old, new, steps),
        }
    } else if t == "STATE_UPDATED"@ {
        &&& moves(old, new, steps, SyncStage::Live { handshake_completed: hc, awaiting: SyncAwait::Refresh }, 2)
        &&& status_is(steps[0], true, "connected"@, None) && steps[1] == SyncStep::Refresh
    } else {
        unchanged(old, new, steps)
    }
}

/// What an event does to a connected runtime that waits on nothing.
pub open spec fn live_ok(old: SyncRuntime, hc: bool, ev: SyncEvent, new: SyncRuntime, steps: Seq<SyncStep>) -> bool {
    match ev {
        SyncEvent::HandshakeDeadline => if hc {
            unchanged(old, new, steps)
        } else {
            &&& waits(old, new, steps, false, 3)
            &&& status_is(steps[0], false, "reconnecting"@, Some("handshake timeout: server did not respond within 15s"@))
            &&& steps[1] == SyncStep::Close
        },
        SyncEvent::Command(None) | SyncEvent::Command(Some(SyncRuntimeCommand::Shutdown)) => {
            &&& moves(old, new, steps, SyncStage::Stopped, 3)
            &&& steps[0] == SyncStep::Close && status_is(steps[1], false, "stopped"@, None) && steps[2] == SyncStep::Finish
        },
        SyncEvent::Command(Some(SyncRuntimeCommand::Flush)) => {
            &&& moves(old, new, steps, SyncStage::Live { handshake_completed: hc, awaiting: SyncAwait::CommandFlush }, 1)
            &&& steps[0] == SyncStep::Flush
        },
        SyncEvent::Command(Some(SyncRuntimeCommand::Refresh)) => {
            &&& moves(old, new, steps, SyncStage::Live { handshake_completed: hc, awaiting: SyncAwait::Refresh }, 1)
            &&& steps[0] == SyncStep::Refresh
        },
        SyncEvent::Socket(SocketEvent::Closed) => waits(old, new, steps, false, 2) && status_is(
            steps[0],
            false,
            "reconnecting"@,
            Some("sync connection closed"@),
        ),
        SyncEvent::Socket(SocketEvent::TransportError(e)) => waits(old, new, steps, false, 2) && status_is(
            steps[0],
            false,
            "reconnecting"@,
            Some("sync transport error: "@ + e@),
        ),
        SyncEvent::Socket(SocketEvent::Malformed(e)) => moves(old, new, steps, old.stage, 1) && status_is(
            steps[0],
            true,
            "connected"@,
            Some("ignored malformed sync message: "@ + e@),
        ),
        SyncEvent::Socket(SocketEvent::NonText) => unchanged(old, new, steps),
        SyncEvent::Socket(SocketEvent::Text(j)) => message_ok(old, hc, j, new, steps),
        _ => unchanged(old, new, steps),
    }
}

/// What an event does to the runtime: the next stage and delay, and the
/// steps for the host, in order. Events that a stage does not wait for
/// change nothing.
pub open spec fn transition_ok(old: SyncRuntime, ev: SyncEvent, new: SyncRuntime, steps: Seq<SyncStep>) -> bool {
    &&& new.base_url == old.base_url
    &&& match old.stage {
        SyncStage::Connecting => match ev {
            SyncEvent::Connect(ConnectOutcome::RequestRefused(e)) => moves(old, new, steps, SyncStage::Stopped, 2)
                && status_is(steps[0], false, "error"@, Some(e@)) && steps[1] == SyncStep::Finish,
            SyncEvent::Connect(ConnectOutcome::Connected) => {
                &&& new.stage == SyncStage::Hello && new.reconnect_delay_seconds == 1 && steps.len() == 2
                &&& status_is(steps[0], false, "handshaking"@, Some("sync websocket connected; waiting for protocol handshake"@))
                &&& steps[1] == SyncStep::SendHello
            },
            SyncEvent::Connect(ConnectOutcome::Failed(e)) => waits(old, new, steps, false, 2) && status_is(
                steps[0],
                false,
                "reconnecting"@,
                Some("failed to connect native sync websocket: "@ + e@),
            ),
            SyncEvent::Connect(ConnectOutcome::TimedOut) => waits(old, new, steps, false, 2) && status_is(
                steps[0],
                false,
                "reconnecting"@,
                Some("Connection timed out"@),
            ),
            _ => unchanged(old, new, steps),
        },
        SyncStage::Hello => match ev {
            SyncEvent::Hello(Ok(())) => moves(old, new, steps, live(false), 0),
            SyncEvent::Hello(Err(e)) => waits(old, new, steps, true, 2) && status_is(
                steps[0],
                false,
                "reconnecting"@,
                Some(e@),
            ),
            _ => unchanged(old, new, steps),
        },
        SyncStage::Live { handshake_completed: hc, awaiting: a } => match a {
            SyncAwait::Nothing => live_ok(old, hc, ev, new, steps),
            SyncAwait::CommandFlush => match ev {
                SyncEvent::Flushed(Ok(())) => moves(old, new, steps, live(hc), 0),
                SyncEvent::Flushed(Err(e)) => waits(old, new, steps, false, 2) && status_is(
                    steps[0],
                    false,
                    "reconnecting"@,
                    Some(e@),
                ),
                _ => unchanged(old, new, steps),
            },
            SyncAwait::HandshakeFlush => match ev {
                SyncEvent::Flushed(Ok(())) => moves(old, new, steps, live(hc), 0),
                SyncEvent::Flushed(Err(_)) => waits(old, new, steps, false, 1),
                _ => unchanged(old, new, steps),
            },
            SyncAwait::Refresh => match ev {
                SyncEvent::Refreshed(Ok(())) => moves(old, new, steps, live(hc), 0),
                SyncEvent::Refreshed(Err(e)) => moves(old, new, steps, live(hc), 1) && status_is(
                    steps[0],
                    true,
                    "connected"@,
                    Some(e@),
                ),
                _ => unchanged(old, new, steps),
            },
            SyncAwait::OutOfSyncRefresh => match ev {
                SyncEvent::Refreshed(Ok(())) => {
                    &&& moves(old, new, steps, SyncStage::Live { handshake_completed: hc, awaiting: SyncAwait::HandshakeFlush }, 2)
                    &&& status_is(steps[0], true, "connected"@, None) && steps[1] == SyncStep::Flush
                },
                SyncEvent::Refreshed(Err(e)) => moves(old, new, steps, live(hc), 1) && status_is(
                    steps[0],
                    true,
                    "connected"@,
                    Some(e@),
                ),
                _ => unchanged(old, new, steps),
            },
        },
        SyncStage::Waiting { after_hello } => match ev {
            SyncEvent::Command(None) | SyncEvent::Command(Some(SyncRuntimeCommand::Shutdown)) => if after_hello {
                moves(old, new, steps, SyncStage::Stopped, 1) && steps[0] == SyncStep::Finish
            } else {
                moves(old, new, steps, SyncStage::Stopped, 2) && status_is(steps[0], false, "stopped"@, None)
                    && steps[1] == SyncStep::Finish
            },
            SyncEvent::WaitOver => {
                &&& new.stage == SyncStage::Connecting && steps.len() == 2
                &&& new.reconnect_delay_seconds == (if 2 * old.reconnect_delay_seconds < 30 {
                    2 * old.reconnect_delay_seconds
                } else {
                    30
                })
                &&& status_is(steps[0], false, "connecting"@, Some("connecting to "@ + old.base_url@))
                &&& steps[1] == SyncStep::Connect
            },
            _ => unchanged(old, new, steps),
        },
        SyncStage::Stopped => unchanged(old, new, steps),
    }
}

/// A status to publish.
fn status(connected: bool, phase: &str, message: Option<String>) -> (r: SyncStep)
    ensures
        r matches SyncStep::Publish(st) && st.connected == connected && st.phase@ == phase@ && st.message == message
            && st.transport_owner@ == "tauri-rust"@,
{
    SyncStep::Publish(SyncConnectionStatus {
        connected,
        phase: String::from_str(phase),
        message,
        transport_owner: String::from_str("tauri-rust"),
    })
}

/// `prefix` followed by `rest`.
fn joined(prefix: &str, rest: &str) -> (r: String)
    ensures
        r@ == prefix@ + rest@,
{
    let mut v: Vec<char> = Vec::new();
    push_str(&mut v, prefix);
    push_str(&mut v, rest);
    string_from_chars(&v)
}

/// The acknowledged ids of a `SYNC_ACK`.
fn ack_ids(j: &Json) -> (r: Option<Vec<String>>)
    ensures
        match ack_ids_of(*j) {
            Some(ids) => r matches Some(v) && views(v@) == ids,
            None => r is None,
        },
{
    proof {
        reveal_strlit("ack_action_ids");
    }
    let items = match j.get("ack_action_ids") {
        Some(Json::Array(items)) => items,
        _ => return None,
    };
    let mut out: Vec<String> = Vec::new();
    let mut i: usize = 0;
    while i < items.len()
        invariant
            member(*j, "ack_action_ids"@) == Some(Json::Array(*items)),
            i <= items@.len(),
            out@.len() == i,
            forall|k: int| 0 <= k < i ==> (#[trigger] items@[k]) is Str && out@[k]@ == items@[k]->Str_0@,
        decreases items@.len() - i,
    {
        match &items[i] {
            Json::Str(s) => out.push(s.clone()),
            _ => {
                assert(!(items@[i as int] is Str));
                return None;
            },
        }
        i = i + 1;
    }
    proof {
        let ghost ids = Seq::new(items@.len(), |k: int| items@[k]->Str_0@);
        assert(views(out@) =~= ids);
    }
    Some(out)
}

/// Whether `j` names the type `t`.
fn type_is(j: &Json, t: &str) -> (r: bool)
    ensures
        r == (type_of(*j) == t@),
{
    proof {
        reveal_strlit("");
    }
    match j.get("type") {
        Some(Json::Str(s)) => crate::text::str_eq(s.as_str(), t),
        _ => {
            assert(""@ =~= Seq::<char>::empty());
            assert(type_of(*j) =~= Seq::<char>::empty());
            crate::text::str_eq("", t)
        },
    }
}

impl SyncRuntime {
    /// The delay between reconnects stays within one and thirty seconds.
    pub open spec fn wf(&self) -> bool {
        1 <= self.reconnect_delay_seconds <= 30
    }

    /// A runtime for `base_url` that is about to connect for the first
    /// time: it publishes that it connects, then asks for the connection.
    pub fn start(base_url: String) -> (r: (SyncRuntime, Vec<SyncStep>))
        ensures
            r.0.wf(),
            r.0.base_url == base_url && r.0.stage == SyncStage::Connecting && r.0.reconnect_delay_seconds == 1,
            r.1@.len() == 2,
            status_is(r.1@[0], false, "connecting"@, Some("connecting to "@ + base_url@)),
            r.1@[1] == SyncStep::Connect,
    {
        let mut steps: Vec<SyncStep> = Vec::new();
        steps.push(status(false, "connecting", Some(joined("connecting to ", base_url.as_str()))));
        steps.push(SyncStep::Connect);
        (SyncRuntime { base_url, stage: SyncStage::Connecting, reconnect_delay_seconds: 1 }, steps)
    }

    /// A server message, read while connected and waiting on nothing.
    fn on_message(&mut self, hc: bool, j: Json) -> (r: Vec<SyncStep>)
        requires
            old(self).wf(),
            old(self).stage == live(hc),
        ensures
            final(self).wf(),
            final(self).base_url == old(self).base_url,
            message_ok(*old(self), hc, j, *final(self), r@),
    {
        proof {
            reveal_strlit("ACK");
            reveal_strlit("OUT_OF_SYNC");
            reveal_strlit("SYNC_ACK");
            reveal_strlit("STATE_UPDATED");
            reveal_strlit("IN_SYNC");
            reveal_strlit("connected");
        }
        let mut steps: Vec<SyncStep> = Vec::new();
        if type_is(&j, "ACK") {
            let in_sync = match j.get("status") {
                Some(Json::Str(st)) => crate::text::str_eq(st.as_str(), "IN_SYNC"),
                _ => false,
            };
            if in_sync {
                steps.push(status(true, "connected", None));
                steps.push(SyncStep::Flush);
                self.stage = SyncStage::Live { handshake_completed: true, awaiting: SyncAwait::HandshakeFlush };
            } else {
                self.stage = SyncStage::Live { handshake_completed: true, awaiting: SyncAwait::Nothing };
            }
        } else if type_is(&j, "OUT_OF_SYNC") {
            steps.push(SyncStep::Refresh);
            self.stage = SyncStage::Live { handshake_completed: true, awaiting: SyncAwait::OutOfSyncRefresh };
        } else if type_is(&j, "SYNC_ACK") {
            match ack_ids(&j) {
                Some(ids) => {
                    steps.push(status(true, "connected", None));
                    steps.push(SyncStep::RemoveAcked(ids));
                    steps.push(SyncStep::Refresh);
                    self.stage = SyncStage::Live { handshake_completed: hc, awaiting: SyncAwait::Refresh };
                },
                None => {},
            }
        } else if type_is(&j, "STATE_UPDATED") {
            steps.push(status(true, "connected", None));
            steps.push(SyncStep::Refresh);
            self.stage = SyncStage::Live { handshake_completed: hc, awaiting: SyncAwait::Refresh };
        }
        steps
    }

    /// An event while connected and waiting on nothing.
    fn on_live(&mut self, hc: bool, ev: SyncEvent) -> (r: Vec<SyncStep>)
        requires
            old(self).wf(),
            old(self).stage == live(hc),
        ensures
            final(self).wf(),
            final(self).base_url == old(self).base_url,
            live_ok(*old(self), hc, ev, *final(self), r@),
    {
        proof {
            reveal_strlit("reconnecting");
            reveal_strlit("handshake timeout: server did not respond within 15s");
            reveal_strlit("stopped");
            reveal_strlit("sync connection closed");
            reveal_strlit("sync transport error: ");
            reveal_strlit("connected");
            reveal_strlit("ignored malformed sync message: ");
        }
        let delay = self.reconnect_delay_seconds;
        let mut steps: Vec<SyncStep> = Vec::new();
        match ev {
            SyncEvent::HandshakeDeadline => {
                if !hc {
                    steps.push(status(
                        false,
                        "reconnecting",
                        Some(String::from_str("handshake timeout: server did not respond within 15s")),
                    ));
                    steps.push(SyncStep::Close);
                    steps.push(SyncStep::Wait(delay));
                    self.stage = SyncStage::Waiting { after_hello: false };
                }
            },
            SyncEvent::Command(None) | SyncEvent::Command(Some(SyncRuntimeCommand::Shutdown)) => {
                steps.push(SyncStep::Close);
                steps.push(status(false, "stopped", None));
                steps.push(SyncStep::Finish);
                self.stage = SyncStage::Stopped;
            },
            SyncEvent::Command(Some(SyncRuntimeCommand::Flush)) => {
                steps.push(SyncStep::Flush);
                self.stage = SyncStage::Live { handshake_completed: hc, awaiting: SyncAwait::CommandFlush };
            },
            SyncEvent::Command(Some(SyncRuntimeCommand::Refresh)) => {
                steps.push(SyncStep::Refresh);
                self.stage = SyncStage::Live { handshake_completed: hc, awaiting: SyncAwait::Refresh };
            },
            SyncEvent::Socket(SocketEvent::Closed) => {
                steps.push(status(false, "reconnecting", Some(String::from_str("sync connection closed"))));
                steps.push(SyncStep::Wait(delay));
                self.stage = SyncStage::Waiting { after_hello: false };
            },
            SyncEvent::Socket(SocketEvent::TransportError(e)) => {
                steps.push(status(false, "reconnecting", Some(joined("sync transport error: ", e.as_str()))));
                steps.push(SyncStep::Wait(delay));
                self.stage = SyncStage::Waiting { after_hello: false };
            },
            SyncEvent::Socket(SocketEvent::Malformed(e)) => {
                steps.push(status(true, "connected", Some(joined("ignored malformed sync message: ", e.as_str()))));
            },
            SyncEvent::Socket(SocketEvent::NonText) => {},
            SyncEvent::Socket(SocketEvent::Text(j)) => {
                return self.on_message(hc, j);
            },
            _ => {},
        }
        steps
    }

    /// Hands the runtime an event; the steps for the host come back in
    /// order.
    pub fn step(&mut self, ev: SyncEvent) -> (r: Vec<SyncStep>)
        requires
            old(self).wf(),
        ensures
            final(self).wf(),
            transition_ok(*old(self), ev, *final(self), r@),
    {
        proof {
            reveal_strlit("error");
            reveal_strlit("handshaking");
            reveal_strlit("sync websocket connected; waiting for protocol handshake");
            reveal_strlit("reconnecting");
            reveal_strlit("failed to connect native sync websocket: ");
            reveal_strlit("Connection timed out");
            reveal_strlit("connected");
            reveal_strlit("stopped");
            reveal_strlit("connecting");
            reveal_strlit("connecting to ");
        }
        let delay = self.reconnect_delay_seconds;
        let mut steps: Vec<SyncStep> = Vec::new();
        match self.stage {
            SyncStage::Connecting => match ev {
                SyncEvent::Connect(ConnectOutcome::RequestRefused(e)) => {
                    steps.push(status(false, "error", Some(e)));
                    steps.push(SyncStep::Finish);
                    self.stage = SyncStage::Stopped;
                },
                SyncEvent::Connect(ConnectOutcome::Connected) => {
                    self.reconnect_delay_seconds = 1;
                    steps.push(status(
                        false,
                        "handshaking",
                        Some(String::from_str("sync websocket connected; waiting for protocol handshake")),
                    ));
                    steps.push(SyncStep::SendHello);
                    self.stage = SyncStage::Hello;
                },
                SyncEvent::Connect(ConnectOutcome::Failed(e)) => {
                    steps.push(status(
                        false,
                        "reconnecting",
                        Some(joined("failed to connect native sync websocket: ", e.as_str())),
                    ));
                    steps.push(SyncStep::Wait(delay));
                    self.stage = SyncStage::Waiting { after_hello: false };
                },
                SyncEvent::Connect(ConnectOutcome::TimedOut) => {
                    steps.push(status(false, "reconnecting", Some(String::from_str("Connection timed out"))));
                    steps.push(SyncStep::Wait(delay));
                    self.stage = SyncStage::Waiting { after_hello: false };
                },
                _ => {},
            },
            SyncStage::Hello => match ev {
                SyncEvent::Hello(Ok(())) => {
                    self.stage = SyncStage::Live { handshake_completed: false, awaiting: SyncAwait::Nothing };
                },
                SyncEvent::Hello(Err(e)) => {
                    steps.push(status(false, "reconnecting", Some(e)));
                    steps.push(SyncStep::Wait(delay));
                    self.stage = SyncStage::Waiting { after_hello: true };
                },
                _ => {},
            },
            SyncStage::Live { handshake_completed: hc, awaiting } => match awaiting {
                SyncAwait::Nothing => {
                    return self.on_live(hc, ev);
                },
                SyncAwait::CommandFlush => match ev {
                    SyncEvent::Flushed(Ok(())) => {
                        self.stage = SyncStage::Live { handshake_completed: hc, awaiting: SyncAwait::Nothing };
                    },
                    SyncEvent::Flushed(Err(e)) => {
                        steps.push(status(false, "reconnecting", Some(e)));
                        steps.push(SyncStep::Wait(delay));
                        self.stage = SyncStage::Waiting { after_hello: false };
                    },
                    _ => {},
                },
                SyncAwait::HandshakeFlush => match ev {
                    SyncEvent::Flushed(Ok(())) => {
                        self.stage = SyncStage::Live { handshake_completed: hc, awaiting: SyncAwait::Nothing };
                    },
                    SyncEvent::Flushed(Err(_)) => {
                        steps.push(SyncStep::Wait(delay));
                        self.stage = SyncStage::Waiting { after_hello: false };
                    },
                    _ => {},
                },
                SyncAwait::Refresh => match ev {
                    SyncEvent::Refreshed(Ok(())) => {
                        self.stage = SyncStage::Live { handshake_completed: hc, awaiting: SyncAwait::Nothing };
                    },
                    SyncEvent::Refreshed(Err(e)) => {
                        steps.push(status(true, "connected", Some(e)));
                        self.stage = SyncStage::Live { handshake_completed: hc, awaiting: SyncAwait::Nothing };
                    },
                    _ => {},
                },
                SyncAwait::OutOfSyncRefresh => match ev {
                    SyncEvent::Refreshed(Ok(())) => {
                        steps.push(status(true, "connected", None));
                        steps.push(SyncStep::Flush);
                        self.stage = SyncStage::Live { handshake_completed: hc, awaiting: SyncAwait::HandshakeFlush };
                    },
                    SyncEvent::Refreshed(Err(e)) => {
                        steps.push(status(true, "connected", Some(e)));
                        self.stage = SyncStage::Live { handshake_completed: hc, awaiting: SyncAwait::Nothing };
                    },
                    _ => {},
                },
            },
            SyncStage::Waiting { after_hello } => match ev {
                SyncEvent::Command(None) | SyncEvent::Command(Some(SyncRuntimeCommand::Shutdown)) => {
                    if !after_hello {
                        steps.push(status(false, "stopped", None));
                    }
                    steps.push(SyncStep::Finish);
                    self.stage = SyncStage::Stopped;
                },
                SyncEvent::WaitOver => {
                    self.reconnect_delay_seconds = next_reconnect_delay(delay);
                    steps.push(status(false, "connecting", Some(joined("connecting to ", self.base_url.as_str()))));
                    steps.push(SyncStep::Connect);
                    self.stage = SyncStage::Connecting;
                },
                _ => {},
            },
            SyncStage::Stopped => {},
        }
        steps
    }
}

/// Once stopped, the runtime stays stopped and asks for nothing more.
pub proof fn stopped_runtime_stays_stopped(old: SyncRuntime, ev: SyncEvent, new: SyncRuntime, steps: Seq<SyncStep>)
    requires
        old.stage == SyncStage::Stopped,
        transition_ok(old, ev, new, steps),
    ensures
        new.stage == SyncStage::Stopped,
        steps.len() == 0,
{
}

/// A shutdown, or the end of the command channel, read while connected or
/// while waiting to reconnect, ends the runtime: it stops, and its last
/// step is to finish.
pub proof fn shutdown_ends_the_runtime(
    old: SyncRuntime,
    cmd: Option<SyncRuntimeCommand>,
    new: SyncRuntime,
    steps: Seq<SyncStep>,
)
    requires
        cmd is None || cmd == Some(SyncRuntimeCommand::Shutdown),
        old.stage matches SyncStage::Waiting { .. } || old.stage == live(true) || old.stage == live(false),
        transition_ok(old, SyncEvent::Command(cmd), new, steps),
    ensures
        new.stage == SyncStage::Stopped,
        steps.len() > 0 && steps.last() == SyncStep::Finish,
{
}

/// The runtime asks to finish only as the last of its steps, and only
/// when it stops.
pub proof fn finish_comes_last_and_stops(old: SyncRuntime, ev: SyncEvent, new: SyncRuntime, steps: Seq<SyncStep>)
    requires
        transition_ok(old, ev, new, steps),
    ensures
        forall|i: int| 0 <= i < steps.len() && steps[i] == SyncStep::Finish ==> i == steps.len() - 1 && new.stage
            == SyncStage::Stopped,
{
}

/// A connected status is published only by a runtime that is connected
/// after the step.
pub proof fn connected_only_while_live(old: SyncRuntime, ev: SyncEvent, new: SyncRuntime, steps: Seq<SyncStep>)
    requires
        transition_ok(old, ev, new, steps),
    ensures
        forall|i: int| 0 <= i < steps.len() && (#[trigger] steps[i] matches SyncStep::Publish(st) && st.connected)
            ==> new.stage matches SyncStage::Live { .. },
{
}

/// The wait between reconnects starts at one second, doubles after each
/// failed attempt, never exceeds thirty seconds, and falls back to one
/// second once a connection is made.
pub proof fn reconnect_delay_stays_bounded(old: SyncRuntime, ev: SyncEvent, new: SyncRuntime, steps: Seq<SyncStep>)
    requires
        old.wf(),
        transition_ok(old, ev, new, steps),
    ensures
        new.wf(),
        ev matches SyncEvent::Connect(ConnectOutcome::Connected) && old.stage == SyncStage::Connecting
            ==> new.reconnect_delay_seconds == 1,
{
}

/// A server's `STATE_UPDATED`, read while connected and waiting on
/// nothing, makes the host fetch the remote state again: the runtime
/// first says it is connected, then asks for a refresh, and waits for it.
pub proof fn state_update_refreshes(old: SyncRuntime, hc: bool, j: Json, new: SyncRuntime, steps: Seq<SyncStep>)
    requires
        old.stage == live(hc),
        type_of(j) == "STATE_UPDATED"@,
        transition_ok(old, SyncEvent::Socket(SocketEvent::Text(j)), new, steps),
    ensures
        steps.len() >= 2,
        steps[0] matches SyncStep::Publish(st) && st.connected,
        exists|k: int| 0 < k < steps.len() && #[trigger] steps[k] == SyncStep::Refresh,
        new.stage matches SyncStage::Live { awaiting: SyncAwait::Refresh, .. },
{
    reveal_strlit("ACK");
    reveal_strlit("OUT_OF_SYNC");
    reveal_strlit("SYNC_ACK");
    reveal_strlit("STATE_UPDATED");
    assert("STATE_UPDATED"@.len() != "ACK"@.len() && "STATE_UPDATED"@.len() != "OUT_OF_SYNC"@.len());
    assert("STATE_UPDATED"@.len() != "SYNC_ACK"@.len());
    assert(steps[1] == SyncStep::Refresh);
}

/// A server's `OUT_OF_SYNC`, read while live, makes the host fetch the
/// remote state first; a `SYNC_ACK` with ids makes it drop those pending
/// actions and then fetch the remote state.
pub proof fn server_changes_refresh(old: SyncRuntime, hc: bool, j: Json, new: SyncRuntime, steps: Seq<SyncStep>)
    requires
        old.stage == live(hc),
        type_of(j) == "OUT_OF_SYNC"@ || (type_of(j) == "SYNC_ACK"@ && ack_ids_of(j) is Some),
        transition_ok(old, SyncEvent::Socket(SocketEvent::Text(j)), new, steps),
    ensures
        steps.len() > 0 && steps.last() == SyncStep::Refresh,
        type_of(j) == "SYNC_ACK"@ ==> exists|k: int| 0 <= k < steps.len() - 1 && (#[trigger] steps[k] matches SyncStep::RemoveAcked(v)
            && crate::text::views(v@) == ack_ids_of(j)->0),
{
    reveal_strlit("ACK");
    reveal_strlit("OUT_OF_SYNC");
    reveal_strlit("SYNC_ACK");
    assert("OUT_OF_SYNC"@.len() != "ACK"@.len() && "SYNC_ACK"@.len() != "ACK"@.len());
    assert("OUT_OF_SYNC"@.len() != "SYNC_ACK"@.len());
    if type_of(j) == "SYNC_ACK"@ {
        assert(steps[1] matches SyncStep::RemoveAcked(_));
    }
}

} // verus!
