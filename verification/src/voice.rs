//! The decisions of a voice transcription session, as a state machine:
//! the host streams audio and reads the transcription socket, hands each
//! outcome back as an event, and the session answers with what to send,
//! what to announce, and when to stop.

use vstd::prelude::*;
use crate::compute::translate::{json_quote, json_string_text};
use crate::json::{member, Json};
use crate::text::{decimal, decimal_chars, push_chars, push_str, string_from_chars};

verus! {

/// A command from the app to the running session.
#[derive(Debug)]
pub enum VoiceRuntimeCommand {
    /// A chunk of audio, base64-encoded.
    AppendAudio { audio_base64: String },
    Stop,
}

/// What the session announces to the app.
#[derive(Debug)]
pub struct VoiceEvent {
    pub event_type: String,
    pub text: Option<String>,
    pub message: Option<String>,
    pub selected_mode: Option<String>,
}

/// A close frame from the remote endpoint: its code and reason.
#[derive(Debug)]
pub struct CloseFrameInfo {
    pub code: u16,
    pub reason: String,
}

/// What came from the transcription socket.
#[derive(Debug)]
pub enum VoiceSocketEvent {
    /// The stream ended.
    Ended,
    Error(String),
    /// A text frame that is not JSON, with the parser's message.
    Malformed(String),
    /// A text frame, parsed.
    Text(Json),
    Close(Option<CloseFrameInfo>),
    /// Any other frame.
    Other,
}

/// What the host hands the session.
#[derive(Debug)]
pub enum VoiceInput {
    /// A command, or `None` when the command channel closed.
    Command(Option<VoiceRuntimeCommand>),
    /// The last message was sent, or why not.
    Sent(Result<(), String>),
    Socket(VoiceSocketEvent),
}

/// What the host is to do, in order.
#[derive(Debug)]
pub enum VoiceStep {
    /// Send this text frame and report how it went.
    Send(String),
    /// Announce this event.
    Emit(VoiceEvent),
    /// Close the socket.
    Close,
    /// The session is over.
    End,
}

/// Which send the session waits on.
#[derive(Debug, Clone, Copy, PartialEq, Eq)]
pub enum VoicePending {
    Nothing,
    Append,
    Flush,
    EndOfAudio,
}

/// A running session: whether the end of the audio was sent, whether any
/// audio was, which send it waits on, and whether it is over.
#[derive(Debug)]
pub struct VoiceSession {
    pub stop_sent: bool,
    pub appended_audio: bool,
    pub pending: VoicePending,
    pub finished: bool,
}

/// The message of an `error` event: its `error.message`, else a generic
/// one.
pub open spec fn error_message_of(payload: Json) -> Seq<char> {
    match member(payload, "error"@) {
        Some(e) => match member(e, "message"@) {
            Some(Json::Str(m)) => m@,
            _ => "voice transcription failed"@,
        },
        None => "voice transcription failed"@,
    }
}

/// The message of an `error` event from the transcription service.
pub fn parse_error_message(payload: &Json) -> (r: String)
    ensures
        r@ == error_message_of(*payload),
{
    proof {
        reveal_strlit("voice transcription failed");
    }
    match payload.get("error") {
        Some(e) => match e.get("message") {
            Some(Json::Str(m)) => m.clone(),
            _ => String::from_str("voice transcription failed"),
        },
        None => String::from_str("voice transcription failed"),
    }
}

/// How a close by the remote endpoint is reported.
pub open spec fn close_text(frame: Option<CloseFrameInfo>) -> Seq<char> {
    match frame {
        Some(f) => if f.reason@.len() == 0 {
            "voice websocket closed by remote endpoint (code "@ + decimal(f.code as nat) + ")"@
        } else {
            "voice websocket closed by remote endpoint (code "@ + decimal(f.code as nat) + "): "@ + f.reason@
        },
        None => "voice websocket closed by remote endpoint"@,
    }
}

/// How a close by the remote endpoint is reported.
pub fn describe_close_frame(frame: &Option<CloseFrameInfo>) -> (r: String)
    ensures
        r@ == close_text(*frame),
{
    match frame {
        Some(f) => {
            let mut v: Vec<char> = Vec::new();
            push_str(&mut v, "voice websocket closed by remote endpoint (code ");
            let digits = decimal_chars(f.code as u64);
            push_chars(&mut v, &digits);
            let reason = crate::text::chars_of(f.reason.as_str());
            if reason.len() == 0 {
                push_str(&mut v, ")");
            } else {
                push_str(&mut v, "): ");
                push_str(&mut v, f.reason.as_str());
            }
            string_from_chars(&v)
        },
        None => String::from_str("voice websocket closed by remote endpoint"),
    }
}

/// The frame that streams a chunk of audio.
pub open spec fn append_text(audio: Seq<char>) -> Seq<char> {
    "{\"audio\":"@ + json_string_text(audio) + ",\"type\":\"input_audio.append\"}"@
}

/// The frame that streams a chunk of audio.
fn append_message(audio_base64: &str) -> (r: String)
    ensures
        r@ == append_text(audio_base64@),
{
    let mut v: Vec<char> = Vec::new();
    push_str(&mut v, "{\"audio\":");
    let q = json_quote(audio_base64);
    push_str(&mut v, q.as_str());
    push_str(&mut v, ",\"type\":\"input_audio.append\"}");
    string_from_chars(&v)
}

/// `e` announces `event_type` with the given text, message and mode.
pub open spec fn event_is(
    e: VoiceEvent,
    event_type: Seq<char>,
    text: Option<Seq<char>>,
    message: Option<Seq<char>>,
    mode: Option<Seq<char>>,
) -> bool {
    &&& e.event_type@ == event_type
    &&& match text {
        Some(t) => e.text matches Some(x) && x@ == t,
        None => e.text is None,
    }
    &&& match message {
        Some(m) => e.message matches Some(x) && x@ == m,
        None => e.message is None,
    }
    &&& match mode {
        Some(m) => e.selected_mode matches Some(x) && x@ == m,
        None => e.selected_mode is None,
    }
}

/// `s` announces `event_type` with the given text and message.
pub open spec fn emits(s: VoiceStep, event_type: Seq<char>, text: Option<Seq<char>>, message: Option<Seq<char>>) -> bool {
    s matches VoiceStep::Emit(e) && event_is(e, event_type, text, message, None)
}

/// The session ends well: the socket is closed and `stopped` announced.
pub open spec fn ends_ok(steps: Seq<VoiceStep>, from: int) -> bool {
    &&& steps.len() == from + 3
    &&& steps[from] == VoiceStep::Close
    &&& emits(steps[from + 1], "stopped"@, None, None)
    &&& steps[from + 2] == VoiceStep::End
}

/// The session fails with `m`: the error and then `stopped` are announced.
pub open spec fn ends_err(steps: Seq<VoiceStep>, from: int, m: Seq<char>) -> bool {
    &&& steps.len() == from + 3
    &&& emits(steps[from], "error"@, None, Some(m))
    &&& emits(steps[from + 1], "stopped"@, None, None)
    &&& steps[from + 2] == VoiceStep::End
}

/// The text member of a transcription event.
pub open spec fn text_member(payload: Json) -> Option<Seq<char>> {
    match member(payload, "text"@) {
        Some(Json::Str(t)) => Some(t@),
        _ => None,
    }
}

/// The type a transcription event names (empty when it names none).
pub open spec fn voice_type_of(j: Json) -> Seq<char> {
    match member(j, "type"@) {
        Some(Json::Str(s)) => s@,
        _ => Seq::empty(),
    }
}

/// What an event from the transcription service does: `new` is the
/// session after it and `steps` what the host is to do.
pub open spec fn text_ok(old: VoiceSession, j: Json, new: VoiceSession, steps: Seq<VoiceStep>) -> bool {
    let t = voice_type_of(j);
    if t == "session.created"@ {
        new == old && steps.len() == 1 && emits(steps[0], "ready"@, None, None)
    } else if t == "transcription.text.delta"@ {
        &&& new == old && steps.len() == 1
        &&& emits(steps[0], "partial"@, Some(match text_member(j) {
            Some(x) => x,
            None => Seq::empty(),
        }), None)
    } else if t == "transcription.done"@ {
        new == (VoiceSession { finished: true, ..old }) && emits(steps[0], "done"@, text_member(j), None) && ends_ok(steps, 1)
    } else if t == "error"@ {
        new == (VoiceSession { finished: true, ..old }) && ends_err(steps, 0, error_message_of(j))
    } else {
        new == old && steps.len() == 0
    }
}

/// What an input does to a session: the session after it and the steps
/// for the host, in order. A finished session ignores everything; a
/// session waiting on a send reads only that send's outcome; commands
/// are read only until the end of the audio was sent.
pub open spec fn voice_ok(old: VoiceSession, input: VoiceInput, new: VoiceSession, steps: Seq<VoiceStep>) -> bool {
    if old.finished {
        new == old && steps.len() == 0
    } else if old.pending != VoicePending::Nothing {
        match input {
            VoiceInput::Sent(Ok(())) => match old.pending {
                VoicePending::Flush => {
                    &&& new == (VoiceSession { pending: VoicePending::EndOfAudio, ..old })
                    &&& steps.len() == 1
                    &&& steps[0] matches VoiceStep::Send(m) && m@ == "{\"type\":\"input_audio.end\"}"@
                },
                VoicePending::EndOfAudio => new == (VoiceSession { pending: VoicePending::Nothing, stop_sent: true, ..old })
                    && steps.len() == 0,
                _ => new == (VoiceSession { pending: VoicePending::Nothing, ..old }) && steps.len() == 0,
            },
            VoiceInput::Sent(Err(e)) => new == (VoiceSession { finished: true, ..old }) && ends_err(
                steps,
                0,
                match old.pending {
                    VoicePending::Append => "failed to stream audio chunk: "@,
                    VoicePending::Flush => "failed to flush voice audio: "@,
                    _ => "failed to end voice audio: "@,
                } + e@,
            ),
            _ => new == old && steps.len() == 0,
        }
    } else {
        match input {
            VoiceInput::Command(Some(VoiceRuntimeCommand::AppendAudio { audio_base64 })) => if old.stop_sent {
                new == old && steps.len() == 0
            } else {
                &&& new == (VoiceSession { appended_audio: true, pending: VoicePending::Append, ..old })
                &&& steps.len() == 1
                &&& steps[0] matches VoiceStep::Send(m) && m@ == append_text(audio_base64@)
            },
            VoiceInput::Command(None) | VoiceInput::Command(Some(VoiceRuntimeCommand::Stop)) => if old.stop_sent {
                new == old && steps.len() == 0
            } else if old.appended_audio {
                &&& new == (VoiceSession { pending: VoicePending::Flush, ..old })
                &&& steps.len() == 1
                &&& steps[0] matches VoiceStep::Send(m) && m@ == "{\"type\":\"input_audio.flush\"}"@
            } else {
                new == (VoiceSession { finished: true, ..old }) && steps[0] == VoiceStep::Close && ends_ok(steps, 1)
            },
            VoiceInput::Socket(VoiceSocketEvent::Ended) => new == (VoiceSession { finished: true, ..old }) && ends_ok(steps, 0),
            VoiceInput::Socket(VoiceSocketEvent::Error(e)) => new == (VoiceSession { finished: true, ..old }) && ends_err(steps, 0, "voice websocket error: "@ + e@),
            VoiceInput::Socket(VoiceSocketEvent::Malformed(e)) => new == (VoiceSession { finished: true, ..old }) && ends_err(
                steps,
                0,
                "invalid voice event payload: "@ + e@,
            ),
            VoiceInput::Socket(VoiceSocketEvent::Close(frame)) => if old.stop_sent {
                new == (VoiceSession { finished: true, ..old }) && ends_ok(steps, 0)
            } else {
                new == (VoiceSession { finished: true, ..old }) && ends_err(steps, 0, close_text(frame))
            },
            VoiceInput::Socket(VoiceSocketEvent::Text(j)) => text_ok(old, j, new, steps),
            VoiceInput::Socket(VoiceSocketEvent::Other) => new == old && steps.len() == 0,
            VoiceInput::Sent(_) => new == old && steps.len() == 0,
        }
    }
}

/// An announcement.
fn event(event_type: &str, text: Option<String>, message: Option<String>) -> (r: VoiceStep)
    ensures
        r matches VoiceStep::Emit(e) && e.event_type@ == event_type@ && e.text == text && e.message == message
            && e.selected_mode is None,
{
    VoiceStep::Emit(VoiceEvent { event_type: String::from_str(event_type), text, message, selected_mode: None })
}

/// `prefix` followed by `rest`.
fn joined(prefix: &str, rest: &str) -> (r: String)
    ensures
        r@ == prefix@ + rest@,
{
    let mut v: Vec<char> = Vec::new();
    push_str(&mut v, prefix);
    push_str(&mut v, rest);
    string_from_chars(&v)
}

/// Whether `j` names the type `t`.
fn voice_type_is(j: &Json, t: &str) -> (r: bool)
    ensures
        r == (voice_type_of(*j) == t@),
{
    proof {
        reveal_strlit("");
    }
    match j.get("type") {
        Some(Json::Str(s)) => crate::text::str_eq(s.as_str(), t),
        _ => {
            assert(""@ =~= Seq::<char>::empty());
            assert(voice_type_of(*j) =~= Seq::<char>::empty());
            crate::text::str_eq("", t)
        },
    }
}

impl VoiceSession {
    /// A session whose transport is up in `mode`: it announces that it
    /// started.
    pub fn start(mode: &str) -> (r: (VoiceSession, Vec<VoiceStep>))
        ensures
            r.0 == (VoiceSession { stop_sent: false, appended_audio: false, pending: VoicePending::Nothing, finished: false }),
            r.1@.len() == 1,
            r.1@[0] matches VoiceStep::Emit(e) && event_is(e, "started"@, None, None, Some(mode@)),
    {
        let mut steps: Vec<VoiceStep> = Vec::new();
        steps.push(VoiceStep::Emit(VoiceEvent {
            event_type: String::from_str("started"),
            text: None,
            message: None,
            selected_mode: Some(String::from_str(mode)),
        }));
        (VoiceSession { stop_sent: false, appended_audio: false, pending: VoicePending::Nothing, finished: false }, steps)
    }

    /// Ends the session well.
    fn finish_ok(&mut self, steps: &mut Vec<VoiceStep>)
        ensures
            *final(self) == (VoiceSession { finished: true, ..*old(self) }),
            final(steps)@.len() == old(steps)@.len() + 3,
            final(steps)@.take(old(steps)@.len() as int) == old(steps)@,
            ends_ok(final(steps)@, old(steps)@.len() as int),
    {
        proof {
            reveal_strlit("stopped");
        }
        let ghost before = steps@;
        steps.push(VoiceStep::Close);
        steps.push(event("stopped", None, None));
        steps.push(VoiceStep::End);
        self.finished = true;
        assert(steps@.take(before.len() as int) =~= before);
    }

    /// Ends the session with the error `m`.
    fn finish_err(&mut self, m: String) -> (r: Vec<VoiceStep>)
        ensures
            *final(self) == (VoiceSession { finished: true, ..*old(self) }),
            ends_err(r@, 0, m@),
    {
        proof {
            reveal_strlit("stopped");
            reveal_strlit("error");
        }
        let mut steps: Vec<VoiceStep> = Vec::new();
        steps.push(event("error", None, Some(m)));
        steps.push(event("stopped", None, None));
        steps.push(VoiceStep::End);
        self.finished = true;
        steps
    }

    /// An event from the transcription service.
    fn on_text(&mut self, j: Json) -> (r: Vec<VoiceStep>)
        ensures
            text_ok(*old(self), j, *final(self), r@),
    {
        proof {
            reveal_strlit("session.created");
            reveal_strlit("transcription.text.delta");
            reveal_strlit("transcription.done");
            reveal_strlit("error");
            reveal_strlit("ready");
            reveal_strlit("partial");
            reveal_strlit("done");
            reveal_strlit("text");
        }
        let mut steps: Vec<VoiceStep> = Vec::new();
        if voice_type_is(&j, "session.created") {
            steps.push(event("ready", None, None));
        } else if voice_type_is(&j, "transcription.text.delta") {
            let text = match j.get("text") {
                Some(Json::Str(t)) => t.clone(),
                _ => String::new(),
            };
            steps.push(event("partial", Some(text), None));
        } else if voice_type_is(&j, "transcription.done") {
            let text = match j.get("text") {
                Some(Json::Str(t)) => Some(t.clone()),
                _ => None,
            };
            steps.push(event("done", text, None));
            let ghost s0 = steps@;
            self.finish_ok(&mut steps);
            assert(steps@[0] == steps@.take(1)[0]);
            assert(steps@[0] == s0[0]);
        } else if voice_type_is(&j, "error") {
            let m = parse_error_message(&j);
            return self.finish_err(m);
        }
        steps
    }

    /// Hands the session an input; the steps for the host come back in
    /// order.
    pub fn step(&mut self, input: VoiceInput) -> (r: Vec<VoiceStep>)
        ensures
            voice_ok(*old(self), input, *final(self), r@),
    {
        proof {
            reveal_strlit("{\"type\":\"input_audio.end\"}");
            reveal_strlit("{\"type\":\"input_audio.flush\"}");
            reveal_strlit("failed to stream audio chunk: ");
            reveal_strlit("failed to flush voice audio: ");
            reveal_strlit("failed to end voice audio: ");
            reveal_strlit("voice websocket error: ");
            reveal_strlit("invalid voice event payload: ");
        }
        let mut steps: Vec<VoiceStep> = Vec::new();
        if self.finished {
            return steps;
        }
        match self.pending {
            VoicePending::Nothing => {},
            pending => {
                match input {
                    VoiceInput::Sent(Ok(())) => match pending {
                        VoicePending::Flush => {
                            steps.push(VoiceStep::Send(String::from_str("{\"type\":\"input_audio.end\"}")));
                            self.pending = VoicePending::EndOfAudio;
                        },
                        VoicePending::EndOfAudio => {
                            self.pending = VoicePending::Nothing;
                            self.stop_sent = true;
                        },
                        _ => {
                            self.pending = VoicePending::Nothing;
                        },
                    },
                    VoiceInput::Sent(Err(e)) => {
                        let prefix = match pending {
                            VoicePending::Append => "failed to stream audio chunk: ",
                            VoicePending::Flush => "failed to flush voice audio: ",
                            _ => "failed to end voice audio: ",
                        };
                        return self.finish_err(joined(prefix, e.as_str()));
                    },
                    _ => {},
                }
                return steps;
            },
        }
        match input {
            VoiceInput::Command(Some(VoiceRuntimeCommand::AppendAudio { audio_base64 })) => {
                if !self.stop_sent {
                    steps.push(VoiceStep::Send(append_message(audio_base64.as_str())));
                    self.appended_audio = true;
                    self.pending = VoicePending::Append;
                }
            },
            VoiceInput::Command(None) | VoiceInput::Command(Some(VoiceRuntimeCommand::Stop)) => {
                if !self.stop_sent {
                    if self.appended_audio {
                        steps.push(VoiceStep::Send(String::from_str("{\"type\":\"input_audio.flush\"}")));
                        self.pending = VoicePending::Flush;
                    } else {
                        steps.push(VoiceStep::Close);
                        let ghost s0 = steps@;
                        self.finish_ok(&mut steps);
                        assert(steps@[0] == steps@.take(1)[0]);
                        assert(steps@[0] == s0[0]);
                    }
                }
            },
            VoiceInput::Socket(VoiceSocketEvent::Ended) => {
                self.finish_ok(&mut steps);
            },
            VoiceInput::Socket(VoiceSocketEvent::Error(e)) => {
                return self.finish_err(joined("voice websocket error: ", e.as_str()));
            },
            VoiceInput::Socket(VoiceSocketEvent::Malformed(e)) => {
                return self.finish_err(joined("invalid voice event payload: ", e.as_str()));
            },
            VoiceInput::Socket(VoiceSocketEvent::Close(frame)) => {
                if self.stop_sent {
                    self.finish_ok(&mut steps);
                } else {
                    let m = describe_close_frame(&frame);
                    return self.finish_err(m);
                }
            },
            VoiceInput::Socket(VoiceSocketEvent::Text(j)) => {
                return self.on_text(j);
            },
            VoiceInput::Socket(VoiceSocketEvent::Other) => {},
            VoiceInput::Sent(_) => {},
        }
        steps
    }
}

/// A finished session ignores whatever it is handed.
pub proof fn finished_session_ignores_input(old: VoiceSession, input: VoiceInput, new: VoiceSession, steps: Seq<VoiceStep>)
    requires
        old.finished,
        voice_ok(old, input, new, steps),
    ensures
        new == old,
        steps.len() == 0,
{
}

/// A session ends only as its last step, right after announcing that it
/// stopped, and it is then finished.
pub proof fn session_end_is_announced(old: VoiceSession, input: VoiceInput, new: VoiceSession, steps: Seq<VoiceStep>)
    requires
        voice_ok(old, input, new, steps),
    ensures
        forall|i: int| 0 <= i < steps.len() && #[trigger] steps[i] == VoiceStep::End ==> i == steps.len() - 1 && i >= 1 && emits(
            steps[i - 1],
            "stopped"@,
            None,
            None,
        ) && new.finished,
{
}

/// Once the end of the audio was sent, nothing more is sent.
pub proof fn nothing_is_sent_after_the_end_of_audio(
    old: VoiceSession,
    input: VoiceInput,
    new: VoiceSession,
    steps: Seq<VoiceStep>,
)
    requires
        old.stop_sent,
        old.pending == VoicePending::Nothing,
        voice_ok(old, input, new, steps),
    ensures
        new.stop_sent,
        new.pending == VoicePending::Nothing,
        forall|i: int| 0 <= i < steps.len() ==> !(#[trigger] steps[i] is Send),
{
}

} // verus!
