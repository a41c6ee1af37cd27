use hstack_agent::sync_config::{build_api_url, build_ws_url, resolve_remote_sync_config, SyncSessionInfo};
use hstack_agent::json::Json;
use hstack_agent::settings::SavedProviders;
use hstack_agent::sync::{commute_refresh_path, is_acknowledged, parse_remote_ticket_type, pending_overflow, sync_ws_path};
use hstack_agent::workspace::stack::TicketType;
use hstack_agent::sync_runtime::{
    ConnectOutcome, SocketEvent, SyncAwait, SyncEvent, SyncRuntime, SyncRuntimeCommand, SyncStage, SyncStep,
};
use hstack_agent::voice::{
    describe_close_frame, parse_error_message, CloseFrameInfo, VoiceInput, VoiceRuntimeCommand, VoiceSession,
    VoiceSocketEvent, VoiceStep,
};

fn s(t: &str) -> String {
    t.to_string()
}

fn obj(entries: Vec<(&str, Json)>) -> Json {
    Json::Object(entries.into_iter().map(|(k, v)| (s(k), v)).collect())
}

fn text(t: &str) -> Json {
    Json::Str(s(t))
}

fn published(step: &SyncStep, connected: bool, phase: &str, message: Option<&str>) -> bool {
    match step {
        SyncStep::Publish(st) => {
            st.connected == connected
                && st.phase == phase
                && st.message.as_deref() == message
                && st.transport_owner == "tauri-rust"
        }
        _ => false,
    }
}

#[test]
fn sync_runtime_handshakes_flushes_and_shuts_down() {
    let (mut rt, steps) = SyncRuntime::start(s("https://h.example"));
    assert_eq!(steps.len(), 2);
    assert!(published(&steps[0], false, "connecting", Some("connecting to https://h.example")));
    assert!(matches!(steps[1], SyncStep::Connect));

    let steps = rt.step(SyncEvent::Connect(ConnectOutcome::Connected));
    assert!(published(&steps[0], false, "handshaking", Some("sync websocket connected; waiting for protocol handshake")));
    assert!(matches!(steps[1], SyncStep::SendHello));
    assert!(rt.step(SyncEvent::Hello(Ok(()))).is_empty());
    assert_eq!(rt.stage, SyncStage::Live { handshake_completed: false, awaiting: SyncAwait::Nothing });

    let steps = rt.step(SyncEvent::Socket(SocketEvent::Text(obj(vec![("type", text("ACK")), ("status", text("IN_SYNC"))]))));
    assert_eq!(steps.len(), 2);
    assert!(published(&steps[0], true, "connected", None));
    assert!(matches!(steps[1], SyncStep::Flush));
    assert!(rt.step(SyncEvent::Flushed(Ok(()))).is_empty());
    assert!(rt.step(SyncEvent::HandshakeDeadline).is_empty());

    let ids = Json::Array(vec![text("a1"), text("b2")]);
    let steps = rt.step(SyncEvent::Socket(SocketEvent::Text(obj(vec![("type", text("SYNC_ACK")), ("ack_action_ids", ids)]))));
    assert_eq!(steps.len(), 3);
    assert!(published(&steps[0], true, "connected", None));
    assert!(matches!(&steps[1], SyncStep::RemoveAcked(v) if v == &vec![s("a1"), s("b2")]));
    assert!(matches!(steps[2], SyncStep::Refresh));
    let steps = rt.step(SyncEvent::Refreshed(Err(s("remote state fetch failed with status 500"))));
    assert_eq!(steps.len(), 1);
    assert!(published(&steps[0], true, "connected", Some("remote state fetch failed with status 500")));

    let steps = rt.step(SyncEvent::Socket(SocketEvent::Malformed(s("expected value"))));
    assert!(published(&steps[0], true, "connected", Some("ignored malformed sync message: expected value")));

    let steps = rt.step(SyncEvent::Command(Some(SyncRuntimeCommand::Shutdown)));
    assert_eq!(steps.len(), 3);
    assert!(matches!(steps[0], SyncStep::Close));
    assert!(published(&steps[1], false, "stopped", None));
    assert!(matches!(steps[2], SyncStep::Finish));
    assert_eq!(rt.stage, SyncStage::Stopped);
    assert!(rt.step(SyncEvent::WaitOver).is_empty());
}

#[test]
fn sync_runtime_backs_off_up_to_thirty_seconds() {
    let (mut rt, _) = SyncRuntime::start(s("http://h"));
    let steps = rt.step(SyncEvent::Connect(ConnectOutcome::Failed(s("refused"))));
    assert!(published(&steps[0], false, "reconnecting", Some("failed to connect native sync websocket: refused")));
    assert!(matches!(steps[1], SyncStep::Wait(1)));
    let mut waits = Vec::new();
    for _ in 0..6 {
        let steps = rt.step(SyncEvent::WaitOver);
        assert!(matches!(steps[1], SyncStep::Connect));
        let steps = rt.step(SyncEvent::Connect(ConnectOutcome::TimedOut));
        assert!(published(&steps[0], false, "reconnecting", Some("Connection timed out")));
        if let SyncStep::Wait(d) = steps[1] {
            waits.push(d);
        }
    }
    assert_eq!(waits, vec![2, 4, 8, 16, 30, 30]);
    assert!(rt.step(SyncEvent::Command(Some(SyncRuntimeCommand::Flush))).is_empty());
    rt.step(SyncEvent::WaitOver);
    rt.step(SyncEvent::Connect(ConnectOutcome::Connected));
    assert_eq!(rt.reconnect_delay_seconds, 1);
}

#[test]
fn sync_runtime_handles_hello_failure_and_handshake_timeout() {
    let (mut rt, _) = SyncRuntime::start(s("http://h"));
    rt.step(SyncEvent::Connect(ConnectOutcome::Connected));
    let steps = rt.step(SyncEvent::Hello(Err(s("failed to send sync HELLO: broken pipe"))));
    assert!(published(&steps[0], false, "reconnecting", Some("failed to send sync HELLO: broken pipe")));
    assert!(matches!(steps[1], SyncStep::Wait(1)));
    let steps = rt.step(SyncEvent::Command(None));
    assert_eq!(steps.len(), 1);
    assert!(matches!(steps[0], SyncStep::Finish));

    let (mut rt, _) = SyncRuntime::start(s("http://h"));
    rt.step(SyncEvent::Connect(ConnectOutcome::Connected));
    rt.step(SyncEvent::Hello(Ok(())));
    let steps = rt.step(SyncEvent::HandshakeDeadline);
    assert_eq!(steps.len(), 3);
    assert!(published(&steps[0], false, "reconnecting", Some("handshake timeout: server did not respond within 15s")));
    assert!(matches!(steps[1], SyncStep::Close));
    assert!(matches!(steps[2], SyncStep::Wait(1)));

    let (mut rt, _) = SyncRuntime::start(s("ws://h"));
    let steps = rt.step(SyncEvent::Connect(ConnectOutcome::RequestRefused(s("failed to parse websocket uri: bad"))));
    assert!(published(&steps[0], false, "error", Some("failed to parse websocket uri: bad")));
    assert!(matches!(steps[1], SyncStep::Finish));
}

#[test]
fn sync_runtime_refreshes_when_out_of_sync() {
    let (mut rt, _) = SyncRuntime::start(s("http://h"));
    rt.step(SyncEvent::Connect(ConnectOutcome::Connected));
    rt.step(SyncEvent::Hello(Ok(())));
    let steps = rt.step(SyncEvent::Socket(SocketEvent::Text(obj(vec![("type", text("OUT_OF_SYNC")), ("server_hash", text("h"))]))));
    assert_eq!(steps.len(), 1);
    assert!(matches!(steps[0], SyncStep::Refresh));
    let steps = rt.step(SyncEvent::Refreshed(Ok(())));
    assert!(published(&steps[0], true, "connected", None));
    assert!(matches!(steps[1], SyncStep::Flush));
    let steps = rt.step(SyncEvent::Flushed(Err(s("failed to send sync actions: closed"))));
    assert_eq!(steps.len(), 1);
    assert!(matches!(steps[0], SyncStep::Wait(1)));
}

fn sent(step: &VoiceStep, frame: &str) -> bool {
    matches!(step, VoiceStep::Send(t) if t == frame)
}

fn emitted(step: &VoiceStep, kind: &str, text: Option<&str>, message: Option<&str>) -> bool {
    match step {
        VoiceStep::Emit(e) => e.event_type == kind && e.text.as_deref() == text && e.message.as_deref() == message,
        _ => false,
    }
}

#[test]
fn voice_session_streams_flushes_and_finishes() {
    let (mut v, steps) = VoiceSession::start("managed");
    assert!(matches!(&steps[0], VoiceStep::Emit(e) if e.event_type == "started" && e.selected_mode.as_deref() == Some("managed")));
    let steps = v.step(VoiceInput::Command(Some(VoiceRuntimeCommand::AppendAudio { audio_base64: s("QUJD") })));
    assert!(sent(&steps[0], "{\"audio\":\"QUJD\",\"type\":\"input_audio.append\"}"));
    assert!(v.step(VoiceInput::Sent(Ok(()))).is_empty());
    let steps = v.step(VoiceInput::Socket(VoiceSocketEvent::Text(obj(vec![
        ("type", text("transcription.text.delta")),
        ("text", text("he")),
    ]))));
    assert!(emitted(&steps[0], "partial", Some("he"), None));
    let steps = v.step(VoiceInput::Command(Some(VoiceRuntimeCommand::Stop)));
    assert!(sent(&steps[0], "{\"type\":\"input_audio.flush\"}"));
    let steps = v.step(VoiceInput::Sent(Ok(())));
    assert!(sent(&steps[0], "{\"type\":\"input_audio.end\"}"));
    assert!(v.step(VoiceInput::Sent(Ok(()))).is_empty());
    assert!(v.stop_sent);
    assert!(v.step(VoiceInput::Command(Some(VoiceRuntimeCommand::AppendAudio { audio_base64: s("x") }))).is_empty());
    let steps = v.step(VoiceInput::Socket(VoiceSocketEvent::Text(obj(vec![
        ("text", text("hello")),
        ("type", text("transcription.done")),
    ]))));
    assert_eq!(steps.len(), 4);
    assert!(emitted(&steps[0], "done", Some("hello"), None));
    assert!(matches!(steps[1], VoiceStep::Close));
    assert!(emitted(&steps[2], "stopped", None, None));
    assert!(matches!(steps[3], VoiceStep::End));
    assert!(v.finished);
    assert!(v.step(VoiceInput::Socket(VoiceSocketEvent::Ended)).is_empty());
}

#[test]
fn voice_session_reports_errors_and_closes() {
    let (mut v, _) = VoiceSession::start("direct");
    let steps = v.step(VoiceInput::Socket(VoiceSocketEvent::Text(obj(vec![
        ("type", text("error")),
        ("error", obj(vec![("message", text("quota exceeded"))])),
    ]))));
    assert!(emitted(&steps[0], "error", None, Some("quota exceeded")));
    assert!(emitted(&steps[1], "stopped", None, None));
    assert!(matches!(steps[2], VoiceStep::End));

    let (mut v, _) = VoiceSession::start("direct");
    let steps = v.step(VoiceInput::Command(None));
    assert_eq!(steps.len(), 4);
    assert!(matches!(steps[0], VoiceStep::Close));
    assert!(matches!(steps[1], VoiceStep::Close));

    let (mut v, _) = VoiceSession::start("direct");
    v.step(VoiceInput::Command(Some(VoiceRuntimeCommand::AppendAudio { audio_base64: s("QQ==") })));
    let steps = v.step(VoiceInput::Sent(Err(s("broken pipe"))));
    assert!(emitted(&steps[0], "error", None, Some("failed to stream audio chunk: broken pipe")));

    let (mut v, _) = VoiceSession::start("direct");
    let steps = v.step(VoiceInput::Socket(VoiceSocketEvent::Close(Some(CloseFrameInfo { code: 1008, reason: s("") }))));
    assert!(emitted(&steps[0], "error", None, Some("voice websocket closed by remote endpoint (code 1008)")));
}

#[test]
fn voice_messages_and_close_frames_are_described() {
    assert_eq!(parse_error_message(&obj(vec![("type", text("error"))])), "voice transcription failed");
    assert_eq!(
        parse_error_message(&obj(vec![("error", obj(vec![("message", text("bad audio"))]))])),
        "bad audio"
    );
    assert_eq!(describe_close_frame(&None), "voice websocket closed by remote endpoint");
    assert_eq!(
        describe_close_frame(&Some(CloseFrameInfo { code: 1000, reason: s("bye") })),
        "voice websocket closed by remote endpoint (code 1000): bye"
    );
}

#[test]
fn sync_paths_types_and_acknowledgements() {
    assert_eq!(sync_ws_path(42), "/ws/sync/42");
    assert_eq!(sync_ws_path(-7), "/ws/sync/-7");
    assert_eq!(commute_refresh_path("t-1"), "/api/tickets/t-1/commute/refresh");
    assert_eq!(parse_remote_ticket_type("habit"), TicketType::Habit);
    assert_eq!(parse_remote_ticket_type("Event"), TicketType::Event);
    assert_eq!(parse_remote_ticket_type("COMMUTE"), TicketType::Commute);
    assert_eq!(parse_remote_ticket_type("countDown"), TicketType::Countdown);
    assert_eq!(parse_remote_ticket_type("note"), TicketType::Task);
    let acks = vec![s("a"), s("b")];
    assert!(is_acknowledged("b", &acks));
    assert!(!is_acknowledged("c", &acks));
    assert_eq!(pending_overflow(49), 0);
    assert_eq!(pending_overflow(50), 0);
    assert_eq!(pending_overflow(53), 3);
}

#[test]
fn saved_providers_upsert_and_delete() {
    let mut p: SavedProviders<u32> = SavedProviders { providers: Vec::new(), default_provider_id: None };
    p.upsert_provider(s("a"), 1);
    assert_eq!(p.default_provider_id.as_deref(), Some("a"));
    p.upsert_provider(s("b"), 2);
    p.upsert_provider(s("a"), 3);
    assert_eq!(p.providers, vec![(s("a"), 3), (s("b"), 2)]);
    assert_eq!(p.default_provider_id.as_deref(), Some("a"));
    p.delete_provider("a");
    assert_eq!(p.providers, vec![(s("b"), 2)]);
    assert_eq!(p.default_provider_id.as_deref(), Some("b"));
    p.delete_provider("zz");
    assert_eq!(p.default_provider_id.as_deref(), Some("b"));
    p.delete_provider("b");
    assert!(p.providers.is_empty());
    assert_eq!(p.default_provider_id, None);
}

fn session(user_id: Option<i64>, token: Option<&str>) -> SyncSessionInfo {
    SyncSessionInfo { user_id, user_name: None, token: token.map(|t| t.to_string()) }
}

#[test]
fn api_url_replaces_path_query_and_fragment() {
    assert_eq!(build_api_url("https://sync.example.com", "/api/tickets"), Ok("https://sync.example.com/api/tickets".to_string()));
    assert_eq!(
        build_api_url("https://sync.example.com/base?x=1#frag", "/api/tickets"),
        Ok("https://sync.example.com/api/tickets".to_string())
    );
    assert_eq!(
        build_api_url("not a url", "/api/tickets"),
        Err("invalid sync base URL: relative URL without a base".to_string())
    );
}

#[test]
fn ws_url_maps_the_scheme_and_names_the_user() {
    assert_eq!(build_ws_url("http://localhost:8000", 42), Ok("ws://localhost:8000/ws/sync/42".to_string()));
    assert_eq!(build_ws_url("https://sync.example.com/x?y=1", -3), Ok("wss://sync.example.com/ws/sync/-3".to_string()));
    assert_eq!(build_ws_url("ftp://example.com", 1), Err("unsupported sync URL scheme 'ftp'".to_string()));
    assert_eq!(build_ws_url("not a url", 1), Err("invalid sync base URL: relative URL without a base".to_string()));
}

#[test]
fn remote_sync_config_is_resolved_from_the_base_url_and_session() {
    let c = resolve_remote_sync_config("  https://sync.example.com/// ".to_string(), session(Some(5), Some("tok"))).unwrap();
    assert_eq!(c.base_url, "https://sync.example.com");
    assert_eq!(c.api_url, "https://sync.example.com/api/tickets");
    assert_eq!(c.ws_url, "wss://sync.example.com/ws/sync/5");
    assert_eq!(c.token, "tok");
    let err = |b: &str, s: SyncSessionInfo| resolve_remote_sync_config(b.to_string(), s).err();
    assert_eq!(err("   ", session(Some(5), Some("tok"))), Some("sync base URL must not be empty".to_string()));
    assert_eq!(err("https://x.com", session(None, Some("tok"))), Some("sync session is missing user_id".to_string()));
    assert_eq!(err("https://x.com", session(Some(1), None)), Some("sync session is missing token".to_string()));
    assert_eq!(
        err("ftp://x.com", session(Some(1), Some("t"))),
        Some("unsupported sync URL scheme 'ftp'".to_string())
    );
}
