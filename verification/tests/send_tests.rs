use eel_file::progress::Progress;
use eel_file::send::TxAction;
use eel_file::send::TxEvent;
use eel_file::send::TxOutcome;
use eel_file::send::TxPhase;
use eel_file::send::TxSession;
use eel_file::AppEvent;
use eel_file::AppState;
use eel_file::FileInfo;
use eel_file::LogMsg;

fn info(name: &str, size: u64) -> FileInfo {
    FileInfo {
        path: Some(format!("/tmp/{}", name)),
        size,
        name: name.to_string(),
        sender_addr: None,
    }
}

fn session_awaiting_response(name: &str, size: u64) -> TxSession {
    let (s, action, events) = TxSession::start("192.168.0.9:9000".to_string(), info(name, size));
    assert!(matches!(action, TxAction::Connect));
    assert!(matches!(events[0], AppEvent::AppState(AppState::Connecting)));

    let (s, action, events) = s.step(TxEvent::Connected);
    match &action {
        TxAction::SendMetadata { meta } => {
            assert_eq!(*meta, eel_file::codec::encode_metadata(name, size));
        }
        _ => panic!("expected SendMetadata"),
    }
    assert!(matches!(events[0], AppEvent::AppState(AppState::Handshake)));

    let (s, action, _) = s.step(TxEvent::MetaSent);
    assert!(matches!(action, TxAction::AwaitResponse { timeout_secs: 10 }));
    s
}

#[test]
fn timeout_waiting_for_response_returns_to_idle() {
    // a listener that never answers: after the deadline, a timeout log and
    // idle, with no payload byte requested
    let s = session_awaiting_response("f.bin", 2048);
    let (s, action, events) = s.step(TxEvent::ResponseTimeout);
    assert!(matches!(action, TxAction::Finish));
    assert!(matches!(s.phase, TxPhase::Done { outcome: TxOutcome::TimedOut }));
    assert!(matches!(events[0], AppEvent::StatusMessage(LogMsg::ResponseTimeout)));
    assert!(matches!(events[1], AppEvent::AppState(AppState::Idle)));
    // progress never moved: nothing was streamed
    assert_eq!(s.progress, Progress { done: 0, total: 0 });
}

#[test]
fn broken_stream_during_response_fails_the_session() {
    let s = session_awaiting_response("f.bin", 2048);
    let (s, action, events) = s.step(TxEvent::ResponseReadFailed { reason: "reset".to_string() });
    assert!(matches!(action, TxAction::Finish));
    assert!(matches!(s.phase, TxPhase::Done { outcome: TxOutcome::Failed }));
    assert!(matches!(events[0], AppEvent::StatusMessage(LogMsg::RemoteClosed)));
    match &events[1] {
        AppEvent::Error(e) => assert_eq!(
            e.message(),
            "Connection error, server is either unreachable or connection was refused: reset"
        ),
        _ => panic!("expected an Error event"),
    }
    assert!(matches!(events[2], AppEvent::AppState(AppState::Idle)));
}

#[test]
fn reject_marker_ends_the_session_as_rejected() {
    let s = session_awaiting_response("f.bin", 100);
    let (s, action, events) = s.step(TxEvent::ResponseLine { line: "NO, SIRE.".to_string() });
    assert!(matches!(action, TxAction::Finish));
    assert!(matches!(s.phase, TxPhase::Done { outcome: TxOutcome::Rejected }));
    assert!(matches!(events[1], AppEvent::StatusMessage(LogMsg::RemoteRejected)));
    assert!(matches!(events[2], AppEvent::AppState(AppState::Idle)));
}

#[test]
fn accept_marker_starts_streaming() {
    let s = session_awaiting_response("f.bin", 100);
    let (s, action, events) = s.step(TxEvent::ResponseLine { line: "HAND IT OVER".to_string() });
    assert!(matches!(action, TxAction::ReadAndSendChunk { max: 100 }));
    assert!(matches!(s.phase, TxPhase::Streaming { size: 100, remaining: 100 }));
    assert!(matches!(events[2], AppEvent::AppState(AppState::Sending)));
}

#[test]
fn any_other_response_counts_as_acceptance() {
    let s = session_awaiting_response("f.bin", 10);
    let (s, _, _) = s.step(TxEvent::ResponseLine { line: "sure, whatever".to_string() });
    assert!(matches!(s.phase, TxPhase::Streaming { .. }));
}

#[test]
fn streaming_completes_with_full_progress() {
    let total: u64 = 150000;
    let s = session_awaiting_response("big", total);
    let (mut s, mut action, _) = s.step(TxEvent::ResponseLine { line: "HAND IT OVER".to_string() });

    let mut progress_values: Vec<(u64, u64)> = Vec::new();
    loop {
        let max = match action {
            TxAction::ReadAndSendChunk { max } => max,
            TxAction::Finish => break,
            _ => panic!("unexpected action mid-stream"),
        };
        assert!(max > 0 && max <= 65536);
        let (s2, a2, events) = s.step(TxEvent::ChunkSent { count: max });
        for e in &events {
            if let AppEvent::Progress(p) = e {
                progress_values.push((p.done, p.total));
            }
        }
        s = s2;
        action = a2;
    }
    for w in progress_values.windows(2) {
        assert_eq!(w[0].1, w[1].1);
        assert!(w[0].0 <= w[1].0);
    }
    assert_eq!(*progress_values.last().unwrap(), (total, total));
    assert!(matches!(s.phase, TxPhase::Done { outcome: TxOutcome::Completed }));
    assert_eq!(s.progress, Progress { done: total, total });
}

#[test]
fn cancellation_during_connect_aborts_cleanly() {
    let (s, _, _) = TxSession::start("10.0.0.1:1".to_string(), info("f", 5));
    let (s, action, events) = s.step(TxEvent::Cancelled);
    assert!(matches!(action, TxAction::Finish));
    assert!(matches!(s.phase, TxPhase::Done { outcome: TxOutcome::Cancelled }));
    assert!(matches!(events[0], AppEvent::AppState(AppState::Idle)));
    assert!(matches!(events[1], AppEvent::StatusMessage(LogMsg::ConnectAborted)));
}

#[test]
fn connect_error_returns_to_idle() {
    let (s, _, _) = TxSession::start("10.0.0.1:1".to_string(), info("f", 5));
    let (s, action, events) = s.step(TxEvent::ConnectError { reason: "refused".to_string() });
    assert!(matches!(action, TxAction::Finish));
    assert!(matches!(s.phase, TxPhase::Done { outcome: TxOutcome::ConnectFailed }));
    match &events[2] {
        AppEvent::Error(e) => assert_eq!(
            e.message(),
            "Connection error, server is either unreachable or connection was refused: refused"
        ),
        _ => panic!("expected an Error event"),
    }
}

#[test]
fn cancellation_mid_stream_stops_sending() {
    let s = session_awaiting_response("f", 1000);
    let (s, _, _) = s.step(TxEvent::ResponseLine { line: "HAND IT OVER".to_string() });
    let (s, _, _) = s.step(TxEvent::ChunkSent { count: 400 });
    let (s, action, events) = s.step(TxEvent::Cancelled);
    assert!(matches!(action, TxAction::Finish));
    assert!(matches!(s.phase, TxPhase::Done { outcome: TxOutcome::Cancelled }));
    assert!(matches!(events[0], AppEvent::StatusMessage(LogMsg::UploadCancelled)));
}

#[test]
fn file_read_failure_mid_stream_fails_the_session() {
    let s = session_awaiting_response("f", 1000);
    let (s, _, _) = s.step(TxEvent::ResponseLine { line: "ok".to_string() });
    let (s, action, _) = s.step(TxEvent::FileReadFailed { reason: "gone".to_string() });
    assert!(matches!(action, TxAction::Finish));
    assert!(matches!(s.phase, TxPhase::Done { outcome: TxOutcome::Failed }));
}

#[test]
fn empty_file_accepted_is_immediately_complete() {
    let s = session_awaiting_response("empty", 0);
    let (s, action, _) = s.step(TxEvent::ResponseLine { line: "HAND IT OVER".to_string() });
    assert!(matches!(action, TxAction::Finish));
    assert!(matches!(s.phase, TxPhase::Done { outcome: TxOutcome::Completed }));
    assert_eq!(s.progress, Progress { done: 0, total: 0 });
}
