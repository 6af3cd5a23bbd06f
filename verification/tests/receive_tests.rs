use eel_file::codec::encode_metadata;
use eel_file::progress::Progress;
use eel_file::receive::FileModel;
use eel_file::receive::RxAction;
use eel_file::receive::RxEvent;
use eel_file::receive::RxOutcome;
use eel_file::receive::RxPhase;
use eel_file::receive::RxSession;
use eel_file::AppEvent;
use eel_file::AppState;
use eel_file::LogMsg;

fn line(s: &str) -> RxEvent {
    RxEvent::LineRead { line: s.to_string() }
}

fn terminator() -> RxEvent {
    RxEvent::LineRead { line: "ITS OVER".to_string() }
}

/// Drives a fresh session through metadata for (`name`, `size`).
fn session_after_metadata(dir: &str, name: &str, size: u64) -> (RxSession, RxAction) {
    let (s, action, _) = RxSession::start(dir.to_string());
    assert!(matches!(action, RxAction::ReadLine));
    let (s, action, _) = s.step(line(&encode_metadata(name, size)));
    assert!(matches!(action, RxAction::ReadLine));
    let (s, action, events) = s.step(terminator());
    assert!(matches!(events[0], AppEvent::StatusMessage(LogMsg::MetadataReceived)));
    match &events[1] {
        AppEvent::FileInfo(fi) => {
            assert_eq!(fi.name, name);
            assert_eq!(fi.size, size);
            assert!(fi.path.is_none());
        }
        other => panic!("expected a FileInfo event, got {:?}", std::mem::discriminant(other)),
    }
    (s, action)
}

#[test]
fn successful_receive_produces_file_of_exact_size() {
    // metadata {name: a.bin, size: 1024}, accept, stream 1024 bytes
    let (s, action) = session_after_metadata("dir", "a.bin", 1024);
    assert!(matches!(action, RxAction::QueryFreeSpace));

    let (s, action, _) = s.step(RxEvent::FreeSpace { free: Some(4096) });
    match &action {
        RxAction::CreateFile { path } => assert_eq!(path, "dir/a.bin"),
        _ => panic!("expected CreateFile"),
    }

    let (s, action, events) = s.step(RxEvent::FileCreated);
    assert!(matches!(action, RxAction::SendAcceptAndRead { max: 1024 }));
    assert!(matches!(events[0], AppEvent::AppState(AppState::Accepting)));
    assert!(matches!(events[1], AppEvent::StatusMessage(LogMsg::TransferStarting)));

    let (s, action, events) = s.step(RxEvent::ChunkWritten { count: 1024 });
    assert!(matches!(action, RxAction::CloseFile));
    assert!(matches!(
        events[0],
        AppEvent::Progress(Progress { done: 1024, total: 1024 })
    ));
    assert!(matches!(events[1], AppEvent::StatusMessage(LogMsg::TransferComplete)));

    assert!(matches!(s.phase, RxPhase::Done { outcome: RxOutcome::Completed }));
    assert_eq!(s.file, FileModel::Closed { len: 1024 });
    assert_eq!(s.progress, Progress { done: 1024, total: 1024 });
}

#[test]
fn progress_is_nondecreasing_and_ends_at_one() {
    let total: u64 = 150000;
    let (s, _) = session_after_metadata("d", "big", total);
    let (s, _, _) = s.step(RxEvent::FreeSpace { free: Some(total + 1) });
    let (mut s, mut action, _) = s.step(RxEvent::FileCreated);

    let mut progress_values: Vec<(u64, u64)> = Vec::new();
    loop {
        let max = match action {
            RxAction::SendAcceptAndRead { max } => max,
            RxAction::ReadChunk { max } => max,
            RxAction::CloseFile => break,
            _ => panic!("unexpected action mid-copy"),
        };
        assert!(max > 0 && max <= 65536);
        let (s2, a2, events) = s.step(RxEvent::ChunkWritten { count: max });
        for e in &events {
            if let AppEvent::Progress(p) = e {
                progress_values.push((p.done, p.total));
            }
        }
        s = s2;
        action = a2;
    }
    // non-decreasing, within [0, 1], first value only after a chunk, last exactly 1
    assert!(!progress_values.is_empty());
    for w in progress_values.windows(2) {
        assert_eq!(w[0].1, w[1].1);
        assert!(w[0].0 <= w[1].0);
    }
    for (done, tot) in &progress_values {
        assert!(done <= tot);
    }
    assert!(progress_values[0].0 > 0);
    assert_eq!(*progress_values.last().unwrap(), (total, total));
    assert!(matches!(s.phase, RxPhase::Done { outcome: RxOutcome::Completed }));
}

#[test]
fn free_space_equal_to_size_is_rejected() {
    // boundary: strictly more space is required
    let (s, _) = session_after_metadata("d", "b.bin", 1024);
    let (s, action, events) = s.step(RxEvent::FreeSpace { free: Some(1024) });
    assert!(matches!(action, RxAction::SendReject));
    assert!(matches!(s.phase, RxPhase::Done { outcome: RxOutcome::Rejected }));
    assert_eq!(s.file, FileModel::Absent);
    assert!(matches!(events[0], AppEvent::StatusMessage(LogMsg::NotEnoughSpace)));
}

#[test]
fn free_space_one_above_size_is_accepted() {
    let (s, _) = session_after_metadata("d", "b.bin", 1024);
    let (s, action, _) = s.step(RxEvent::FreeSpace { free: Some(1025) });
    assert!(matches!(action, RxAction::CreateFile { .. }));
    assert!(matches!(s.phase, RxPhase::CreatingFile { .. }));
    assert_eq!(s.file, FileModel::Absent);
}

#[test]
fn zero_free_space_rejects_and_creates_no_file() {
    // destination with 0 bytes free: reject, and no file is ever created
    let (s, _) = session_after_metadata("dir", "b.bin", 500);
    let (s, action, _) = s.step(RxEvent::FreeSpace { free: Some(0) });
    assert!(matches!(action, RxAction::SendReject));
    assert!(matches!(s.phase, RxPhase::Done { outcome: RxOutcome::Rejected }));
    assert_eq!(s.file, FileModel::Absent);
}

#[test]
fn unknown_volume_is_rejected() {
    let (s, action) = session_after_metadata("d", "c.bin", 10);
    assert!(matches!(action, RxAction::QueryFreeSpace));
    let (s, action, _) = s.step(RxEvent::FreeSpace { free: None });
    assert!(matches!(action, RxAction::SendReject));
    assert!(matches!(s.phase, RxPhase::Done { outcome: RxOutcome::Rejected }));
}

#[test]
fn cancellation_mid_copy_deletes_the_partial_file() {
    let (s, _) = session_after_metadata("d", "big", 1024);
    let (s, _, _) = s.step(RxEvent::FreeSpace { free: Some(4096) });
    let (s, _, _) = s.step(RxEvent::FileCreated);
    let (s, _, _) = s.step(RxEvent::ChunkWritten { count: 512 });
    assert_eq!(s.file, FileModel::Open { len: 512 });

    let (s, action, events) = s.step(RxEvent::Cancelled);
    assert!(matches!(action, RxAction::DeleteFile));
    assert!(matches!(s.phase, RxPhase::Done { outcome: RxOutcome::Cancelled }));
    assert_eq!(s.file, FileModel::Absent);
    assert!(matches!(events[0], AppEvent::AppState(AppState::Idle)));
    assert!(matches!(events[1], AppEvent::StatusMessage(LogMsg::DownloadCancelled)));
}

#[test]
fn unexpected_eof_mid_copy_deletes_the_partial_file() {
    let (s, _) = session_after_metadata("d", "big", 1024);
    let (s, _, _) = s.step(RxEvent::FreeSpace { free: Some(4096) });
    let (s, _, _) = s.step(RxEvent::FileCreated);
    let (s, _, _) = s.step(RxEvent::ChunkWritten { count: 100 });
    let (s, action, events) = s.step(RxEvent::ChunkEof);
    assert!(matches!(action, RxAction::DeleteFile));
    assert!(matches!(s.phase, RxPhase::Done { outcome: RxOutcome::Failed }));
    assert_eq!(s.file, FileModel::Absent);
    assert!(matches!(events[0], AppEvent::StatusMessage(LogMsg::UnexpectedEof)));
}

#[test]
fn io_error_mid_copy_deletes_the_partial_file() {
    let (s, _) = session_after_metadata("d", "big", 64);
    let (s, _, _) = s.step(RxEvent::FreeSpace { free: Some(65) });
    let (s, _, _) = s.step(RxEvent::FileCreated);
    let (s, action, _) = s.step(RxEvent::IoError { reason: "reset".to_string() });
    assert!(matches!(action, RxAction::DeleteFile));
    assert!(matches!(s.phase, RxPhase::Done { outcome: RxOutcome::Failed }));
    assert_eq!(s.file, FileModel::Absent);
}

#[test]
fn malformed_metadata_drops_the_connection() {
    let (s, _, _) = RxSession::start("d".to_string());
    let (s, _, _) = s.step(line("this is not a metadata record"));
    let (s, action, events) = s.step(terminator());
    assert!(matches!(action, RxAction::Finish));
    assert!(matches!(s.phase, RxPhase::Done { outcome: RxOutcome::ProtocolError }));
    assert_eq!(s.file, FileModel::Absent);
    assert!(matches!(events[0], AppEvent::StatusMessage(LogMsg::MetadataMalformed)));
}

#[test]
fn metadata_may_arrive_split_over_lines() {
    let (s, _, _) = RxSession::start("d".to_string());
    let (s, _, _) = s.step(line("5 a."));
    let (s, _, _) = s.step(line("bin 42"));
    let (s, action, _) = s.step(terminator());
    assert!(matches!(action, RxAction::QueryFreeSpace));
    match &s.phase {
        RxPhase::CheckingSpace { name, size } => {
            assert_eq!(name, "a.bin");
            assert_eq!(*size, 42);
        }
        _ => panic!("expected CheckingSpace"),
    }
}

#[test]
fn empty_file_completes_without_streaming() {
    let (s, _) = session_after_metadata("d", "empty", 0);
    let (s, _, _) = s.step(RxEvent::FreeSpace { free: Some(1) });
    let (s, action, events) = s.step(RxEvent::FileCreated);
    // the peer is still owed the accept marker
    assert!(matches!(action, RxAction::SendAcceptAndClose));
    assert!(matches!(s.phase, RxPhase::Done { outcome: RxOutcome::Completed }));
    assert_eq!(s.file, FileModel::Closed { len: 0 });
    assert!(matches!(
        events[2],
        AppEvent::Progress(Progress { done: 0, total: 0 })
    ));
}

#[test]
fn create_failure_ends_the_session_without_a_file() {
    let (s, _) = session_after_metadata("d", "dup.bin", 10);
    let (s, _, _) = s.step(RxEvent::FreeSpace { free: Some(11) });
    let (s, action, events) = s.step(RxEvent::FileCreateFailed {
        reason: "already exists".to_string(),
    });
    assert!(matches!(action, RxAction::Finish));
    assert!(matches!(s.phase, RxPhase::Done { outcome: RxOutcome::Failed }));
    assert_eq!(s.file, FileModel::Absent);
    assert!(matches!(events[0], AppEvent::StatusMessage(LogMsg::FileCreateFailed)));
    match &events[1] {
        AppEvent::Error(e) => assert_eq!(e.message(), "IO error: already exists"),
        _ => panic!("expected an Error event"),
    }
}

#[test]
fn cancellation_during_metadata_leaves_nothing_behind() {
    let (s, _, _) = RxSession::start("d".to_string());
    let (s, action, _) = s.step(RxEvent::Cancelled);
    assert!(matches!(action, RxAction::Finish));
    assert!(matches!(s.phase, RxPhase::Done { outcome: RxOutcome::Cancelled }));
    assert_eq!(s.file, FileModel::Absent);
}
