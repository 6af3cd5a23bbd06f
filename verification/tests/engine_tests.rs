use eel_file::engine::Engine;
use eel_file::engine::NetCommand;
use eel_file::engine::StartedTask;
use eel_file::listener::LAction;
use eel_file::listener::LEvent;
use eel_file::listener::LPhase;
use eel_file::listener::Listener;
use eel_file::codec::encode_metadata;
use eel_file::receive::FileModel;
use eel_file::receive::RxAction;
use eel_file::receive::RxEvent;
use eel_file::receive::RxOutcome;
use eel_file::receive::RxPhase;
use eel_file::receive::RxSession;
use eel_file::AppEvent;
use eel_file::AppState;
use eel_file::FileInfo;
use eel_file::LogMsg;

fn receive_cmd(dir: &str, port: u16) -> NetCommand {
    NetCommand::Receive { dir: dir.to_string(), port }
}

#[test]
fn abort_while_idle_listening_returns_to_idle_and_frees_the_port() {
    // start Receive, bind, then abort the server before any connection
    let mut engine = Engine::new();
    let started = engine.start(receive_cmd("dir", 9000));
    let (listener, action, server_handle, task_handle) = match started {
        StartedTask::Listen { listener, action, server_handle, task_handle } => {
            (listener, action, server_handle, task_handle)
        }
        _ => panic!("expected a listener"),
    };
    assert!(matches!(action, LAction::Bind));
    assert_ne!(server_handle, task_handle);

    let (listener, action, events) = listener.step(LEvent::BindOk);
    assert!(matches!(action, LAction::Accept));
    assert_eq!(listener.phase, LPhase::Listening);
    assert!(matches!(events[0], AppEvent::AppState(AppState::Listening)));
    assert!(matches!(
        events[1],
        AppEvent::StatusMessage(LogMsg::ListeningOn { port: 9000 })
    ));

    // abort: both handles come back for cancellation, the slots empty
    let (server, task) = engine.abort_server();
    assert_eq!(server, Some(server_handle));
    assert_eq!(task, Some(task_handle));

    let (listener, action, events) = listener.step(LEvent::ServerCancelled);
    assert!(matches!(action, LAction::ReleaseSocket));
    assert_eq!(listener.phase, LPhase::Stopped);
    assert!(matches!(events[0], AppEvent::AppState(AppState::Idle)));
    assert!(matches!(events[1], AppEvent::StatusMessage(LogMsg::ListenerShutDown)));

    // the socket is released: a subsequent Receive on the same port binds
    let started = engine.start(receive_cmd("dir", 9000));
    let (listener2, _, sh2, th2) = match started {
        StartedTask::Listen { listener, action, server_handle, task_handle } => {
            (listener, action, server_handle, task_handle)
        }
        _ => panic!("expected a listener"),
    };
    assert_ne!(sh2, server_handle);
    assert_ne!(th2, task_handle);
    let (listener2, action, _) = listener2.step(LEvent::BindOk);
    assert!(matches!(action, LAction::Accept));
    assert_eq!(listener2.phase, LPhase::Listening);
}

#[test]
fn bind_failure_returns_to_idle_without_accepting() {
    let (listener, action) = Listener::start("d".to_string(), 80);
    assert!(matches!(action, LAction::Bind));
    let (listener, action, events) = listener.step(LEvent::BindFailed);
    assert!(matches!(action, LAction::Stop));
    assert_eq!(listener.phase, LPhase::Stopped);
    assert!(matches!(events[0], AppEvent::AppState(AppState::Idle)));
    assert!(matches!(events[1], AppEvent::StatusMessage(LogMsg::BindFailed)));
}

#[test]
fn each_session_gets_a_fresh_task_handle() {
    let mut engine = Engine::new();
    let started = engine.start(receive_cmd("d", 1234));
    let (listener, task_handle) = match started {
        StartedTask::Listen { listener, task_handle, .. } => (listener, task_handle),
        _ => panic!("expected a listener"),
    };
    let (listener, _, _) = listener.step(LEvent::BindOk);
    let (listener, action, events) = listener.step(LEvent::Accepted);
    assert!(matches!(action, LAction::StartSession));
    assert_eq!(listener.phase, LPhase::InSession);
    assert!(matches!(events[0], AppEvent::AppState(AppState::Handshake)));

    // the session ends; before the next accept a fresh handle is armed
    let (listener, action, events) = listener.step(LEvent::SessionClosed);
    assert!(matches!(action, LAction::RearmAndAccept));
    assert_eq!(listener.phase, LPhase::Listening);
    assert!(matches!(events[0], AppEvent::StatusMessage(LogMsg::CommunicationEnded)));
    assert!(matches!(events[1], AppEvent::AppState(AppState::Listening)));

    let (new_handle, old_handle) = engine.rearm_task();
    assert_eq!(old_handle, Some(task_handle));
    assert_ne!(new_handle, task_handle);
}

#[test]
fn full_receive_flow_through_listener() {
    // Receive(dir, 9000); a connection sends metadata {a.bin, 1024}, is
    // accepted, streams 1024 bytes, and the file model closes at 1024
    let mut engine = Engine::new();
    let started = engine.start(receive_cmd("dir", 9000));
    let listener = match started {
        StartedTask::Listen { listener, .. } => listener,
        _ => panic!("expected a listener"),
    };
    let (listener, _, _) = listener.step(LEvent::BindOk);
    let (listener, action, _) = listener.step(LEvent::Accepted);
    assert!(matches!(action, LAction::StartSession));

    let (s, _, _) = RxSession::start(listener.dir.clone());
    let (s, _, _) = s.step(RxEvent::LineRead { line: encode_metadata("a.bin", 1024) });
    let (s, _, _) = s.step(RxEvent::LineRead { line: "ITS OVER".to_string() });
    let (s, _, _) = s.step(RxEvent::FreeSpace { free: Some(1_000_000) });
    let (s, action, _) = s.step(RxEvent::FileCreated);
    assert!(matches!(action, RxAction::SendAcceptAndRead { max: 1024 }));
    let (s, _, events) = s.step(RxEvent::ChunkWritten { count: 1024 });
    assert!(matches!(s.phase, RxPhase::Done { outcome: RxOutcome::Completed }));
    assert_eq!(s.file, FileModel::Closed { len: 1024 });
    assert_eq!(s.info.as_ref().unwrap().path.as_deref(), Some("dir/a.bin"));
    assert!(matches!(
        events[0],
        AppEvent::Progress(eel_file::progress::Progress { done: 1024, total: 1024 })
    ));

    let (listener, action, _) = listener.step(LEvent::SessionClosed);
    assert!(matches!(action, LAction::RearmAndAccept));
    assert_eq!(listener.phase, LPhase::Listening);
}

#[test]
fn abort_task_is_idempotent() {
    let mut engine = Engine::new();
    let started = engine.start(NetCommand::Send {
        addr: "127.0.0.1:9".to_string(),
        info: FileInfo {
            path: Some("/tmp/f".to_string()),
            size: 1,
            name: "f".to_string(),
            sender_addr: None,
        },
    });
    let task_handle = match started {
        StartedTask::Transmit { task_handle, .. } => task_handle,
        _ => panic!("expected a send session"),
    };
    assert_eq!(engine.abort_task(), Some(task_handle));
    // cancelling again finds the slot empty: a safe no-op
    assert_eq!(engine.abort_task(), None);
}

#[test]
fn send_command_starts_a_connecting_session() {
    let mut engine = Engine::new();
    let started = engine.start(NetCommand::Send {
        addr: "10.1.2.3:7000".to_string(),
        info: FileInfo {
            path: Some("/tmp/payload".to_string()),
            size: 2048,
            name: "payload".to_string(),
            sender_addr: None,
        },
    });
    match started {
        StartedTask::Transmit { session, action, events, .. } => {
            assert_eq!(session.addr, "10.1.2.3:7000");
            assert_eq!(session.info.size, 2048);
            assert!(matches!(action, eel_file::send::TxAction::Connect));
            assert!(matches!(events[0], AppEvent::AppState(AppState::Connecting)));
        }
        _ => panic!("expected a send session"),
    }
}
