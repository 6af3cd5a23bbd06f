//! The listener loop: bind once, accept connections one at a time, run a
//! receive session (`RxSession`) per connection, and shut down cooperatively
//! when the server handle is cancelled. After every session — success,
//! rejection, failure or cancellation — a fresh task cancellation handle
//! must be armed before the next accept, so a new connection is never
//! captured by a stale session's cancel handle.

use vstd::prelude::*;

use crate::AppEvent;
use crate::AppState;
use crate::LogMsg;

verus! {

/// Where the listener stands.
#[derive(Clone, Copy, PartialEq, Eq, Structural, Debug)]
pub enum LPhase {
    /// The bind attempt is in flight.
    Binding,
    /// Bound; awaiting a connection or the server's cancellation.
    Listening,
    /// A connection is being serviced by a receive session.
    InSession,
    /// The loop exited; the socket is released.
    Stopped,
}

/// What the caller must do next.
#[derive(Clone, Copy, PartialEq, Eq, Structural, Debug)]
pub enum LAction {
    /// Bind the configured port.
    Bind,
    /// Await the next connection, racing the server's cancellation handle.
    Accept,
    /// Open a receive session (`RxSession::start`) for the accepted
    /// connection, with this listener's directory, and drive it to its end.
    StartSession,
    /// Arm a fresh task cancellation handle, then await the next connection.
    RearmAndAccept,
    /// Close the listening socket; the loop is over.
    ReleaseSocket,
    /// Nothing was bound; the loop is over.
    Stop,
}

/// What the caller reports back.
#[derive(Clone, Copy, PartialEq, Eq, Structural, Debug)]
pub enum LEvent {
    BindOk,
    /// The port could not be bound (most likely already in use).
    BindFailed,
    /// A connection was accepted.
    Accepted,
    /// The server handle was cancelled.
    ServerCancelled,
    /// The receive session ended (any outcome) and the connection closed.
    SessionClosed,
}

/// One listening lifetime on one port.
pub struct Listener {
    /// Destination directory handed to every session.
    pub dir: String,
    pub port: u16,
    pub phase: LPhase,
}

impl Listener {
    /// The events the caller may feed the listener in its current phase.
    pub open spec fn event_ok(self, e: LEvent) -> bool {
        match self.phase {
            LPhase::Binding => e is BindOk || e is BindFailed,
            LPhase::Listening => e is Accepted || e is ServerCancelled,
            LPhase::InSession => e is SessionClosed,
            LPhase::Stopped => false,
        }
    }

    /// Opens a listening lifetime on `port`, delivering into `dir`.
    pub fn start(dir: String, port: u16) -> (r: (Listener, LAction))
        ensures
            r.0.phase is Binding,
            r.0.dir@ == dir@,
            r.0.port == port,
            r.1 is Bind,
    {
        (Listener { dir, port, phase: LPhase::Binding }, LAction::Bind)
    }

    /// Feeds one event to the listener and returns the next state, the
    /// action the caller must perform, and the events to publish.
    ///
    /// The clauses spell out the loop: a failed bind returns to idle
    /// without entering the accept loop; a successful bind announces
    /// listening; the server's cancellation while listening returns to idle
    /// and releases the socket; an accepted connection opens a receive
    /// session; and after a session ends — whatever its outcome — a fresh
    /// task handle is demanded before the next accept.
    pub fn step(self, e: LEvent) -> (r: (Listener, LAction, Vec<AppEvent>))
        requires
            self.event_ok(e),
        ensures
            r.0.dir@ == self.dir@,
            r.0.port == self.port,
            (match (self.phase, e) {
                (LPhase::Binding, LEvent::BindOk) => {
                    &&& r.0.phase is Listening
                    &&& r.1 is Accept
                    &&& r.2@.len() == 2
                    &&& r.2@[0] == AppEvent::AppState(AppState::Listening)
                    &&& r.2@[1] == AppEvent::StatusMessage(LogMsg::ListeningOn { port: self.port })
                },
                (LPhase::Binding, LEvent::BindFailed) => {
                    &&& r.0.phase is Stopped
                    &&& r.1 is Stop
                    &&& r.2@.len() == 2
                    &&& r.2@[0] == AppEvent::AppState(AppState::Idle)
                    &&& r.2@[1] == AppEvent::StatusMessage(LogMsg::BindFailed)
                },
                (LPhase::Listening, LEvent::ServerCancelled) => {
                    &&& r.0.phase is Stopped
                    &&& r.1 is ReleaseSocket
                    &&& r.2@.len() == 2
                    &&& r.2@[0] == AppEvent::AppState(AppState::Idle)
                    &&& r.2@[1] == AppEvent::StatusMessage(LogMsg::ListenerShutDown)
                },
                (LPhase::Listening, LEvent::Accepted) => {
                    &&& r.0.phase is InSession
                    &&& r.1 is StartSession
                    &&& r.2@.len() == 2
                    &&& r.2@[0] == AppEvent::AppState(AppState::Handshake)
                    &&& r.2@[1] == AppEvent::StatusMessage(LogMsg::ConnectionAccepted)
                },
                (LPhase::InSession, LEvent::SessionClosed) => {
                    &&& r.0.phase is Listening
                    &&& r.1 is RearmAndAccept
                    &&& r.2@.len() == 2
                    &&& r.2@[0] == AppEvent::StatusMessage(LogMsg::CommunicationEnded)
                    &&& r.2@[1] == AppEvent::AppState(AppState::Listening)
                },
                _ => false,
            }),
    {
        match (self.phase, e) {
            (LPhase::Binding, LEvent::BindOk) => {
                let events = vec![
                    AppEvent::AppState(AppState::Listening),
                    AppEvent::StatusMessage(LogMsg::ListeningOn { port: self.port }),
                ];
                let l = Listener { phase: LPhase::Listening, ..self };
                (l, LAction::Accept, events)
            },
            (LPhase::Binding, LEvent::BindFailed) => {
                let events = vec![
                    AppEvent::AppState(AppState::Idle),
                    AppEvent::StatusMessage(LogMsg::BindFailed),
                ];
                let l = Listener { phase: LPhase::Stopped, ..self };
                (l, LAction::Stop, events)
            },
            (LPhase::Listening, LEvent::ServerCancelled) => {
                let events = vec![
                    AppEvent::AppState(AppState::Idle),
                    AppEvent::StatusMessage(LogMsg::ListenerShutDown),
                ];
                let l = Listener { phase: LPhase::Stopped, ..self };
                (l, LAction::ReleaseSocket, events)
            },
            (LPhase::Listening, LEvent::Accepted) => {
                let events = vec![
                    AppEvent::AppState(AppState::Handshake),
                    AppEvent::StatusMessage(LogMsg::ConnectionAccepted),
                ];
                let l = Listener { phase: LPhase::InSession, ..self };
                (l, LAction::StartSession, events)
            },
            (LPhase::InSession, LEvent::SessionClosed) => {
                let events = vec![
                    AppEvent::StatusMessage(LogMsg::CommunicationEnded),
                    AppEvent::AppState(AppState::Listening),
                ];
                let l = Listener { phase: LPhase::Listening, ..self };
                (l, LAction::RearmAndAccept, events)
            },
            _ => {
                proof {
                    assert(false);
                }
                let l = Listener { phase: LPhase::Stopped, ..self };
                (l, LAction::Stop, Vec::new())
            },
        }
    }
}

} // verus!
