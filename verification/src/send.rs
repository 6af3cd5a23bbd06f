//! The send session: per-connect-attempt logic. The machine connects
//! (cancellably), sends the metadata and the terminator, awaits the
//! receiver's one-line response under a deadline, then streams the file in
//! chunks, checking cancellation around every chunk. The caller owns the
//! socket and the source file: it performs each returned action and feeds
//! the outcome back as the next event.

use vstd::prelude::*;
use vstd::string::StrSliceExecFns;

use crate::codec::encode_metadata;
use crate::codec::encode_metadata_spec;
use crate::codec::reject_spec;
use crate::codec::response_is_reject;
use crate::eel_error::EelError;
use crate::progress::Progress;
use crate::receive::chunk_cap;
use crate::receive::CHUNK_SIZE;
use crate::AppEvent;
use crate::AppState;
use crate::FileInfo;
use crate::LogMsg;

verus! {

/// The deadline, in seconds, for the receiver's accept/reject line.
pub const RESPONSE_TIMEOUT_SECS: u64 = 10;

/// How a send session ended.
#[derive(Clone, Copy, PartialEq, Eq, Structural, Debug)]
pub enum TxOutcome {
    /// Every announced byte was written to the socket.
    Completed,
    /// The receiver answered with the reject marker.
    Rejected,
    /// No response arrived within the deadline.
    TimedOut,
    /// The connection attempt failed.
    ConnectFailed,
    /// The user cancelled the session.
    Cancelled,
    /// A local read or a remote write failed mid-session.
    Failed,
}

/// Where the session stands.
pub enum TxPhase {
    /// The connection attempt is racing the cancellation handle.
    Connecting,
    /// Connected; the metadata and terminator lines are being written.
    SendingMeta,
    /// Awaiting the receiver's one-line response under the deadline.
    AwaitingResponse,
    /// Streaming payload bytes from the file to the socket.
    Streaming { size: u64, remaining: u64 },
    /// The session is over.
    Done { outcome: TxOutcome },
}

/// What the caller must do next.
pub enum TxAction {
    /// Attempt the TCP connection, racing the cancellation handle.
    Connect,
    /// Write `meta`, then the terminator marker, each on its own line.
    SendMetadata { meta: String },
    /// Await one response line for at most `timeout_secs` seconds.
    AwaitResponse { timeout_secs: u64 },
    /// Read at most `max` bytes from the file and write them to the socket.
    ReadAndSendChunk { max: u64 },
    /// The session is over; close whatever is open.
    Finish,
}

/// What the caller reports back.
pub enum TxEvent {
    Connected,
    ConnectError { reason: String },
    /// Metadata and terminator were written.
    MetaSent,
    /// A socket write failed.
    WriteFailed { reason: String },
    /// The receiver's one-line response, newline stripped.
    ResponseLine { line: String },
    /// The deadline elapsed without a response.
    ResponseTimeout,
    /// The stream broke while awaiting the response.
    ResponseReadFailed { reason: String },
    /// `count` bytes were read from the file and written to the socket.
    ChunkSent { count: u64 },
    /// The local file could not deliver any bytes.
    FileReadFailed { reason: String },
    /// The user cancelled the session.
    Cancelled,
}

/// One send session.
pub struct TxSession {
    /// The target address, as handed to the engine.
    pub addr: String,
    /// The metadata of the local file being offered.
    pub info: FileInfo,
    pub phase: TxPhase,
    /// The progress last reported (bytes done over the announced total).
    pub progress: Progress,
}

impl TxSession {
    /// The events the caller may feed the machine in its current phase.
    pub open spec fn event_ok(self, e: TxEvent) -> bool {
        match self.phase {
            TxPhase::Connecting => e is Connected || e matches TxEvent::ConnectError { .. } || e
                is Cancelled,
            TxPhase::SendingMeta => e is MetaSent || e matches TxEvent::WriteFailed { .. } || e
                is Cancelled,
            TxPhase::AwaitingResponse => e matches TxEvent::ResponseLine { .. } || e
                is ResponseTimeout || e matches TxEvent::ResponseReadFailed { .. } || e
                is Cancelled,
            TxPhase::Streaming { size, remaining } => match e {
                TxEvent::ChunkSent { count } => 0 < count <= chunk_cap(remaining),
                TxEvent::FileReadFailed { .. } => true,
                TxEvent::WriteFailed { .. } => true,
                TxEvent::Cancelled => true,
                _ => false,
            },
            TxPhase::Done { .. } => false,
        }
    }

    /// The session invariant: the streamed byte count never exceeds the
    /// announced size, and progress is exactly the bytes sent over the
    /// total, landing on one exactly at completion.
    pub open spec fn wf(self) -> bool {
        &&& self.info.path is Some
        &&& match self.phase {
            TxPhase::Streaming { size, remaining } => {
                &&& remaining <= size
                &&& self.info.size == size
                &&& self.progress == (Progress { done: (size - remaining) as u64, total: size })
            },
            TxPhase::Done { outcome } => outcome == TxOutcome::Completed ==> self.progress == (
            Progress { done: self.info.size, total: self.info.size }),
            _ => true,
        }
    }

    /// Opens a session toward `addr` offering the file described by `info`.
    /// The file must already be resolved to a local path.
    pub fn start(addr: String, info: FileInfo) -> (r: (TxSession, TxAction, Vec<AppEvent>))
        requires
            info.path is Some,
        ensures
            r.0.wf(),
            r.0.phase is Connecting,
            r.0.addr@ == addr@,
            r.0.info == info,
            r.1 is Connect,
            r.2@.len() == 2,
            r.2@[0] == AppEvent::AppState(AppState::Connecting),
            r.2@[1] == AppEvent::StatusMessage(LogMsg::Connecting),
    {
        let s = TxSession { addr, info, phase: TxPhase::Connecting, progress: Progress::start(0) };
        let events = vec![
            AppEvent::AppState(AppState::Connecting),
            AppEvent::StatusMessage(LogMsg::Connecting),
        ];
        (s, TxAction::Connect, events)
    }

    /// Feeds one event to the session and returns the next session state,
    /// the action the caller must perform, and the events to publish.
    ///
    /// The clauses spell out each transition: a connection moves to the
    /// handshake and hands the caller the exact encoded metadata line; the
    /// reject marker ends the session as rejected and anything else counts
    /// as acceptance; the response deadline ends it as timed out before any
    /// payload byte is requested, while a stream that breaks there ends it
    /// as failed; each sent chunk moves progress by exactly
    /// its byte count and never backward; completion requires every
    /// announced byte; every failure and cancellation returns to idle.
    pub fn step(self, e: TxEvent) -> (r: (TxSession, TxAction, Vec<AppEvent>))
        requires
            self.wf(),
            self.event_ok(e),
        ensures
            r.0.wf(),
            r.0.addr@ == self.addr@,
            r.0.info == self.info,
            (match (self.phase, e) {
                (TxPhase::Connecting, TxEvent::Connected) => {
                    &&& r.0.phase is SendingMeta
                    &&& (r.1 matches TxAction::SendMetadata { meta } && meta@
                        == encode_metadata_spec(self.info.name@, self.info.size))
                    &&& r.2@.len() == 1
                    &&& r.2@[0] == AppEvent::AppState(AppState::Handshake)
                },
                (TxPhase::Connecting, TxEvent::ConnectError { reason }) => {
                    &&& r.0.phase == (TxPhase::Done { outcome: TxOutcome::ConnectFailed })
                    &&& r.1 is Finish
                    &&& r.2@.len() == 3
                    &&& r.2@[0] == AppEvent::AppState(AppState::Idle)
                    &&& r.2@[1] == AppEvent::StatusMessage(LogMsg::ConnectFailed)
                    &&& (r.2@[2] matches AppEvent::Error(EelError::ConnectionError(m)) && m@
                        == reason@)
                },
                (TxPhase::Connecting, TxEvent::Cancelled) => {
                    &&& r.0.phase == (TxPhase::Done { outcome: TxOutcome::Cancelled })
                    &&& r.1 is Finish
                    &&& r.2@.len() == 2
                    &&& r.2@[0] == AppEvent::AppState(AppState::Idle)
                    &&& r.2@[1] == AppEvent::StatusMessage(LogMsg::ConnectAborted)
                },
                (TxPhase::SendingMeta, TxEvent::MetaSent) => {
                    &&& r.0.phase is AwaitingResponse
                    &&& r.1 == (TxAction::AwaitResponse { timeout_secs: RESPONSE_TIMEOUT_SECS })
                    &&& r.2@.len() == 0
                },
                (TxPhase::SendingMeta, TxEvent::WriteFailed { reason }) => {
                    &&& r.0.phase == (TxPhase::Done { outcome: TxOutcome::Failed })
                    &&& r.1 is Finish
                    &&& r.2@.len() == 3
                    &&& r.2@[0] == AppEvent::AppState(AppState::Idle)
                    &&& r.2@[1] == AppEvent::StatusMessage(LogMsg::RemoteClosed)
                    &&& (r.2@[2] matches AppEvent::Error(EelError::ConnectionError(m)) && m@
                        == reason@)
                },
                (TxPhase::SendingMeta, TxEvent::Cancelled) => {
                    &&& r.0.phase == (TxPhase::Done { outcome: TxOutcome::Cancelled })
                    &&& r.1 is Finish
                    &&& r.2@.len() == 2
                    &&& r.2@[0] == AppEvent::AppState(AppState::Idle)
                    &&& r.2@[1] == AppEvent::StatusMessage(LogMsg::UploadCancelled)
                },
                // the receiver's answer: exactly the reject marker refuses,
                // any other line is acceptance
                (TxPhase::AwaitingResponse, TxEvent::ResponseLine { line }) => {
                    if line@ == reject_spec() {
                        &&& r.0.phase == (TxPhase::Done { outcome: TxOutcome::Rejected })
                        &&& r.1 is Finish
                        &&& r.2@.len() == 3
                        &&& r.2@[0] == AppEvent::StatusMessage(LogMsg::ResponseReceived)
                        &&& r.2@[1] == AppEvent::StatusMessage(LogMsg::RemoteRejected)
                        &&& r.2@[2] == AppEvent::AppState(AppState::Idle)
                    } else if self.info.size == 0 {
                        // nothing to stream: an accepted empty file is done
                        &&& r.0.phase == (TxPhase::Done { outcome: TxOutcome::Completed })
                        &&& r.0.progress == (Progress { done: 0u64, total: 0u64 })
                        &&& r.1 is Finish
                        &&& r.2@.len() == 5
                        &&& r.2@[0] == AppEvent::StatusMessage(LogMsg::ResponseReceived)
                        &&& r.2@[1] == AppEvent::StatusMessage(LogMsg::RemoteAccepted)
                        &&& r.2@[2] == AppEvent::Progress(Progress { done: 0u64, total: 0u64 })
                        &&& r.2@[3] == AppEvent::StatusMessage(LogMsg::UploadComplete)
                        &&& r.2@[4] == AppEvent::AppState(AppState::Idle)
                    } else {
                        &&& r.0.phase == (TxPhase::Streaming {
                            size: self.info.size,
                            remaining: self.info.size,
                        })
                        &&& r.0.progress == (Progress { done: 0u64, total: self.info.size })
                        &&& r.1 == (TxAction::ReadAndSendChunk { max: chunk_cap(self.info.size) })
                        &&& r.2@.len() == 3
                        &&& r.2@[0] == AppEvent::StatusMessage(LogMsg::ResponseReceived)
                        &&& r.2@[1] == AppEvent::StatusMessage(LogMsg::RemoteAccepted)
                        &&& r.2@[2] == AppEvent::AppState(AppState::Sending)
                    }
                },
                // the only protocol timeout: no payload byte was requested
                (TxPhase::AwaitingResponse, TxEvent::ResponseTimeout) => {
                    &&& r.0.phase == (TxPhase::Done { outcome: TxOutcome::TimedOut })
                    &&& r.1 is Finish
                    &&& r.2@.len() == 2
                    &&& r.2@[0] == AppEvent::StatusMessage(LogMsg::ResponseTimeout)
                    &&& r.2@[1] == AppEvent::AppState(AppState::Idle)
                },
                // a broken stream is an I/O failure, not a timeout
                (TxPhase::AwaitingResponse, TxEvent::ResponseReadFailed { reason }) => {
                    &&& r.0.phase == (TxPhase::Done { outcome: TxOutcome::Failed })
                    &&& r.1 is Finish
                    &&& r.2@.len() == 3
                    &&& r.2@[0] == AppEvent::StatusMessage(LogMsg::RemoteClosed)
                    &&& (r.2@[1] matches AppEvent::Error(EelError::ConnectionError(m)) && m@
                        == reason@)
                    &&& r.2@[2] == AppEvent::AppState(AppState::Idle)
                },
                (TxPhase::AwaitingResponse, TxEvent::Cancelled) => {
                    &&& r.0.phase == (TxPhase::Done { outcome: TxOutcome::Cancelled })
                    &&& r.1 is Finish
                    &&& r.2@.len() == 2
                    &&& r.2@[0] == AppEvent::AppState(AppState::Idle)
                    &&& r.2@[1] == AppEvent::StatusMessage(LogMsg::UploadCancelled)
                },
                (TxPhase::Streaming { size, remaining }, TxEvent::ChunkSent { count }) => {
                    let left = (remaining - count) as u64;
                    &&& (if left == 0 {
                        &&& r.0.phase == (TxPhase::Done { outcome: TxOutcome::Completed })
                        &&& r.1 is Finish
                        &&& r.2@.len() == 3
                        &&& r.2@[0] == AppEvent::Progress(Progress { done: size, total: size })
                        &&& r.2@[1] == AppEvent::StatusMessage(LogMsg::UploadComplete)
                        &&& r.2@[2] == AppEvent::AppState(AppState::Idle)
                    } else {
                        &&& r.0.phase == (TxPhase::Streaming { size, remaining: left })
                        &&& r.1 == (TxAction::ReadAndSendChunk { max: chunk_cap(left) })
                        &&& r.2@.len() == 1
                        &&& r.2@[0] == AppEvent::Progress(
                            Progress { done: (size - left) as u64, total: size },
                        )
                    })
                    // progress moves forward by exactly the chunk's bytes,
                    // never backward, and lands on one exactly at completion
                    &&& self.progress.le(r.0.progress)
                    &&& r.0.progress.wf()
                    &&& r.0.progress == (Progress { done: (size - left) as u64, total: size })
                    &&& r.0.progress.done == self.progress.done + count
                    &&& (left == 0 <==> r.0.progress.is_complete_spec())
                },
                (TxPhase::Streaming { .. }, TxEvent::Cancelled) => {
                    &&& r.0.phase == (TxPhase::Done { outcome: TxOutcome::Cancelled })
                    &&& r.1 is Finish
                    &&& r.2@.len() == 2
                    &&& r.2@[0] == AppEvent::StatusMessage(LogMsg::UploadCancelled)
                    &&& r.2@[1] == AppEvent::AppState(AppState::Idle)
                },
                (TxPhase::Streaming { .. }, TxEvent::FileReadFailed { reason }) => {
                    &&& r.0.phase == (TxPhase::Done { outcome: TxOutcome::Failed })
                    &&& r.1 is Finish
                    &&& r.2@.len() == 3
                    &&& r.2@[0] == AppEvent::StatusMessage(LogMsg::FileReadFailed)
                    &&& (r.2@[1] matches AppEvent::Error(EelError::Io(m)) && m@ == reason@)
                    &&& r.2@[2] == AppEvent::AppState(AppState::Idle)
                },
                (TxPhase::Streaming { .. }, TxEvent::WriteFailed { reason }) => {
                    &&& r.0.phase == (TxPhase::Done { outcome: TxOutcome::Failed })
                    &&& r.1 is Finish
                    &&& r.2@.len() == 3
                    &&& r.2@[0] == AppEvent::StatusMessage(LogMsg::RemoteClosed)
                    &&& (r.2@[1] matches AppEvent::Error(EelError::ConnectionError(m)) && m@
                        == reason@)
                    &&& r.2@[2] == AppEvent::AppState(AppState::Idle)
                },
                _ => false,
            }),
    {
        match (self.phase, e) {
            (TxPhase::Connecting, TxEvent::Connected) => {
                let meta = encode_metadata(self.info.name.as_str(), self.info.size);
                let events = vec![AppEvent::AppState(AppState::Handshake)];
                let s = TxSession { phase: TxPhase::SendingMeta, ..self };
                (s, TxAction::SendMetadata { meta }, events)
            },
            (TxPhase::Connecting, TxEvent::ConnectError { reason }) => {
                let events = vec![
                    AppEvent::AppState(AppState::Idle),
                    AppEvent::StatusMessage(LogMsg::ConnectFailed),
                    AppEvent::Error(EelError::ConnectionError(reason)),
                ];
                let s = TxSession {
                    phase: TxPhase::Done { outcome: TxOutcome::ConnectFailed },
                    ..self
                };
                (s, TxAction::Finish, events)
            },
            (TxPhase::Connecting, TxEvent::Cancelled) => {
                let events = vec![
                    AppEvent::AppState(AppState::Idle),
                    AppEvent::StatusMessage(LogMsg::ConnectAborted),
                ];
                let s = TxSession {
                    phase: TxPhase::Done { outcome: TxOutcome::Cancelled },
                    ..self
                };
                (s, TxAction::Finish, events)
            },
            (TxPhase::SendingMeta, TxEvent::MetaSent) => {
                let s = TxSession { phase: TxPhase::AwaitingResponse, ..self };
                (
                    s,
                    TxAction::AwaitResponse { timeout_secs: RESPONSE_TIMEOUT_SECS },
                    Vec::new(),
                )
            },
            (TxPhase::SendingMeta, TxEvent::WriteFailed { reason }) => {
                let events = vec![
                    AppEvent::AppState(AppState::Idle),
                    AppEvent::StatusMessage(LogMsg::RemoteClosed),
                    AppEvent::Error(EelError::ConnectionError(reason)),
                ];
                let s = TxSession { phase: TxPhase::Done { outcome: TxOutcome::Failed }, ..self };
                (s, TxAction::Finish, events)
            },
            (TxPhase::SendingMeta, TxEvent::Cancelled) => {
                let events = vec![
                    AppEvent::AppState(AppState::Idle),
                    AppEvent::StatusMessage(LogMsg::UploadCancelled),
                ];
                let s = TxSession {
                    phase: TxPhase::Done { outcome: TxOutcome::Cancelled },
                    ..self
                };
                (s, TxAction::Finish, events)
            },
            (TxPhase::AwaitingResponse, TxEvent::ResponseLine { line }) => {
                if response_is_reject(line.as_str()) {
                    let events = vec![
                        AppEvent::StatusMessage(LogMsg::ResponseReceived),
                        AppEvent::StatusMessage(LogMsg::RemoteRejected),
                        AppEvent::AppState(AppState::Idle),
                    ];
                    let s = TxSession {
                        phase: TxPhase::Done { outcome: TxOutcome::Rejected },
                        ..self
                    };
                    (s, TxAction::Finish, events)
                } else if self.info.size == 0 {
                    let events = vec![
                        AppEvent::StatusMessage(LogMsg::ResponseReceived),
                        AppEvent::StatusMessage(LogMsg::RemoteAccepted),
                        AppEvent::Progress(Progress::new(0, 0)),
                        AppEvent::StatusMessage(LogMsg::UploadComplete),
                        AppEvent::AppState(AppState::Idle),
                    ];
                    let s = TxSession {
                        phase: TxPhase::Done { outcome: TxOutcome::Completed },
                        progress: Progress::new(0, 0),
                        ..self
                    };
                    (s, TxAction::Finish, events)
                } else {
                    let size = self.info.size;
                    let events = vec![
                        AppEvent::StatusMessage(LogMsg::ResponseReceived),
                        AppEvent::StatusMessage(LogMsg::RemoteAccepted),
                        AppEvent::AppState(AppState::Sending),
                    ];
                    let max = if size < CHUNK_SIZE {
                        size
                    } else {
                        CHUNK_SIZE
                    };
                    let s = TxSession {
                        phase: TxPhase::Streaming { size, remaining: size },
                        progress: Progress::new(0, size),
                        ..self
                    };
                    (s, TxAction::ReadAndSendChunk { max }, events)
                }
            },
            (TxPhase::AwaitingResponse, TxEvent::ResponseTimeout) => {
                let events = vec![
                    AppEvent::StatusMessage(LogMsg::ResponseTimeout),
                    AppEvent::AppState(AppState::Idle),
                ];
                let s = TxSession {
                    phase: TxPhase::Done { outcome: TxOutcome::TimedOut },
                    ..self
                };
                (s, TxAction::Finish, events)
            },
            (TxPhase::AwaitingResponse, TxEvent::ResponseReadFailed { reason }) => {
                let events = vec![
                    AppEvent::StatusMessage(LogMsg::RemoteClosed),
                    AppEvent::Error(EelError::ConnectionError(reason)),
                    AppEvent::AppState(AppState::Idle),
                ];
                let s = TxSession { phase: TxPhase::Done { outcome: TxOutcome::Failed }, ..self };
                (s, TxAction::Finish, events)
            },
            (TxPhase::AwaitingResponse, TxEvent::Cancelled) => {
                let events = vec![
                    AppEvent::AppState(AppState::Idle),
                    AppEvent::StatusMessage(LogMsg::UploadCancelled),
                ];
                let s = TxSession {
                    phase: TxPhase::Done { outcome: TxOutcome::Cancelled },
                    ..self
                };
                (s, TxAction::Finish, events)
            },
            (TxPhase::Streaming { size, remaining }, TxEvent::ChunkSent { count }) => {
                let left = remaining - count;
                let done = size - left;
                let p = Progress::new(done, size);
                if left == 0 {
                    let events = vec![
                        AppEvent::Progress(p),
                        AppEvent::StatusMessage(LogMsg::UploadComplete),
                        AppEvent::AppState(AppState::Idle),
                    ];
                    let s = TxSession {
                        phase: TxPhase::Done { outcome: TxOutcome::Completed },
                        progress: p,
                        ..self
                    };
                    (s, TxAction::Finish, events)
                } else {
                    let events = vec![AppEvent::Progress(p)];
                    let max = if left < CHUNK_SIZE {
                        left
                    } else {
                        CHUNK_SIZE
                    };
                    let s = TxSession {
                        phase: TxPhase::Streaming { size, remaining: left },
                        progress: p,
                        ..self
                    };
                    (s, TxAction::ReadAndSendChunk { max }, events)
                }
            },
            (TxPhase::Streaming { .. }, TxEvent::Cancelled) => {
                let events = vec![
                    AppEvent::StatusMessage(LogMsg::UploadCancelled),
                    AppEvent::AppState(AppState::Idle),
                ];
                let s = TxSession {
                    phase: TxPhase::Done { outcome: TxOutcome::Cancelled },
                    ..self
                };
                (s, TxAction::Finish, events)
            },
            (TxPhase::Streaming { .. }, TxEvent::FileReadFailed { reason }) => {
                let events = vec![
                    AppEvent::StatusMessage(LogMsg::FileReadFailed),
                    AppEvent::Error(EelError::Io(reason)),
                    AppEvent::AppState(AppState::Idle),
                ];
                let s = TxSession { phase: TxPhase::Done { outcome: TxOutcome::Failed }, ..self };
                (s, TxAction::Finish, events)
            },
            (TxPhase::Streaming { .. }, TxEvent::WriteFailed { reason }) => {
                let events = vec![
                    AppEvent::StatusMessage(LogMsg::RemoteClosed),
                    AppEvent::Error(EelError::ConnectionError(reason)),
                    AppEvent::AppState(AppState::Idle),
                ];
                let s = TxSession { phase: TxPhase::Done { outcome: TxOutcome::Failed }, ..self };
                (s, TxAction::Finish, events)
            },
            _ => {
                proof {
                    assert(false);
                }
                let s = TxSession { phase: TxPhase::Done { outcome: TxOutcome::Failed }, ..self };
                (s, TxAction::Finish, Vec::new())
            },
        }
    }
}

/// A completed send session reported exactly the announced byte count: its
/// final progress equals one.
pub proof fn lemma_completed_progress(s: TxSession)
    requires
        s.wf(),
        s.phase == (TxPhase::Done { outcome: TxOutcome::Completed }),
    ensures
        s.progress == (Progress { done: s.info.size, total: s.info.size }),
        s.progress.is_complete_spec(),
{
}

} // verus!
