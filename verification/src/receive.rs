//! The receive session: per-accepted-connection logic. The machine reads the
//! metadata, decides accept or reject against the destination's capacity,
//! and drives the byte copy with progress reporting, cancellation, and
//! cleanup. The caller owns the socket and the file: it performs each
//! returned action and feeds the outcome back as the next event.

use vstd::prelude::*;
use vstd::string::StrSliceExecFns;
use vstd::string::StringExecFns;

use crate::codec::encode_metadata_spec;
use crate::codec::is_terminator;
use crate::codec::parse_metadata;
use crate::codec::terminator_spec;
use crate::digits::push_char;
use crate::eel_error::EelError;
use crate::progress::Progress;
use crate::AppEvent;
use crate::AppState;
use crate::FileInfo;
use crate::LogMsg;

verus! {

/// Bytes asked of the socket in one read.
pub const CHUNK_SIZE: u64 = 65536;

/// What the machine may ask the socket to deliver next: one chunk, capped by
/// the read buffer and by the bytes still owed.
pub open spec fn chunk_cap(remaining: u64) -> u64 {
    if remaining < CHUNK_SIZE {
        remaining
    } else {
        CHUNK_SIZE
    }
}

/// Model of the destination file over one session.
#[derive(Clone, Copy, PartialEq, Eq, Structural, Debug)]
pub enum FileModel {
    /// The session's actions have created no file at the destination path
    /// (or have deleted the one they created).
    Absent,
    /// Created and open for appending, `len` bytes written so far.
    Open { len: u64 },
    /// Closed with `len` bytes; the transfer finished.
    Closed { len: u64 },
}

/// How a receive session ended.
#[derive(Clone, Copy, PartialEq, Eq, Structural, Debug)]
pub enum RxOutcome {
    /// All announced bytes arrived and the file is complete.
    Completed,
    /// The capacity check failed; the transfer was refused.
    Rejected,
    /// The metadata was malformed; the connection is dropped.
    ProtocolError,
    /// The user cancelled mid-session; the partial file was removed.
    Cancelled,
    /// The connection or the filesystem failed; any partial file was removed.
    Failed,
}

/// Where the session stands.
pub enum RxPhase {
    /// Accumulating metadata lines until the terminator.
    ReadingMeta { collected: String },
    /// Metadata parsed; awaiting the destination volume's free space.
    CheckingSpace { name: String, size: u64 },
    /// Capacity approved; awaiting the create-new result.
    CreatingFile { name: String, size: u64 },
    /// Streaming payload bytes into the file.
    Copying { size: u64, remaining: u64 },
    /// The session is over.
    Done { outcome: RxOutcome },
}

/// What the caller must do next.
pub enum RxAction {
    /// Await the next line from the socket (or EOF, or cancellation).
    ReadLine,
    /// Look up the free space of the volume holding the destination.
    QueryFreeSpace,
    /// Write the reject marker; the session is over.
    SendReject,
    /// Create the file at `path` in create-new mode.
    CreateFile { path: String },
    /// Write the accept marker, then read at most `max` payload bytes.
    SendAcceptAndRead { max: u64 },
    /// Write the accept marker and close the file: the payload is empty, so
    /// the transfer is already complete.
    SendAcceptAndClose,
    /// Read at most `max` more payload bytes and append them to the file.
    ReadChunk { max: u64 },
    /// Close the file handle; the transfer is complete.
    CloseFile,
    /// Close and delete the partial destination file.
    DeleteFile,
    /// Nothing to clean up; the session is over.
    Finish,
}

/// What the caller reports back.
pub enum RxEvent {
    /// One line arrived, newline stripped.
    LineRead { line: String },
    /// EOF or a read error while awaiting metadata.
    ReadFailed,
    /// The free space of the destination volume; `None` when the volume is
    /// not listed.
    FreeSpace { free: Option<u64> },
    /// The destination file was created.
    FileCreated,
    /// Create-new failed (exists already, or not writable).
    FileCreateFailed { reason: String },
    /// `count` bytes were read from the socket and appended to the file.
    ChunkWritten { count: u64 },
    /// The socket returned zero bytes before the payload was complete.
    ChunkEof,
    /// The user cancelled the session.
    Cancelled,
    /// A read or write failed mid-copy.
    IoError { reason: String },
}

/// One receive session and the model of its side effects.
pub struct RxSession {
    /// Destination directory, as handed to the listener.
    pub dir: String,
    /// The metadata, with `path` rewritten to the resolved destination;
    /// `None` until the metadata parses.
    pub info: Option<FileInfo>,
    pub phase: RxPhase,
    /// The destination file as the caller's obeyed actions have left it.
    pub file: FileModel,
    /// The progress last reported (bytes done over the announced total).
    pub progress: Progress,
}

/// The destination path: the receive directory, a separator, the
/// sender-supplied name.
pub open spec fn joined_path(dir: Seq<char>, name: Seq<char>) -> Seq<char> {
    dir + seq!['/'] + name
}

pub fn join_path(dir: &str, name: &str) -> (r: String)
    ensures
        r@ == joined_path(dir@, name@),
{
    let mut s = dir.to_owned();
    push_char(&mut s, '/');
    s.append(name);
    proof {
        assert(s@ =~= joined_path(dir@, name@));
    }
    s
}

impl RxSession {
    /// The events the caller may feed the machine in its current phase: the
    /// possible outcomes of the action it was handed.
    pub open spec fn event_ok(self, e: RxEvent) -> bool {
        match self.phase {
            RxPhase::ReadingMeta { .. } => e matches RxEvent::LineRead { .. } || e
                is ReadFailed || e is Cancelled,
            RxPhase::CheckingSpace { .. } => e matches RxEvent::FreeSpace { .. },
            RxPhase::CreatingFile { .. } => e is FileCreated || e matches RxEvent::FileCreateFailed {
                ..
            },
            RxPhase::Copying { size, remaining } => match e {
                RxEvent::ChunkWritten { count } => 0 < count <= chunk_cap(remaining),
                RxEvent::ChunkEof => true,
                RxEvent::Cancelled => true,
                RxEvent::IoError { .. } => true,
                _ => false,
            },
            RxPhase::Done { .. } => false,
        }
    }

    /// The session invariant. It carries the testable guarantees: a
    /// completed session closed the file at exactly the announced size; a
    /// rejected, failed or cancelled session leaves no file behind; during
    /// the copy, progress is exactly the bytes written over the total.
    pub open spec fn wf(self) -> bool {
        match self.phase {
            RxPhase::ReadingMeta { .. } => self.file is Absent && self.info is None,
            RxPhase::CheckingSpace { name, size } => self.file is Absent && match self.info {
                Some(fi) => fi.size == size && fi.name@ == name@ && match fi.path {
                    Some(p) => p@ == joined_path(self.dir@, name@),
                    None => false,
                },
                None => false,
            },
            RxPhase::CreatingFile { name, size } => self.file is Absent && match self.info {
                Some(fi) => fi.size == size && fi.name@ == name@ && match fi.path {
                    Some(p) => p@ == joined_path(self.dir@, name@),
                    None => false,
                },
                None => false,
            },
            RxPhase::Copying { size, remaining } => {
                &&& remaining <= size
                &&& self.file == (FileModel::Open { len: (size - remaining) as u64 })
                &&& match self.info {
                    Some(fi) => fi.size == size,
                    None => false,
                }
                &&& self.progress == (Progress { done: (size - remaining) as u64, total: size })
            },
            RxPhase::Done { outcome } => match outcome {
                RxOutcome::Completed => match self.info {
                    Some(fi) => self.file == (FileModel::Closed { len: fi.size })
                        && self.progress == (Progress { done: fi.size, total: fi.size }),
                    None => false,
                },
                RxOutcome::Rejected => self.file is Absent,
                RxOutcome::ProtocolError => self.file is Absent,
                RxOutcome::Cancelled => self.file is Absent,
                RxOutcome::Failed => self.file is Absent,
            },
        }
    }

    /// Opens a session for one accepted connection.
    pub fn start(dir: String) -> (r: (RxSession, RxAction, Vec<AppEvent>))
        ensures
            r.0.wf(),
            r.0.dir@ == dir@,
            r.0.phase matches RxPhase::ReadingMeta { collected } && collected@ == Seq::<
                char,
            >::empty(),
            r.0.file is Absent,
            r.1 is ReadLine,
            r.2@.len() == 1,
            r.2@[0] == AppEvent::StatusMessage(LogMsg::RetrievingMetadata),
    {
        let s = RxSession {
            dir,
            info: None,
            phase: RxPhase::ReadingMeta { collected: String::new() },
            file: FileModel::Absent,
            progress: Progress::start(0),
        };
        let events = vec![AppEvent::StatusMessage(LogMsg::RetrievingMetadata)];
        (s, RxAction::ReadLine, events)
    }

    /// Feeds one event to the session and returns the next session state,
    /// the action the caller must perform, and the events to publish.
    ///
    /// The clauses spell out each transition: metadata lines accumulate
    /// until the terminator; the parsed record is announced before the path
    /// is rewritten; free space `<=` size is rejected with no file created,
    /// free space `> size` proceeds to create-new; each written chunk moves
    /// progress by exactly its byte count and never backward; completion
    /// closes the file at the announced size; cancellation and failure
    /// during the copy delete the partial file.
    pub fn step(self, e: RxEvent) -> (r: (RxSession, RxAction, Vec<AppEvent>))
        requires
            self.wf(),
            self.event_ok(e),
        ensures
            r.0.wf(),
            r.0.dir@ == self.dir@,
            // metadata accumulation
            (match (self.phase, e) {
                (RxPhase::ReadingMeta { collected }, RxEvent::LineRead { line }) => {
                    if line@ != terminator_spec() {
                        &&& r.0.phase matches RxPhase::ReadingMeta { collected: c } && c@
                            == collected@ + line@
                        &&& r.1 is ReadLine
                        &&& r.2@.len() == 0
                        &&& r.0.file is Absent
                    } else {
                        match r.0.phase {
                            // the collected record parsed: announce it, resolve
                            // the path, and go check capacity
                            RxPhase::CheckingSpace { name, size } => {
                                &&& collected@ == encode_metadata_spec(name@, size)
                                &&& r.1 is QueryFreeSpace
                                &&& r.2@.len() == 2
                                &&& r.2@[0] == AppEvent::StatusMessage(LogMsg::MetadataReceived)
                                &&& (r.2@[1] matches AppEvent::FileInfo(fi) && fi.name@ == name@
                                    && fi.size == size && fi.path is None)
                                &&& r.0.file is Absent
                            },
                            // malformed metadata: drop the connection
                            RxPhase::Done { outcome } => {
                                &&& outcome == RxOutcome::ProtocolError
                                &&& (forall|nm: Seq<char>, sz: u64|
                                    collected@ != encode_metadata_spec(nm, sz))
                                &&& r.1 is Finish
                                &&& r.2@.len() == 1
                                &&& r.2@[0] == AppEvent::StatusMessage(LogMsg::MetadataMalformed)
                                &&& r.0.file is Absent
                            },
                            _ => false,
                        }
                    }
                },
                (RxPhase::ReadingMeta { .. }, RxEvent::ReadFailed) => {
                    &&& r.0.phase == (RxPhase::Done { outcome: RxOutcome::Failed })
                    &&& r.1 is Finish
                    &&& r.2@.len() == 1
                    &&& r.2@[0] == AppEvent::StatusMessage(LogMsg::ConnectionLost)
                },
                (RxPhase::ReadingMeta { .. }, RxEvent::Cancelled) => {
                    &&& r.0.phase == (RxPhase::Done { outcome: RxOutcome::Cancelled })
                    &&& r.1 is Finish
                    &&& r.2@.len() == 2
                    &&& r.2@[0] == AppEvent::AppState(AppState::Idle)
                    &&& r.2@[1] == AppEvent::StatusMessage(LogMsg::DownloadCancelled)
                },
                // the capacity decision: strictly more free space than the
                // announced size is required
                (RxPhase::CheckingSpace { name, size }, RxEvent::FreeSpace { free }) => {
                    let enough = match free {
                        Some(f) => f > size,
                        None => false,
                    };
                    if enough {
                        &&& r.0.phase matches RxPhase::CreatingFile { name: n2, size: s2 } && n2@
                            == name@ && s2 == size
                        &&& (r.1 matches RxAction::CreateFile { path } && path@ == joined_path(
                            self.dir@,
                            name@,
                        ))
                        &&& r.2@.len() == 0
                        &&& r.0.file is Absent
                    } else {
                        &&& r.0.phase == (RxPhase::Done { outcome: RxOutcome::Rejected })
                        &&& r.1 is SendReject
                        &&& r.2@.len() == 2
                        &&& r.2@[0] == AppEvent::StatusMessage(LogMsg::NotEnoughSpace)
                        &&& (r.2@[1] matches AppEvent::Error(EelError::FreeSpace(m)) && m@ == name@)
                        &&& r.0.file is Absent
                    }
                },
                (RxPhase::CreatingFile { name, size }, RxEvent::FileCreated) => {
                    if size == 0 {
                        // nothing to stream, but the peer is still owed the
                        // accept marker: the empty file is complete
                        &&& r.0.phase == (RxPhase::Done { outcome: RxOutcome::Completed })
                        &&& r.0.file == (FileModel::Closed { len: 0u64 })
                        &&& r.1 is SendAcceptAndClose
                        &&& r.2@.len() == 4
                        &&& r.2@[0] == AppEvent::AppState(AppState::Accepting)
                        &&& r.2@[1] == AppEvent::StatusMessage(LogMsg::TransferStarting)
                        &&& r.2@[2] == AppEvent::Progress(Progress { done: 0u64, total: 0u64 })
                        &&& r.2@[3] == AppEvent::StatusMessage(LogMsg::TransferComplete)
                    } else {
                        &&& r.0.phase == (RxPhase::Copying { size, remaining: size })
                        &&& r.0.file == (FileModel::Open { len: 0u64 })
                        &&& r.0.progress == (Progress { done: 0u64, total: size })
                        &&& r.1 == (RxAction::SendAcceptAndRead { max: chunk_cap(size) })
                        &&& r.2@.len() == 2
                        &&& r.2@[0] == AppEvent::AppState(AppState::Accepting)
                        &&& r.2@[1] == AppEvent::StatusMessage(LogMsg::TransferStarting)
                    }
                },
                (RxPhase::CreatingFile { .. }, RxEvent::FileCreateFailed { reason }) => {
                    &&& r.0.phase == (RxPhase::Done { outcome: RxOutcome::Failed })
                    &&& r.1 is Finish
                    &&& r.2@.len() == 2
                    &&& r.2@[0] == AppEvent::StatusMessage(LogMsg::FileCreateFailed)
                    &&& (r.2@[1] matches AppEvent::Error(EelError::Io(m)) && m@ == reason@)
                },
                (RxPhase::Copying { size, remaining }, RxEvent::ChunkWritten { count }) => {
                    let left = (remaining - count) as u64;
                    &&& (if left == 0 {
                        &&& r.0.phase == (RxPhase::Done { outcome: RxOutcome::Completed })
                        &&& r.0.file == (FileModel::Closed { len: size })
                        &&& r.1 is CloseFile
                        &&& r.2@.len() == 2
                        &&& r.2@[0] == AppEvent::Progress(Progress { done: size, total: size })
                        &&& r.2@[1] == AppEvent::StatusMessage(LogMsg::TransferComplete)
                    } else {
                        &&& r.0.phase == (RxPhase::Copying { size, remaining: left })
                        &&& r.0.file == (FileModel::Open { len: (size - left) as u64 })
                        &&& r.1 == (RxAction::ReadChunk { max: chunk_cap(left) })
                        &&& r.2@.len() == 1
                        &&& r.2@[0] == AppEvent::Progress(
                            Progress { done: (size - left) as u64, total: size },
                        )
                    })
                    // progress moves forward by exactly the chunk's bytes,
                    // never backward, and lands on one exactly at completion
                    &&& self.progress.le(r.0.progress)
                    &&& r.0.progress.wf()
                    &&& r.0.progress == (Progress { done: (size - left) as u64, total: size })
                    &&& r.0.progress.done == self.progress.done + count
                    &&& (left == 0 <==> r.0.progress.is_complete_spec())
                },
                (RxPhase::Copying { .. }, RxEvent::Cancelled) => {
                    &&& r.0.phase == (RxPhase::Done { outcome: RxOutcome::Cancelled })
                    &&& r.0.file is Absent
                    &&& r.1 is DeleteFile
                    &&& r.2@.len() == 2
                    &&& r.2@[0] == AppEvent::AppState(AppState::Idle)
                    &&& r.2@[1] == AppEvent::StatusMessage(LogMsg::DownloadCancelled)
                },
                (RxPhase::Copying { .. }, RxEvent::ChunkEof) => {
                    &&& r.0.phase == (RxPhase::Done { outcome: RxOutcome::Failed })
                    &&& r.0.file is Absent
                    &&& r.1 is DeleteFile
                    &&& r.2@.len() == 1
                    &&& r.2@[0] == AppEvent::StatusMessage(LogMsg::UnexpectedEof)
                },
                (RxPhase::Copying { .. }, RxEvent::IoError { reason }) => {
                    &&& r.0.phase == (RxPhase::Done { outcome: RxOutcome::Failed })
                    &&& r.0.file is Absent
                    &&& r.1 is DeleteFile
                    &&& r.2@.len() == 2
                    &&& r.2@[0] == AppEvent::StatusMessage(LogMsg::ConnectionLost)
                    &&& (r.2@[1] matches AppEvent::Error(EelError::Io(m)) && m@ == reason@)
                },
                _ => false,
            }),
    {
        match (self.phase, e) {
            (RxPhase::ReadingMeta { collected }, RxEvent::LineRead { line }) => {
                if !is_terminator(line.as_str()) {
                    let joined = collected.concat(line.as_str());
                    let s = RxSession {
                        phase: RxPhase::ReadingMeta { collected: joined },
                        ..self
                    };
                    (s, RxAction::ReadLine, Vec::new())
                } else {
                    match parse_metadata(collected.as_str()) {
                        Some((name, size)) => {
                            let path = join_path(self.dir.as_str(), name.as_str());
                            let announced = FileInfo {
                                path: None,
                                size,
                                name: name.clone(),
                                sender_addr: None,
                            };
                            let info = FileInfo {
                                path: Some(path),
                                size,
                                name: name.clone(),
                                sender_addr: None,
                            };
                            let events = vec![
                                AppEvent::StatusMessage(LogMsg::MetadataReceived),
                                AppEvent::FileInfo(announced),
                            ];
                            let s = RxSession {
                                info: Some(info),
                                phase: RxPhase::CheckingSpace { name, size },
                                ..self
                            };
                            (s, RxAction::QueryFreeSpace, events)
                        },
                        None => {
                            let s = RxSession {
                                phase: RxPhase::Done { outcome: RxOutcome::ProtocolError },
                                ..self
                            };
                            let events = vec![AppEvent::StatusMessage(LogMsg::MetadataMalformed)];
                            (s, RxAction::Finish, events)
                        },
                    }
                }
            },
            (RxPhase::ReadingMeta { .. }, RxEvent::ReadFailed) => {
                let s = RxSession { phase: RxPhase::Done { outcome: RxOutcome::Failed }, ..self };
                let events = vec![AppEvent::StatusMessage(LogMsg::ConnectionLost)];
                (s, RxAction::Finish, events)
            },
            (RxPhase::ReadingMeta { .. }, RxEvent::Cancelled) => {
                let s = RxSession {
                    phase: RxPhase::Done { outcome: RxOutcome::Cancelled },
                    ..self
                };
                let events = vec![
                    AppEvent::AppState(AppState::Idle),
                    AppEvent::StatusMessage(LogMsg::DownloadCancelled),
                ];
                (s, RxAction::Finish, events)
            },
            (RxPhase::CheckingSpace { name, size }, RxEvent::FreeSpace { free }) => {
                let enough = match free {
                    Some(f) => f > size,
                    None => false,
                };
                if enough {
                    let path = join_path(self.dir.as_str(), name.as_str());
                    let s = RxSession {
                        phase: RxPhase::CreatingFile { name, size },
                        ..self
                    };
                    (s, RxAction::CreateFile { path }, Vec::new())
                } else {
                    let events = vec![
                        AppEvent::StatusMessage(LogMsg::NotEnoughSpace),
                        AppEvent::Error(EelError::FreeSpace(name)),
                    ];
                    let s = RxSession {
                        phase: RxPhase::Done { outcome: RxOutcome::Rejected },
                        ..self
                    };
                    (s, RxAction::SendReject, events)
                }
            },
            (RxPhase::CreatingFile { name: _, size }, RxEvent::FileCreated) => {
                if size == 0 {
                    let events = vec![
                        AppEvent::AppState(AppState::Accepting),
                        AppEvent::StatusMessage(LogMsg::TransferStarting),
                        AppEvent::Progress(Progress::new(0, 0)),
                        AppEvent::StatusMessage(LogMsg::TransferComplete),
                    ];
                    let s = RxSession {
                        phase: RxPhase::Done { outcome: RxOutcome::Completed },
                        file: FileModel::Closed { len: 0 },
                        progress: Progress::new(0, 0),
                        ..self
                    };
                    (s, RxAction::SendAcceptAndClose, events)
                } else {
                    let events = vec![
                        AppEvent::AppState(AppState::Accepting),
                        AppEvent::StatusMessage(LogMsg::TransferStarting),
                    ];
                    let max = if size < CHUNK_SIZE {
                        size
                    } else {
                        CHUNK_SIZE
                    };
                    let s = RxSession {
                        phase: RxPhase::Copying { size, remaining: size },
                        file: FileModel::Open { len: 0 },
                        progress: Progress::new(0, size),
                        ..self
                    };
                    (s, RxAction::SendAcceptAndRead { max }, events)
                }
            },
            (RxPhase::CreatingFile { .. }, RxEvent::FileCreateFailed { reason }) => {
                let events = vec![
                    AppEvent::StatusMessage(LogMsg::FileCreateFailed),
                    AppEvent::Error(EelError::Io(reason)),
                ];
                let s = RxSession { phase: RxPhase::Done { outcome: RxOutcome::Failed }, ..self };
                (s, RxAction::Finish, events)
            },
            (RxPhase::Copying { size, remaining }, RxEvent::ChunkWritten { count }) => {
                let left = remaining - count;
                let done = size - left;
                let p = Progress::new(done, size);
                if left == 0 {
                    let events = vec![
                        AppEvent::Progress(p),
                        AppEvent::StatusMessage(LogMsg::TransferComplete),
                    ];
                    let s = RxSession {
                        phase: RxPhase::Done { outcome: RxOutcome::Completed },
                        file: FileModel::Closed { len: size },
                        progress: p,
                        ..self
                    };
                    (s, RxAction::CloseFile, events)
                } else {
                    let events = vec![AppEvent::Progress(p)];
                    let max = if left < CHUNK_SIZE {
                        left
                    } else {
                        CHUNK_SIZE
                    };
                    let s = RxSession {
                        phase: RxPhase::Copying { size, remaining: left },
                        file: FileModel::Open { len: done },
                        progress: p,
                        ..self
                    };
                    (s, RxAction::ReadChunk { max }, events)
                }
            },
            (RxPhase::Copying { .. }, RxEvent::Cancelled) => {
                let events = vec![
                    AppEvent::AppState(AppState::Idle),
                    AppEvent::StatusMessage(LogMsg::DownloadCancelled),
                ];
                let s = RxSession {
                    phase: RxPhase::Done { outcome: RxOutcome::Cancelled },
                    file: FileModel::Absent,
                    ..self
                };
                (s, RxAction::DeleteFile, events)
            },
            (RxPhase::Copying { .. }, RxEvent::ChunkEof) => {
                let events = vec![AppEvent::StatusMessage(LogMsg::UnexpectedEof)];
                let s = RxSession {
                    phase: RxPhase::Done { outcome: RxOutcome::Failed },
                    file: FileModel::Absent,
                    ..self
                };
                (s, RxAction::DeleteFile, events)
            },
            (RxPhase::Copying { .. }, RxEvent::IoError { reason }) => {
                let events = vec![
                    AppEvent::StatusMessage(LogMsg::ConnectionLost),
                    AppEvent::Error(EelError::Io(reason)),
                ];
                let s = RxSession {
                    phase: RxPhase::Done { outcome: RxOutcome::Failed },
                    file: FileModel::Absent,
                    ..self
                };
                (s, RxAction::DeleteFile, events)
            },
            _ => {
                proof {
                    assert(false);
                }
                let s = RxSession { phase: RxPhase::Done { outcome: RxOutcome::Failed }, ..self };
                (s, RxAction::Finish, Vec::new())
            },
        }
    }
}

/// A finished, successful receive session holds a destination file whose
/// byte length equals the announced size exactly.
pub proof fn lemma_completed_file_size(s: RxSession)
    requires
        s.wf(),
        s.phase == (RxPhase::Done { outcome: RxOutcome::Completed }),
    ensures
        s.info matches Some(fi) && s.file == (FileModel::Closed { len: fi.size }),
{
}

/// After a cancellation (or any mid-copy failure, or a rejection) the
/// destination file does not exist: no partial file is left behind.
pub proof fn lemma_no_partial_file(s: RxSession)
    requires
        s.wf(),
        s.phase matches RxPhase::Done { outcome } && outcome != RxOutcome::Completed,
    ensures
        s.file is Absent,
{
}

} // verus!
