//! Point-to-point file-transfer engine.
//!
//! One side listens for an inbound connection and receives a file, the other
//! side connects and sends one. The engine negotiates transfer metadata,
//! validates the destination's capacity, streams the payload with progress
//! reporting, and supports mid-transfer cancellation without leaving partial
//! files behind.
//!
//! The sessions are written as state machines: a caller performs the actual
//! socket and file operations, feeds the outcome of each operation back as an
//! event, and the machine decides every next step. All decisions — the wire
//! handshake, the capacity check, the progress arithmetic, the cleanup on
//! cancellation or error — are verified here.

use vstd::prelude::*;

pub mod capacity;
pub mod codec;
pub mod digits;
pub mod eel_error;
pub mod engine;
pub mod listener;
pub mod progress;
pub mod receive;
pub mod registry;
pub mod send;

use crate::progress::Progress;

verus! {

/// What the engine is doing right now. Exactly one value holds at any
/// instant; it is advisory telemetry, not a lock.
#[derive(Clone, Copy, PartialEq, Eq, Structural, Debug)]
pub enum AppState {
    Idle,
    Listening,
    Handshake,
    Accepting,
    Sending,
    Connecting,
}

impl AppState {
    /// The state's display name.
    pub open spec fn label_spec(self) -> Seq<char> {
        match self {
            AppState::Idle => "Idle"@,
            AppState::Listening => "Listening"@,
            AppState::Handshake => "Handshake"@,
            AppState::Accepting => "Accepting"@,
            AppState::Sending => "Sending"@,
            AppState::Connecting => "Connecting"@,
        }
    }

    /// Renders the state's display name.
    pub fn label(&self) -> (r: String)
        ensures
            r@ == self.label_spec(),
    {
        match self {
            AppState::Idle => "Idle".to_owned(),
            AppState::Listening => "Listening".to_owned(),
            AppState::Handshake => "Handshake".to_owned(),
            AppState::Accepting => "Accepting".to_owned(),
            AppState::Sending => "Sending".to_owned(),
            AppState::Connecting => "Connecting".to_owned(),
        }
    }
}

/// Transfer metadata. `size` is the authoritative byte count: the sender
/// vouches for it, the receiver trusts it for the capacity check and the
/// progress math. `path` is absent until the receive side resolves the
/// destination; `name` is the sender-supplied destination file name.
#[derive(Clone, Debug)]
pub struct FileInfo {
    pub path: Option<String>,
    pub size: u64,
    pub name: String,
    pub sender_addr: Option<String>,
}

/// One entry of the event stream the engine emits while a session runs.
pub enum AppEvent {
    AppState(AppState),
    FileInfo(FileInfo),
    Progress(Progress),
    StatusMessage(LogMsg),
    Error(crate::eel_error::EelError),
}

/// The fixed set of log messages a session can emit. Keeping them as a
/// closed enumeration (rather than free-form text) lets the contracts say
/// exactly which message accompanies which transition; the caller renders
/// them however it likes.
#[derive(Clone, PartialEq, Eq, Structural, Debug)]
pub enum LogMsg {
    BindFailed,
    ListeningOn { port: u16 },
    ListenerShutDown,
    ConnectionAccepted,
    RetrievingMetadata,
    MetadataReceived,
    MetadataMalformed,
    NotEnoughSpace,
    FileCreateFailed,
    TransferStarting,
    TransferComplete,
    DownloadCancelled,
    UnexpectedEof,
    ConnectionLost,
    CommunicationEnded,
    Connecting,
    ConnectAborted,
    ConnectFailed,
    ResponseReceived,
    ResponseTimeout,
    RemoteRejected,
    RemoteAccepted,
    UploadCancelled,
    UploadComplete,
    FileReadFailed,
    RemoteClosed,
}

pub struct Util {}

impl Util {
    /// Renders a byte count with binary units: plain bytes below 1 KiB,
    /// otherwise two (truncated) decimal places of the scaled value.
    pub fn display_size(size: u64) -> (r: String)
        ensures
            r@ == crate::digits::display_size_spec(size),
    {
        crate::digits::format_size(size)
    }
}

} // verus!
