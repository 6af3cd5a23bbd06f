//! The transfer engine facade: routes a command to the listener loop or to
//! a send session, installing the cancellation handles in the registry
//! *before* the task starts, so aborting is race-free with respect to the
//! spawn. `abort_task` cancels only the in-flight session; `abort_server`
//! cancels the server and whatever session it is running.

use vstd::prelude::*;

use crate::listener::LAction;
use crate::listener::Listener;
use crate::registry::CancelRegistry;
use crate::send::TxAction;
use crate::send::TxSession;
use crate::AppEvent;
use crate::FileInfo;

verus! {

/// A command for the engine, as issued by the caller.
pub enum NetCommand {
    /// Connect to `addr` and offer the file described by `info`.
    Send { addr: String, info: FileInfo },
    /// Listen on `port` and deliver incoming files into `dir`.
    Receive { dir: String, port: u16 },
}

/// What `start` hands back: the machine to drive, its first action, the
/// events to publish, and the numbers of the freshly installed cancellation
/// handles.
pub enum StartedTask {
    Listen {
        listener: Listener,
        action: LAction,
        server_handle: u64,
        task_handle: u64,
    },
    Transmit { session: TxSession, action: TxAction, events: Vec<AppEvent>, task_handle: u64 },
}

pub struct Engine {
    pub registry: CancelRegistry,
}

impl Engine {
    pub fn new() -> (r: Engine)
        ensures
            r.registry.wf(),
            r.registry.next_id == 0,
            r.registry.task is None,
            r.registry.server is None,
    {
        Engine { registry: CancelRegistry::new() }
    }

    /// Routes one command. For `Receive`, a server handle and a task handle
    /// are installed (both fresh and distinct) and the listener starts
    /// binding; for `Send`, a task handle is installed and the session
    /// starts connecting. In both cases the registry holds the new handles
    /// before the machine is handed out, and every new handle number is at
    /// least the old counter — so it differs from every handle any earlier
    /// command installed, and aborting can never act on a stale session.
    pub fn start(&mut self, cmd: NetCommand) -> (r: StartedTask)
        requires
            old(self).registry.wf(),
            old(self).registry.next_id + 2 <= u64::MAX,
            cmd matches NetCommand::Send { info, .. } ==> info.path is Some,
        ensures
            final(self).registry.wf(),
            (match cmd {
                NetCommand::Receive { dir, port } => {
                    r matches StartedTask::Listen { listener, action, server_handle, task_handle }
                        && listener.phase is Binding
                        && listener.dir@ == dir@
                        && listener.port == port
                        && action is Bind
                        && server_handle == old(self).registry.next_id
                        && task_handle == old(self).registry.next_id + 1
                        && final(self).registry.next_id == old(self).registry.next_id + 2
                        && final(self).registry.server == Some(server_handle)
                        && final(self).registry.task == Some(task_handle)
                },
                NetCommand::Send { addr, info } => {
                    r matches StartedTask::Transmit { session, action, events, task_handle }
                        && session.phase is Connecting
                        && session.addr@ == addr@
                        && session.info == info
                        && session.wf()
                        && action is Connect
                        && task_handle == old(self).registry.next_id
                        && final(self).registry.next_id == old(self).registry.next_id + 1
                        && final(self).registry.task == Some(task_handle)
                        && final(self).registry.server == old(self).registry.server
                },
            }),
    {
        match cmd {
            NetCommand::Receive { dir, port } => {
                let (server_handle, _) = self.registry.install_server();
                let (task_handle, _) = self.registry.install_task();
                let (listener, action) = Listener::start(dir, port);
                StartedTask::Listen { listener, action, server_handle, task_handle }
            },
            NetCommand::Send { addr, info } => {
                let (task_handle, _) = self.registry.install_task();
                let (session, action, events) = TxSession::start(addr, info);
                StartedTask::Transmit { session, action, events, task_handle }
            },
        }
    }

    /// Arms a fresh task handle for the next session (the listener's
    /// `RearmAndAccept`), returning the new handle and the retired one.
    pub fn rearm_task(&mut self) -> (r: (u64, Option<u64>))
        requires
            old(self).registry.wf(),
            old(self).registry.next_id < u64::MAX,
        ensures
            final(self).registry.wf(),
            r.0 == old(self).registry.next_id,
            r.1 == old(self).registry.task,
            final(self).registry.task == Some(r.0),
            final(self).registry.server == old(self).registry.server,
            final(self).registry.next_id == old(self).registry.next_id + 1,
    {
        self.registry.install_task()
    }

    /// Takes the current task handle out of the registry so the caller can
    /// cancel it. Empty slot: nothing to cancel, a safe no-op.
    pub fn abort_task(&mut self) -> (r: Option<u64>)
        requires
            old(self).registry.wf(),
        ensures
            final(self).registry.wf(),
            r == old(self).registry.task,
            final(self).registry.task is None,
            final(self).registry.server == old(self).registry.server,
    {
        self.registry.take_task()
    }

    /// Takes both handles out of the registry so the caller can cancel the
    /// accept loop and whatever session it is running. Empty slots are safe
    /// no-ops.
    pub fn abort_server(&mut self) -> (r: (Option<u64>, Option<u64>))
        requires
            old(self).registry.wf(),
        ensures
            final(self).registry.wf(),
            r.0 == old(self).registry.server,
            r.1 == old(self).registry.task,
            final(self).registry.server is None,
            final(self).registry.task is None,
    {
        let server = self.registry.take_server();
        let task = self.registry.take_task();
        (server, task)
    }
}

} // verus!
