//! Decisions of the process supervisor and the daemon's process-wide
//! state. Spawning, signalling and file removal are done by the caller.
use vstd::prelude::*;
use vstd::string::*;
use crate::lock::{pid_of, parse_pid};

verus! {

/// Why an engine operation was refused.
#[derive(Debug, Clone, Copy, PartialEq, Eq, Structural)]
pub enum SupervisorError {
    /// The engine is already running.
    AlreadyRunning,
    /// There is no engine to act on: no engine PID file.
    NotRunning,
    /// The engine PID file holds no process id.
    BadPidFile,
}

impl SupervisorError {
    /// A description of the error for people.
    pub fn message(&self) -> (r: String)
        ensures
            r@ == match *self {
                SupervisorError::AlreadyRunning => "Xray is already running"@,
                SupervisorError::NotRunning => "Xray daemon is not running"@,
                SupervisorError::BadPidFile => "Xray PID file holds no process id"@,
            },
    {
        match self {
            SupervisorError::AlreadyRunning => String::from_str("Xray is already running"),
            SupervisorError::NotRunning => String::from_str("Xray daemon is not running"),
            SupervisorError::BadPidFile => String::from_str("Xray PID file holds no process id"),
        }
    }
}

/// The engine's process id as its PID file records it (`None`: no file, or
/// text that records no process). The engine counts as running when this
/// is some id that the liveness probe finds alive.
pub fn recorded_engine_pid(file: &Option<String>) -> (r: Option<i32>)
    ensures
        r == match *file {
            Some(t) => pid_of(t@),
            None => None,
        },
{
    match file {
        Some(t) => parse_pid(t.as_str()),
        None => None,
    }
}

/// Whether the engine may be started: not while it runs.
pub fn start_allowed(engine_running: bool) -> (r: Result<(), SupervisorError>)
    ensures
        engine_running <==> r == Err::<(), SupervisorError>(SupervisorError::AlreadyRunning),
        !engine_running <==> r is Ok,
{
    if engine_running {
        Err(SupervisorError::AlreadyRunning)
    } else {
        Ok(())
    }
}

/// The process to send the termination signal to, from the engine PID
/// file's text: no file means nothing runs; text that records no process
/// is refused.
pub fn stop_target(file: &Option<String>) -> (r: Result<i32, SupervisorError>)
    ensures
        match *file {
            None => r == Err::<i32, SupervisorError>(SupervisorError::NotRunning),
            Some(t) => match pid_of(t@) {
                Some(p) => r == Ok::<i32, SupervisorError>(p),
                None => r == Err::<i32, SupervisorError>(SupervisorError::BadPidFile),
            },
        },
{
    match file {
        None => Err(SupervisorError::NotRunning),
        Some(t) => match parse_pid(t.as_str()) {
            Some(p) => Ok(p),
            None => Err(SupervisorError::BadPidFile),
        },
    }
}

/// A file that the daemon leaves behind while it runs.
#[derive(Debug, Clone, Copy, PartialEq, Eq, Structural)]
pub enum Artifact {
    /// The control channel's socket file.
    Socket,
    /// The engine's PID file.
    EnginePidFile,
    /// The singleton lock's PID file.
    LockFile,
}

/// The daemon's process-wide state.
#[derive(Debug, Clone, Copy, PartialEq, Eq, Structural)]
pub struct DaemonState {
    /// The process holding the singleton lock.
    pub lock_owner_pid: Option<u32>,
    /// The engine process, once it is known to be spawned.
    pub engine_pid: Option<u32>,
    /// Whether the control channel is bound.
    pub socket_bound: bool,
}

impl DaemonState {
    /// The state of a daemon that holds nothing.
    pub fn empty() -> (r: DaemonState)
        ensures
            r == DaemonState::empty_spec(),
    {
        DaemonState { lock_owner_pid: None, engine_pid: None, socket_bound: false }
    }

    /// The lock was taken by process `me`.
    pub fn lock_acquired(&mut self, me: u32)
        ensures
            *final(self) == (DaemonState { lock_owner_pid: Some(me), ..*old(self) }),
    {
        self.lock_owner_pid = Some(me);
    }

    /// The engine was spawned as process `pid`.
    pub fn engine_spawned(&mut self, pid: u32)
        ensures
            *final(self) == (DaemonState { engine_pid: Some(pid), ..*old(self) }),
    {
        self.engine_pid = Some(pid);
    }

    /// The engine process exited, by any cause; the daemon and its control
    /// channel stay up.
    pub fn engine_exited(&mut self)
        ensures
            *final(self) == (DaemonState { engine_pid: None, ..*old(self) }),
    {
        self.engine_pid = None;
    }

    /// The control channel was bound.
    pub fn socket_bound(&mut self)
        ensures
            *final(self) == (DaemonState { socket_bound: true, ..*old(self) }),
    {
        self.socket_bound = true;
    }

    /// Tears the daemon down: the state becomes empty and the socket file,
    /// the engine PID file and the lock file are to be removed, in that
    /// order, whatever the state held (a crash may have left any of them).
    pub fn shutdown(&mut self) -> (r: Vec<Artifact>)
        ensures
            *final(self) == DaemonState::empty_spec(),
            r@ == seq![Artifact::Socket, Artifact::EnginePidFile, Artifact::LockFile],
    {
        *self = DaemonState::empty();
        let mut out: Vec<Artifact> = Vec::new();
        out.push(Artifact::Socket);
        out.push(Artifact::EnginePidFile);
        out.push(Artifact::LockFile);
        out
    }

    /// The state that holds nothing.
    pub open spec fn empty_spec() -> DaemonState {
        DaemonState { lock_owner_pid: None, engine_pid: None, socket_bound: false }
    }
}

} // verus!
