//! The supervisor's record of its worker.
//!
//! One `SupervisorState` exists per process. It is shared behind a lock by
//! the launcher, the exit watcher and the shutdown coordinator; every change
//! goes through one of the methods below, each of which is a single step.

use vstd::prelude::*;

verus! {

/// How far shutdown has come.
#[derive(Clone, Copy, Debug, PartialEq, Eq, Structural)]
pub enum ShutdownPhase {
    /// No shutdown was requested yet.
    Idle,
    /// One trigger has claimed the shutdown and is running it.
    ShuttingDown,
    /// The shutdown has run to its end.
    Done,
}

/// What the supervisor knows of its worker. `H` is the owned handle of the
/// spawned process: an opaque capability to terminate exactly that process.
pub struct SupervisorState<H> {
    started: bool,
    backend_port: u16,
    worker_pid: u32,
    shutdown: ShutdownPhase,
    worker_handle: Option<H>,
}

/// The mathematical content of a [`SupervisorState`].
pub struct SupervisorView<H> {
    /// The worker was launched and has not been seen to exit.
    pub started: bool,
    /// The port chosen for the worker; 0 before one was chosen.
    pub backend_port: u16,
    /// The process id of the worker; 0 when there is none.
    pub worker_pid: u32,
    /// The re-entrancy guard of shutdown.
    pub shutdown: ShutdownPhase,
    /// The owned handle of the worker, while the supervisor holds one.
    pub worker_handle: Option<H>,
}

/// What a launch request finds.
#[derive(Clone, Copy, Debug, PartialEq, Eq, Structural)]
pub enum LaunchGuard {
    /// The worker already runs: nothing is spawned, and the caller gets the
    /// recorded process id and port.
    AlreadyStarted { pid: u32, port: u16 },
    /// No worker runs: the launch goes ahead.
    Proceed,
}

impl<H> SupervisorView<H> {
    /// The state at process start.
    pub open spec fn initial() -> Self {
        SupervisorView {
            started: false,
            backend_port: 0,
            worker_pid: 0,
            shutdown: ShutdownPhase::Idle,
            worker_handle: None,
        }
    }

    /// No worker is recorded in any field.
    pub open spec fn is_clean(self) -> bool {
        !self.started && self.worker_pid == 0 && self.worker_handle is None
    }

    /// The answer to a launch request in this state.
    pub open spec fn launch_guard(self) -> LaunchGuard {
        if self.started {
            LaunchGuard::AlreadyStarted { pid: self.worker_pid, port: self.backend_port }
        } else {
            LaunchGuard::Proceed
        }
    }

    /// The state after a worker was spawned with process id `pid`.
    /// A handle that came with it replaces the one held.
    pub open spec fn spawned(self, pid: u32, handle: Option<H>) -> Self {
        SupervisorView {
            started: true,
            worker_pid: pid,
            worker_handle: if handle is Some {
                handle
            } else {
                self.worker_handle
            },
            ..self
        }
    }

    /// The state after the worker was seen to exit by itself.
    pub open spec fn exited(self) -> Self {
        SupervisorView { started: false, worker_pid: 0, ..self }
    }

    /// A trigger that arrives in this state has to run the shutdown.
    pub open spec fn claims_shutdown(self) -> bool {
        self.shutdown == ShutdownPhase::Idle
    }

    /// The state after a shutdown trigger arrived.
    pub open spec fn triggered(self) -> Self {
        if self.claims_shutdown() {
            SupervisorView { shutdown: ShutdownPhase::ShuttingDown, ..self }
        } else {
            self
        }
    }

    /// The state after the shutdown procedure has ended.
    pub open spec fn stopped(self) -> Self {
        SupervisorView {
            started: false,
            worker_pid: 0,
            worker_handle: None,
            shutdown: if self.shutdown == ShutdownPhase::ShuttingDown {
                ShutdownPhase::Done
            } else {
                self.shutdown
            },
            ..self
        }
    }

    /// The number of triggers, out of `n` that arrive one after another
    /// starting in this state, that have to run the shutdown.
    pub open spec fn claims_among(self, n: nat) -> nat
        decreases n,
    {
        if n == 0 {
            0
        } else {
            let first: nat = if self.claims_shutdown() {
                1
            } else {
                0
            };
            first + self.triggered().claims_among((n - 1) as nat)
        }
    }
}

impl<H> View for SupervisorState<H> {
    type V = SupervisorView<H>;

    closed spec fn view(&self) -> SupervisorView<H> {
        SupervisorView {
            started: self.started,
            backend_port: self.backend_port,
            worker_pid: self.worker_pid,
            shutdown: self.shutdown,
            worker_handle: self.worker_handle,
        }
    }
}

impl<H> SupervisorState<H> {
    /// The state at process start: nothing started, no port, no worker.
    pub fn new() -> (s: Self)
        ensures
            s@ == SupervisorView::<H>::initial(),
    {
        SupervisorState {
            started: false,
            backend_port: 0,
            worker_pid: 0,
            shutdown: ShutdownPhase::Idle,
            worker_handle: None,
        }
    }

    /// Records the port chosen for the worker.
    pub fn set_backend_port(&mut self, port: u16)
        ensures
            final(self)@ == (SupervisorView { backend_port: port, ..old(self)@ }),
    {
        self.backend_port = port;
    }

    /// The port chosen for the worker; 0 before one was chosen.
    pub fn get_backend_port(&self) -> (port: u16)
        ensures
            port == self@.backend_port,
    {
        self.backend_port
    }

    /// The worker was launched and has not been seen to exit.
    pub fn is_started(&self) -> (b: bool)
        ensures
            b == self@.started,
    {
        self.started
    }

    /// The process id of the worker; 0 when there is none.
    pub fn worker_pid(&self) -> (pid: u32)
        ensures
            pid == self@.worker_pid,
    {
        self.worker_pid
    }

    /// How far shutdown has come.
    pub fn shutdown_phase(&self) -> (phase: ShutdownPhase)
        ensures
            phase == self@.shutdown,
    {
        self.shutdown
    }

    /// A shutdown was requested, whether or not it has ended.
    pub fn shutdown_in_progress(&self) -> (b: bool)
        ensures
            b == (self@.shutdown != ShutdownPhase::Idle),
    {
        match self.shutdown {
            ShutdownPhase::Idle => false,
            _ => true,
        }
    }

    /// The supervisor holds an owned handle of the worker.
    pub fn has_handle(&self) -> (b: bool)
        ensures
            b == (self@.worker_handle is Some),
    {
        self.worker_handle.is_some()
    }

    /// Answers a launch request. A worker that already runs is not spawned a
    /// second time: the caller gets the recorded process id and port.
    pub fn launch_guard(&self) -> (guard: LaunchGuard)
        ensures
            guard == self@.launch_guard(),
    {
        if self.started {
            LaunchGuard::AlreadyStarted { pid: self.worker_pid, port: self.backend_port }
        } else {
            LaunchGuard::Proceed
        }
    }

    /// Records a worker that was just spawned.
    pub fn record_spawn(&mut self, pid: u32, handle: Option<H>)
        ensures
            final(self)@ == old(self)@.spawned(pid, handle),
    {
        self.worker_pid = pid;
        if handle.is_some() {
            self.worker_handle = handle;
        }
        self.started = true;
    }

    /// Records that the worker was seen to exit by itself.
    pub fn worker_exited(&mut self)
        ensures
            final(self)@ == old(self)@.exited(),
    {
        self.started = false;
        self.worker_pid = 0;
    }

    /// Takes a shutdown trigger. Returns `true` to the one caller that has to
    /// run the shutdown, and `false` to every later one, which returns at
    /// once.
    pub fn request_shutdown(&mut self) -> (run: bool)
        ensures
            run == old(self)@.claims_shutdown(),
            final(self)@ == old(self)@.triggered(),
            final(self)@.shutdown != ShutdownPhase::Idle,
    {
        match self.shutdown {
            ShutdownPhase::Idle => {
                self.shutdown = ShutdownPhase::ShuttingDown;
                true
            },
            _ => false,
        }
    }

    /// Takes the recorded process id and leaves 0 in its place.
    pub fn take_worker_pid(&mut self) -> (pid: u32)
        ensures
            pid == old(self)@.worker_pid,
            final(self)@ == (SupervisorView { worker_pid: 0, ..old(self)@ }),
    {
        let pid = self.worker_pid;
        self.worker_pid = 0;
        pid
    }

    /// Takes the owned handle, if one is held. The state holds none
    /// afterwards, so a handle is handed out at most once.
    pub fn take_handle(&mut self) -> (handle: Option<H>)
        ensures
            handle == old(self)@.worker_handle,
            final(self)@ == (SupervisorView { worker_handle: None, ..old(self)@ }),
    {
        self.worker_handle.take()
    }

    /// Ends a shutdown: no worker is recorded afterwards, and a handle still
    /// held is dropped.
    pub fn finish_shutdown(&mut self)
        ensures
            final(self)@ == old(self)@.stopped(),
            final(self)@.is_clean(),
    {
        self.started = false;
        self.worker_pid = 0;
        self.worker_handle = None;
        match self.shutdown {
            ShutdownPhase::ShuttingDown => {
                self.shutdown = ShutdownPhase::Done;
            },
            _ => {},
        }
    }
}

/// However many shutdown triggers arrive one after another, the first one
/// that finds the supervisor idle runs the shutdown and no other does.
pub proof fn lemma_shutdown_runs_once<H>(s: SupervisorView<H>, n: nat)
    requires
        n >= 1,
    ensures
        s.claims_shutdown() ==> s.claims_among(n) == 1,
        !s.claims_shutdown() ==> s.claims_among(n) == 0,
    decreases n,
{
    if n > 1 {
        lemma_shutdown_runs_once(s.triggered(), (n - 1) as nat);
    } else {
        assert(s.triggered().claims_among(0) == 0);
    }
}

/// A launch request that follows a recorded spawn spawns nothing: it is
/// answered with the process id of that spawn and the port of the state.
pub proof fn lemma_launch_is_idempotent<H>(s: SupervisorView<H>, pid: u32, handle: Option<H>)
    ensures
        s.spawned(pid, handle).launch_guard() == (LaunchGuard::AlreadyStarted {
            pid,
            port: s.backend_port,
        }),
{
}

} // verus!
