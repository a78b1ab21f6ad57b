//! The worker launcher: how the worker is invoked, and in which order a
//! launch goes about it.
//!
//! The worker is told its port and to listen on the loopback address only.
//! The directories of bundled resources are named only where they exist: the
//! worker tells "run with your defaults" from "run with this root", so a flag
//! is left out altogether and never passed empty.
//!
//! A launch sweeps for leftover workers once more, looks at the disk, stages
//! the worker where that is called for, spawns it, and waits until it is
//! healthy. A worker that already runs is not launched again.

use vstd::prelude::*;
use vstd::string::StringExecFns;
use crate::decimal::{decimal, decimal_chars};
use crate::health::HealthOutcome;
use crate::platform::Platform;
use crate::stager::{
    launch_method, plan_staging, stage_plan, BundleProbe, LaunchMethod, StageAction, StagePlan,
    StagePlanView,
};
use crate::state::{LaunchGuard, SupervisorState, SupervisorView};
use crate::text::{string_of, texts_of};

verus! {

/// A directory of bundled resources, and whether it exists on disk.
#[derive(Clone, Debug, PartialEq, Eq)]
pub struct ResourceDir {
    pub path: String,
    pub present: bool,
}

/// The arguments that name a resource directory: the flag and the path
/// where the directory exists, nothing where it does not.
pub open spec fn resource_args(flag: Seq<char>, dir: ResourceDir) -> Seq<Seq<char>> {
    if dir.present {
        seq![flag, dir.path@]
    } else {
        Seq::empty()
    }
}

/// The arguments with which the worker is invoked.
pub open spec fn sidecar_args(port: u16, solutions: ResourceDir, frontend: ResourceDir) -> Seq<
    Seq<char>,
> {
    seq!["--port"@, decimal(port as nat), "--host"@, "127.0.0.1"@] + resource_args(
        "--solutions-dir"@,
        solutions,
    ) + resource_args("--frontend-dir"@, frontend)
}

fn push_resource(args: &mut Vec<String>, flag: &str, dir: &ResourceDir)
    ensures
        texts_of(final(args)@) == texts_of(old(args)@) + resource_args(flag@, *dir),
{
    if dir.present {
        args.push(String::from_str(flag));
        args.push(dir.path.clone());
        assert(texts_of(args@) =~= texts_of(old(args)@) + seq![flag@, dir.path@]);
    } else {
        assert(texts_of(args@) =~= texts_of(old(args)@) + Seq::<Seq<char>>::empty());
    }
}

/// Builds the arguments with which the worker is invoked on `port`.
pub fn build_sidecar_args(port: u16, solutions: &ResourceDir, frontend: &ResourceDir) -> (args: Vec<
    String,
>)
    ensures
        texts_of(args@) == sidecar_args(port, *solutions, *frontend),
{
    let digits = decimal_chars(port as u64);
    let len: usize = digits.len();
    assert(digits@.subrange(0, len as int) =~= digits@);
    let mut args: Vec<String> = Vec::new();
    args.push(String::from_str("--port"));
    args.push(string_of(&digits, 0, len));
    args.push(String::from_str("--host"));
    args.push(String::from_str("127.0.0.1"));
    assert(texts_of(args@) =~= seq!["--port"@, decimal(port as nat), "--host"@, "127.0.0.1"@]);
    push_resource(&mut args, "--solutions-dir", solutions);
    push_resource(&mut args, "--frontend-dir", frontend);
    args
}

/// How a launch ended.
#[derive(Clone, Copy, Debug, PartialEq, Eq, Structural)]
pub enum LaunchOutcome {
    /// The worker was spawned and is healthy.
    Started,
    /// The worker ran already. Nothing was spawned; this is its recorded
    /// process id and port.
    AlreadyStarted { pid: u32, port: u16 },
    /// The worker could not be spawned.
    SpawnFailed,
    /// The worker was spawned but did not become healthy in time, and was
    /// shut down again.
    TimedOut,
}

/// What the driver has to do next. Each step but the last is answered by the
/// [`LaunchEvent`] of the same kind.
#[derive(Clone, Copy, Debug, PartialEq, Eq, Structural)]
pub enum LaunchStep {
    /// Run a sweep for leftover workers to its end.
    Sweep,
    /// Look at the disk: which resource directories exist, and what is there
    /// of the worker bundle and of its staged copy.
    Inspect,
    /// Carry out the operations of [`LaunchSequence::staging_actions`] in
    /// their order, up to the first that fails.
    Stage,
    /// Spawn the worker by `method` with the arguments of
    /// [`LaunchSequence::args`], its output captured.
    Spawn { method: LaunchMethod },
    /// Run the health gate to its end.
    AwaitHealth,
    /// The launch has ended.
    Finished(LaunchOutcome),
}

/// What the driver reports of the step it was asked for.
pub enum LaunchEvent<H> {
    /// The sweep ended; `cleaned` leftover workers were removed.
    Swept { cleaned: u32 },
    /// What is on disk.
    Inspected { solutions: ResourceDir, frontend: ResourceDir, bundle: BundleProbe },
    /// The operations of the staging were all carried out, or one failed.
    Staged { succeeded: bool },
    /// The worker runs as process `pid`; `handle` is its owned handle, where
    /// the way it was spawned gives one.
    Spawned { pid: u32, handle: Option<H> },
    /// The worker could not be spawned.
    SpawnFailed,
    /// The health gate has ended.
    Health { outcome: HealthOutcome },
}

/// Where a launch stands: which report it waits for.
#[derive(Clone, Copy, Debug, PartialEq, Eq, Structural)]
pub enum LaunchStage {
    AwaitSweep,
    AwaitInspection,
    AwaitStaging,
    AwaitSpawn { method: LaunchMethod },
    AwaitHealth,
    Done(LaunchOutcome),
}

impl LaunchStage {
    /// The step that the driver owes at this stage.
    pub open spec fn pending(self) -> LaunchStep {
        match self {
            LaunchStage::AwaitSweep => LaunchStep::Sweep,
            LaunchStage::AwaitInspection => LaunchStep::Inspect,
            LaunchStage::AwaitStaging => LaunchStep::Stage,
            LaunchStage::AwaitSpawn { method } => LaunchStep::Spawn { method },
            LaunchStage::AwaitHealth => LaunchStep::AwaitHealth,
            LaunchStage::Done(outcome) => LaunchStep::Finished(outcome),
        }
    }

    /// The step that the driver owes at this stage.
    pub fn pending_step(&self) -> (step: LaunchStep)
        ensures
            step == self.pending(),
    {
        match self {
            LaunchStage::AwaitSweep => LaunchStep::Sweep,
            LaunchStage::AwaitInspection => LaunchStep::Inspect,
            LaunchStage::AwaitStaging => LaunchStep::Stage,
            LaunchStage::AwaitSpawn { method } => LaunchStep::Spawn { method: *method },
            LaunchStage::AwaitHealth => LaunchStep::AwaitHealth,
            LaunchStage::Done(outcome) => LaunchStep::Finished(*outcome),
        }
    }
}

/// One launch of the worker.
pub struct LaunchSequence {
    platform: Platform,
    port: u16,
    stage: LaunchStage,
    args: Vec<String>,
    actions: Vec<StageAction>,
}

/// The mathematical content of a [`LaunchSequence`].
pub struct LaunchView {
    /// The platform whose ways the staging follows.
    pub platform: Platform,
    /// The port that the worker is to serve.
    pub port: u16,
    /// Where the launch stands.
    pub stage: LaunchStage,
    /// The arguments of the worker, once the disk was looked at.
    pub args: Seq<Seq<char>>,
    /// The operations of the staging, where one is called for.
    pub actions: Seq<StageAction>,
}

impl View for LaunchSequence {
    type V = LaunchView;

    closed spec fn view(&self) -> LaunchView {
        LaunchView {
            platform: self.platform,
            port: self.port,
            stage: self.stage,
            args: texts_of(self.args@),
            actions: self.actions@,
        }
    }
}

impl LaunchView {
    /// The launch as it starts for a supervisor whose answer to the launch
    /// request is `guard`: where the worker already runs, the launch is over
    /// before it began.
    pub open spec fn begin(platform: Platform, port: u16, guard: LaunchGuard) -> LaunchView {
        LaunchView {
            platform,
            port,
            stage: match guard {
                LaunchGuard::AlreadyStarted { pid, port } => LaunchStage::Done(
                    LaunchOutcome::AlreadyStarted { pid, port },
                ),
                LaunchGuard::Proceed => LaunchStage::AwaitSweep,
            },
            args: Seq::empty(),
            actions: Seq::empty(),
        }
    }

    /// The launch at another stage.
    pub open spec fn at(self, stage: LaunchStage) -> LaunchView {
        LaunchView { stage, ..self }
    }

    /// The launch after the disk was looked at. The arguments are fixed;
    /// where the staged copy has to be made anew, that comes first, and
    /// otherwise the worker is spawned at once, from the staged copy if it
    /// is fresh and by the default mechanism if there is nothing to stage or
    /// nothing to stage from.
    pub open spec fn inspected(
        self,
        solutions: ResourceDir,
        frontend: ResourceDir,
        bundle: BundleProbe,
    ) -> LaunchView {
        let args = sidecar_args(self.port, solutions, frontend);
        match stage_plan(self.platform, bundle) {
            StagePlanView::Restage { actions } => LaunchView {
                stage: LaunchStage::AwaitStaging,
                args,
                actions,
                ..self
            },
            plan => LaunchView {
                stage: LaunchStage::AwaitSpawn { method: launch_method(plan, true) },
                args,
                ..self
            },
        }
    }

    /// The launch after `event`. A report that does not answer the pending
    /// step changes nothing: the step is asked for again.
    pub open spec fn next<H>(self, event: LaunchEvent<H>) -> LaunchView {
        match (self.stage, event) {
            (LaunchStage::AwaitSweep, LaunchEvent::Swept { .. }) => self.at(
                LaunchStage::AwaitInspection,
            ),
            (
                LaunchStage::AwaitInspection,
                LaunchEvent::Inspected { solutions, frontend, bundle },
            ) => self.inspected(solutions, frontend, bundle),
            (LaunchStage::AwaitStaging, LaunchEvent::Staged { succeeded }) => self.at(
                LaunchStage::AwaitSpawn {
                    method: if succeeded {
                        LaunchMethod::Staged
                    } else {
                        LaunchMethod::Default
                    },
                },
            ),
            (LaunchStage::AwaitSpawn { .. }, LaunchEvent::Spawned { .. }) => self.at(
                LaunchStage::AwaitHealth,
            ),
            (LaunchStage::AwaitSpawn { .. }, LaunchEvent::SpawnFailed) => self.at(
                LaunchStage::Done(LaunchOutcome::SpawnFailed),
            ),
            (LaunchStage::AwaitHealth, LaunchEvent::Health { outcome }) => self.at(
                LaunchStage::Done(
                    match outcome {
                        HealthOutcome::Ready => LaunchOutcome::Started,
                        HealthOutcome::TimedOut => LaunchOutcome::TimedOut,
                    },
                ),
            ),
            _ => self,
        }
    }

    /// The supervisor's state after `event` arrived at this launch: a
    /// worker that was spawned is recorded, at once.
    pub open spec fn state_after<H>(
        self,
        s: SupervisorView<H>,
        event: LaunchEvent<H>,
    ) -> SupervisorView<H> {
        match (self.stage, event) {
            (LaunchStage::AwaitSpawn { .. }, LaunchEvent::Spawned { pid, handle }) => s.spawned(
                pid,
                handle,
            ),
            _ => s,
        }
    }
}

impl LaunchSequence {
    /// Starts a launch of the worker on `port`. Where `state` records a
    /// worker that runs, the first step ends the launch.
    pub fn begin<H>(state: &SupervisorState<H>, platform: Platform, port: u16) -> (r: (
        LaunchSequence,
        LaunchStep,
    ))
        ensures
            r.0@ == LaunchView::begin(platform, port, state@.launch_guard()),
            r.1 == r.0@.stage.pending(),
    {
        let stage = match state.launch_guard() {
            LaunchGuard::AlreadyStarted { pid, port } => LaunchStage::Done(
                LaunchOutcome::AlreadyStarted { pid, port },
            ),
            LaunchGuard::Proceed => LaunchStage::AwaitSweep,
        };
        let sequence = LaunchSequence {
            platform,
            port,
            stage,
            args: Vec::new(),
            actions: Vec::new(),
        };
        assert(sequence@.args =~= Seq::empty());
        (sequence, stage.pending_step())
    }

    /// The arguments with which the worker is spawned.
    pub fn args(&self) -> (args: &Vec<String>)
        ensures
            texts_of(args@) == self@.args,
    {
        &self.args
    }

    /// The operations of the staging, in their order.
    pub fn staging_actions(&self) -> (actions: &Vec<StageAction>)
        ensures
            actions@ == self@.actions,
    {
        &self.actions
    }

    /// Takes the report of the step that the driver was asked for and
    /// decides on the next step, which is always the one that the launch
    /// then waits for.
    pub fn advance<H>(&mut self, state: &mut SupervisorState<H>, event: LaunchEvent<H>) -> (step:
        LaunchStep)
        ensures
            final(self)@ == old(self)@.next(event),
            step == final(self)@.stage.pending(),
            final(state)@ == old(self)@.state_after(old(state)@, event),
    {
        match (self.stage, event) {
            (LaunchStage::AwaitSweep, LaunchEvent::Swept { .. }) => {
                self.stage = LaunchStage::AwaitInspection;
            },
            (
                LaunchStage::AwaitInspection,
                LaunchEvent::Inspected { solutions, frontend, bundle },
            ) => {
                self.args = build_sidecar_args(self.port, &solutions, &frontend);
                let plan = plan_staging(self.platform, bundle);
                match plan {
                    StagePlan::Restage { actions } => {
                        self.actions = actions;
                        self.stage = LaunchStage::AwaitStaging;
                    },
                    StagePlan::Reuse => {
                        self.stage = LaunchStage::AwaitSpawn { method: LaunchMethod::Staged };
                    },
                    StagePlan::NotApplicable | StagePlan::SourceMissing => {
                        self.stage = LaunchStage::AwaitSpawn { method: LaunchMethod::Default };
                    },
                }
            },
            (LaunchStage::AwaitStaging, LaunchEvent::Staged { succeeded }) => {
                let method = if succeeded {
                    LaunchMethod::Staged
                } else {
                    LaunchMethod::Default
                };
                self.stage = LaunchStage::AwaitSpawn { method };
            },
            (LaunchStage::AwaitSpawn { .. }, LaunchEvent::Spawned { pid, handle }) => {
                state.record_spawn(pid, handle);
                self.stage = LaunchStage::AwaitHealth;
            },
            (LaunchStage::AwaitSpawn { .. }, LaunchEvent::SpawnFailed) => {
                self.stage = LaunchStage::Done(LaunchOutcome::SpawnFailed);
            },
            (LaunchStage::AwaitHealth, LaunchEvent::Health { outcome }) => {
                let outcome = match outcome {
                    HealthOutcome::Ready => LaunchOutcome::Started,
                    HealthOutcome::TimedOut => LaunchOutcome::TimedOut,
                };
                self.stage = LaunchStage::Done(outcome);
            },
            _ => {},
        }
        self.stage.pending_step()
    }
}

/// A launch moves forward only, and only on the report that its stage waits
/// for: the worker is spawned after the sweep and after the disk was looked
/// at, never before, and its health is waited for only once it was spawned.
pub proof fn lemma_launch_keeps_order<H>(m: LaunchView, event: LaunchEvent<H>)
    ensures
        m.next(event).stage == m.stage || match m.stage {
            LaunchStage::AwaitSweep => {
                &&& event is Swept
                &&& m.next(event).stage == LaunchStage::AwaitInspection
            },
            LaunchStage::AwaitInspection => {
                &&& event is Inspected
                &&& m.next(event).stage is AwaitStaging || m.next(event).stage is AwaitSpawn
            },
            LaunchStage::AwaitStaging => {
                &&& event is Staged
                &&& m.next(event).stage is AwaitSpawn
            },
            LaunchStage::AwaitSpawn { .. } => {
                ||| event is Spawned && m.next(event).stage == LaunchStage::AwaitHealth
                ||| event is SpawnFailed && m.next(event).stage == LaunchStage::Done(
                    LaunchOutcome::SpawnFailed,
                )
            },
            LaunchStage::AwaitHealth => {
                &&& event is Health
                &&& m.next(event).stage is Done
            },
            LaunchStage::Done(_) => false,
        },
{
}

/// A launch for a worker that already runs spawns nothing: it is over with
/// its first step, which gives the recorded process id and port, and no
/// report changes that or the supervisor's state.
pub proof fn lemma_second_launch_spawns_nothing<H>(
    s: SupervisorView<H>,
    platform: Platform,
    port: u16,
    event: LaunchEvent<H>,
)
    requires
        s.started,
    ensures
        LaunchView::begin(platform, port, s.launch_guard()).stage.pending() == LaunchStep::Finished(
            LaunchOutcome::AlreadyStarted { pid: s.worker_pid, port: s.backend_port },
        ),
        LaunchView::begin(platform, port, s.launch_guard()).next(event) == LaunchView::begin(
            platform,
            port,
            s.launch_guard(),
        ),
        LaunchView::begin(platform, port, s.launch_guard()).state_after(s, event) == s,
{
}

} // verus!
