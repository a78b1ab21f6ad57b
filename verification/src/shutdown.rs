//! The shutdown coordinator.
//!
//! Shutting the worker down escalates: a cooperative signal, a timed wait, a
//! forced kill, and a sweep by name as the last resort. The children of the
//! worker are listed before anything is signalled, because they can no
//! longer be found through their parent once it has died. Where the worker
//! turns out to be gone already, those of its children that are still there
//! are killed.
//!
//! The coordinator decides and its driver acts. Each step hands the driver
//! the effects to perform in order and then either one question, whose
//! answer starts the next step, or the outcome.

use vstd::prelude::*;
use crate::process::{push_signals, signals_to, Effect, Query, QueryView, Reply};
use crate::state::{SupervisorState, SupervisorView};

verus! {

/// The time a worker is given to exit on its own after the cooperative
/// signal, in seconds.
pub const GRACEFUL_SHUTDOWN_TIMEOUT_SECS: u64 = 5;

/// The time between two looks at the processes, in milliseconds.
pub const POLL_INTERVAL_MS: u64 = 100;

/// The looks taken while waiting for a cooperative exit: the timeout
/// divided by the poll interval.
pub const GRACEFUL_POLLS: u32 = 50;

/// The looks taken while waiting for a forced kill to take effect.
pub const FORCED_POLLS: u32 = 10;

/// Where the coordinator stands. Each stage but the last waits for the
/// answer to the question that the previous step asked.
#[derive(Clone, Copy, Debug, PartialEq, Eq, Structural)]
pub enum Stage {
    /// The children of the worker were asked for.
    AwaitSnapshot,
    /// The worker was polled, before any signal.
    AwaitProbe,
    /// The worker is gone; its children were polled.
    AwaitOrphans,
    /// The cooperative signals are out; this is poll number `round`.
    GracefulWait { round: u32 },
    /// The forced kills are out; this is poll number `round`.
    ForcedWait { round: u32 },
    /// The outcome is known.
    Done { graceful: bool },
}

/// What follows the effects of a step.
#[derive(Clone, Debug, PartialEq, Eq)]
pub enum ShutdownNext {
    /// The driver answers this question and hands the answer to
    /// [`ShutdownCoordinator::advance`].
    Ask(Query),
    /// The shutdown has ended. `graceful` tells whether the worker exited on
    /// its own; it is `false` once a forced kill was issued.
    Finished { graceful: bool },
}

/// The mathematical content of a [`ShutdownNext`].
pub enum ShutdownNextView {
    Ask(QueryView),
    Finished { graceful: bool },
}

impl View for ShutdownNext {
    type V = ShutdownNextView;

    open spec fn view(&self) -> ShutdownNextView {
        match self {
            ShutdownNext::Ask(q) => ShutdownNextView::Ask(q@),
            ShutdownNext::Finished { graceful } => ShutdownNextView::Finished {
                graceful: *graceful,
            },
        }
    }
}

/// One step of the shutdown, as the driver receives it.
pub struct ShutdownStep<H> {
    /// What to do, in this order.
    pub effects: Vec<Effect>,
    /// The owned handle of the worker, taken out of the supervisor's state
    /// for the effect [`Effect::KillHandle`] of this step.
    pub handle: Option<H>,
    /// What follows the effects.
    pub next: ShutdownNext,
}

/// The decisions of one step: what is done, and what follows.
pub struct Plan {
    pub effects: Seq<Effect>,
    pub next: ShutdownNextView,
}

impl Plan {
    /// The step invokes the owned handle. Where it does, that comes first.
    pub open spec fn kills_handle(self) -> bool {
        self.effects.len() > 0 && self.effects[0] == Effect::KillHandle
    }

    /// The step ends the shutdown.
    pub open spec fn is_final(self) -> bool {
        self.next is Finished
    }
}

impl<H> ShutdownStep<H> {
    /// The decisions that the step carries. The handle is none of them:
    /// [`handle_for`] says which handle comes with the decisions.
    pub open spec fn plan(self) -> Plan {
        Plan { effects: self.effects@, next: self.next@ }
    }
}

/// The coordinator of one shutdown.
pub struct ShutdownCoordinator {
    pid: u32,
    children: Vec<u32>,
    stage: Stage,
}

/// The mathematical content of a [`ShutdownCoordinator`].
pub struct CoordinatorView {
    /// The process id of the worker; 0 if none was recorded.
    pub pid: u32,
    /// The children of the worker, as listed before the first signal.
    pub children: Seq<u32>,
    /// Where the coordinator stands.
    pub stage: Stage,
}

impl View for ShutdownCoordinator {
    type V = CoordinatorView;

    closed spec fn view(&self) -> CoordinatorView {
        CoordinatorView { pid: self.pid, children: self.children@, stage: self.stage }
    }
}

/// One wait of a poll interval.
pub open spec fn nap() -> Effect {
    Effect::Sleep { millis: POLL_INTERVAL_MS }
}

impl CoordinatorView {
    /// The coordinator as it starts for the worker `pid`.
    pub open spec fn begin(pid: u32) -> CoordinatorView {
        CoordinatorView {
            pid,
            children: Seq::empty(),
            stage: if pid == 0 {
                Stage::Done { graceful: true }
            } else {
                Stage::AwaitSnapshot
            },
        }
    }

    /// The first step for the worker `pid`. With no worker recorded there is
    /// nothing to signal, but a worker may run unrecorded: the sweep by name
    /// is made all the same, and the outcome counts as graceful.
    pub open spec fn begin_plan(pid: u32) -> Plan {
        if pid == 0 {
            Plan {
                effects: seq![Effect::KillByName],
                next: ShutdownNextView::Finished { graceful: true },
            }
        } else {
            Plan {
                effects: Seq::empty(),
                next: ShutdownNextView::Ask(QueryView::ListChildren { pid }),
            }
        }
    }

    /// The processes whose exit the shutdown waits for: the worker, then its
    /// children.
    pub open spec fn targets(self) -> Seq<u32> {
        seq![self.pid] + self.children
    }

    /// The question whether any of the targets is left.
    pub open spec fn poll(self) -> ShutdownNextView {
        ShutdownNextView::Ask(QueryView::Poll { targets: self.targets() })
    }

    /// The coordinator at another stage.
    pub open spec fn at(self, stage: Stage) -> CoordinatorView {
        CoordinatorView { stage, ..self }
    }

    /// The effects that ask the worker and its children to exit, followed by
    /// the first wait.
    pub open spec fn graceful_signals(self) -> Seq<Effect> {
        seq![Effect::KillHandle, Effect::SendGraceful { pid: self.pid }] + signals_to(
            self.children,
            false,
        ) + seq![nap()]
    }

    /// The effects that kill the children, then the worker, followed by
    /// the first wait.
    pub open spec fn forceful_signals(self) -> Seq<Effect> {
        signals_to(self.children, true) + seq![Effect::SendForceful { pid: self.pid }, nap()]
    }

    /// The coordinator after `reply`, and the step it decides on.
    ///
    /// The children are listed and the worker is polled before anything
    /// else. A worker that is gone is not signalled: its children are
    /// polled, and those that are still there are killed. A worker that is
    /// there is asked to exit with its children, and all of them are polled
    /// until none is left or the graceful looks are used up; then all are
    /// killed, and polled until none is left or the forced looks are used up;
    /// then whatever carries the worker's name is killed.
    pub open spec fn next(self, reply: Reply) -> (CoordinatorView, Plan) {
        match self.stage {
            Stage::AwaitSnapshot => (
                CoordinatorView { children: reply.pids(), stage: Stage::AwaitProbe, ..self },
                Plan {
                    effects: Seq::empty(),
                    next: ShutdownNextView::Ask(QueryView::Poll { targets: seq![self.pid] }),
                },
            ),
            Stage::AwaitProbe => if reply.any_running(1) {
                (
                    self.at(Stage::GracefulWait { round: 1 }),
                    Plan { effects: self.graceful_signals(), next: self.poll() },
                )
            } else if self.children.len() > 0 {
                (
                    self.at(Stage::AwaitOrphans),
                    Plan {
                        effects: Seq::empty(),
                        next: ShutdownNextView::Ask(QueryView::Poll { targets: self.children }),
                    },
                )
            } else {
                (
                    self.at(Stage::Done { graceful: true }),
                    Plan {
                        effects: Seq::empty(),
                        next: ShutdownNextView::Finished { graceful: true },
                    },
                )
            },
            Stage::AwaitOrphans => (
                self.at(Stage::Done { graceful: true }),
                Plan {
                    effects: signals_to(reply.running_among(self.children), true),
                    next: ShutdownNextView::Finished { graceful: true },
                },
            ),
            Stage::GracefulWait { round } => if !reply.any_running(self.targets().len()) {
                (
                    self.at(Stage::Done { graceful: true }),
                    Plan {
                        effects: Seq::empty(),
                        next: ShutdownNextView::Finished { graceful: true },
                    },
                )
            } else if round < GRACEFUL_POLLS {
                (
                    self.at(Stage::GracefulWait { round: (round + 1) as u32 }),
                    Plan { effects: seq![nap()], next: self.poll() },
                )
            } else {
                (
                    self.at(Stage::ForcedWait { round: 1 }),
                    Plan { effects: self.forceful_signals(), next: self.poll() },
                )
            },
            Stage::ForcedWait { round } => if !reply.any_running(self.targets().len()) {
                (
                    self.at(Stage::Done { graceful: false }),
                    Plan {
                        effects: Seq::empty(),
                        next: ShutdownNextView::Finished { graceful: false },
                    },
                )
            } else if round < FORCED_POLLS {
                (
                    self.at(Stage::ForcedWait { round: (round + 1) as u32 }),
                    Plan { effects: seq![nap()], next: self.poll() },
                )
            } else {
                (
                    self.at(Stage::Done { graceful: false }),
                    Plan {
                        effects: seq![Effect::KillByName],
                        next: ShutdownNextView::Finished { graceful: false },
                    },
                )
            },
            Stage::Done { graceful } => (
                self,
                Plan { effects: Seq::empty(), next: ShutdownNextView::Finished { graceful } },
            ),
        }
    }
}

/// The supervisor's state after a step with the decisions `plan`: the handle
/// is gone once it was handed out, and nothing of the worker is left when the
/// shutdown has ended.
pub open spec fn state_after<H>(s: SupervisorView<H>, plan: Plan) -> SupervisorView<H> {
    if plan.is_final() {
        s.stopped()
    } else if plan.kills_handle() {
        SupervisorView { worker_handle: None, ..s }
    } else {
        s
    }
}

/// The handle that a step with the decisions `plan` hands to the driver.
pub open spec fn handle_for<H>(s: SupervisorView<H>, plan: Plan) -> Option<H> {
    if plan.kills_handle() {
        s.worker_handle
    } else {
        None
    }
}

fn copy_of(pids: &Vec<u32>) -> (out: Vec<u32>)
    ensures
        out@ == pids@,
{
    let mut out: Vec<u32> = Vec::new();
    let mut i: usize = 0;
    while i < pids.len()
        invariant
            i <= pids.len(),
            out@ == pids@.take(i as int),
        decreases pids.len() - i,
    {
        out.push(pids[i]);
        i += 1;
    }
    assert(pids@.take(pids.len() as int) =~= pids@);
    out
}

impl ShutdownCoordinator {
    /// Starts the shutdown of the worker that `state` records. The recorded
    /// process id is taken out of the state, so that no second shutdown acts
    /// on it.
    pub fn begin<H>(state: &mut SupervisorState<H>) -> (r: (ShutdownCoordinator, ShutdownStep<H>))
        ensures
            r.0@ == CoordinatorView::begin(old(state)@.worker_pid),
            r.1.plan() == CoordinatorView::begin_plan(old(state)@.worker_pid),
            r.1.handle is None,
            final(state)@ == state_after(
                SupervisorView { worker_pid: 0, ..old(state)@ },
                r.1.plan(),
            ),
            final(state)@.worker_pid == 0,
            r.1.plan().is_final() ==> final(state)@.is_clean(),
    {
        let pid = state.take_worker_pid();
        let mut effects: Vec<Effect> = Vec::new();
        if pid == 0 {
            effects.push(Effect::KillByName);
            state.finish_shutdown();
            (
                ShutdownCoordinator {
                    pid,
                    children: Vec::new(),
                    stage: Stage::Done { graceful: true },
                },
                ShutdownStep {
                    effects,
                    handle: None,
                    next: ShutdownNext::Finished { graceful: true },
                },
            )
        } else {
            (
                ShutdownCoordinator { pid, children: Vec::new(), stage: Stage::AwaitSnapshot },
                ShutdownStep {
                    effects,
                    handle: None,
                    next: ShutdownNext::Ask(Query::ListChildren { pid }),
                },
            )
        }
    }

    /// The outcome, once it is known.
    pub fn outcome(&self) -> (r: Option<bool>)
        ensures
            r == match self@.stage {
                Stage::Done { graceful } => Some(graceful),
                _ => None,
            },
    {
        match self.stage {
            Stage::Done { graceful } => Some(graceful),
            _ => None,
        }
    }

    fn poll_targets(&self) -> (next: ShutdownNext)
        ensures
            next@ == self@.poll(),
    {
        let mut targets: Vec<u32> = Vec::new();
        targets.push(self.pid);
        let mut i: usize = 0;
        while i < self.children.len()
            invariant
                i <= self.children.len(),
                targets@ == seq![self.pid] + self.children@.take(i as int),
            decreases self.children.len() - i,
        {
            targets.push(self.children[i]);
            i += 1;
        }
        assert(self.children@.take(self.children.len() as int) == self.children@);
        ShutdownNext::Ask(Query::Poll { targets })
    }

    fn expected_statuses(&self, reply: &Reply) -> (r: bool)
        ensures
            r == reply.any_running(self@.targets().len()),
    {
        match reply {
            Reply::Pids(_) => true,
            Reply::Statuses(v) => {
                if v.len() == 0 || v.len() - 1 != self.children.len() {
                    true
                } else {
                    reply.reports_running(v.len())
                }
            },
        }
    }

    /// Takes the answer to the question of the previous step and decides on
    /// the next step.
    ///
    /// The handle of the worker leaves `state` with the step that invokes
    /// it. When the step ends the shutdown, `state` records no worker any
    /// more. After the end every further call reports the same outcome and
    /// asks for nothing.
    pub fn advance<H>(&mut self, state: &mut SupervisorState<H>, reply: Reply) -> (step:
        ShutdownStep<H>)
        ensures
            (final(self)@, step.plan()) == old(self)@.next(reply),
            step.handle == handle_for(old(state)@, step.plan()),
            final(state)@ == state_after(old(state)@, step.plan()),
            step.plan().is_final() ==> final(state)@.is_clean(),
    {
        let mut effects: Vec<Effect> = Vec::new();
        match self.stage {
            Stage::AwaitSnapshot => {
                self.children = reply.into_pids();
                self.stage = Stage::AwaitProbe;
                let mut targets: Vec<u32> = Vec::new();
                targets.push(self.pid);
                assert(targets@ =~= seq![self.pid]);
                ShutdownStep {
                    effects,
                    handle: None,
                    next: ShutdownNext::Ask(Query::Poll { targets }),
                }
            },
            Stage::AwaitProbe => {
                if reply.reports_running(1) {
                    effects.push(Effect::KillHandle);
                    effects.push(Effect::SendGraceful { pid: self.pid });
                    push_signals(&mut effects, &self.children, false);
                    effects.push(Effect::Sleep { millis: POLL_INTERVAL_MS });
                    assert(effects@ =~= old(self)@.graceful_signals());
                    self.stage = Stage::GracefulWait { round: 1 };
                    let next = self.poll_targets();
                    let handle = state.take_handle();
                    ShutdownStep { effects, handle, next }
                } else if self.children.len() > 0 {
                    self.stage = Stage::AwaitOrphans;
                    let targets = copy_of(&self.children);
                    ShutdownStep {
                        effects,
                        handle: None,
                        next: ShutdownNext::Ask(Query::Poll { targets }),
                    }
                } else {
                    self.stage = Stage::Done { graceful: true };
                    state.finish_shutdown();
                    ShutdownStep {
                        effects,
                        handle: None,
                        next: ShutdownNext::Finished { graceful: true },
                    }
                }
            },
            Stage::AwaitOrphans => {
                let left = reply.running_targets(&self.children);
                push_signals(&mut effects, &left, true);
                assert(effects@ =~= signals_to(left@, true));
                self.stage = Stage::Done { graceful: true };
                state.finish_shutdown();
                ShutdownStep {
                    effects,
                    handle: None,
                    next: ShutdownNext::Finished { graceful: true },
                }
            },
            Stage::GracefulWait { round } => {
                if !self.expected_statuses(&reply) {
                    self.stage = Stage::Done { graceful: true };
                    state.finish_shutdown();
                    ShutdownStep {
                        effects,
                        handle: None,
                        next: ShutdownNext::Finished { graceful: true },
                    }
                } else if round < GRACEFUL_POLLS {
                    effects.push(Effect::Sleep { millis: POLL_INTERVAL_MS });
                    assert(effects@ =~= seq![nap()]);
                    self.stage = Stage::GracefulWait { round: round + 1 };
                    let next = self.poll_targets();
                    ShutdownStep { effects, handle: None, next }
                } else {
                    push_signals(&mut effects, &self.children, true);
                    effects.push(Effect::SendForceful { pid: self.pid });
                    effects.push(Effect::Sleep { millis: POLL_INTERVAL_MS });
                    assert(effects@ =~= old(self)@.forceful_signals());
                    self.stage = Stage::ForcedWait { round: 1 };
                    let next = self.poll_targets();
                    ShutdownStep { effects, handle: None, next }
                }
            },
            Stage::ForcedWait { round } => {
                if !self.expected_statuses(&reply) {
                    self.stage = Stage::Done { graceful: false };
                    state.finish_shutdown();
                    ShutdownStep {
                        effects,
                        handle: None,
                        next: ShutdownNext::Finished { graceful: false },
                    }
                } else if round < FORCED_POLLS {
                    effects.push(Effect::Sleep { millis: POLL_INTERVAL_MS });
                    assert(effects@ =~= seq![nap()]);
                    self.stage = Stage::ForcedWait { round: round + 1 };
                    let next = self.poll_targets();
                    ShutdownStep { effects, handle: None, next }
                } else {
                    effects.push(Effect::KillByName);
                    assert(effects@ =~= seq![Effect::KillByName]);
                    self.stage = Stage::Done { graceful: false };
                    state.finish_shutdown();
                    ShutdownStep {
                        effects,
                        handle: None,
                        next: ShutdownNext::Finished { graceful: false },
                    }
                }
            },
            Stage::Done { graceful } => {
                state.finish_shutdown();
                ShutdownStep { effects, handle: None, next: ShutdownNext::Finished { graceful } }
            },
        }
    }
}

/// What is left to do when the program exits for good: a worker that is
/// still recorded then is killed, its children first.
pub open spec fn final_exit_plan(pid: u32) -> Seq<Effect> {
    if pid != 0 {
        seq![Effect::KillChildren { pid }, Effect::SendForceful { pid }]
    } else {
        Seq::empty()
    }
}

/// The effects of the last measure at the exit of the program. The state is
/// left as it is: nothing runs after them.
pub fn final_exit_effects<H>(state: &SupervisorState<H>) -> (effects: Vec<Effect>)
    ensures
        effects@ == final_exit_plan(state@.worker_pid),
{
    let mut effects: Vec<Effect> = Vec::new();
    let pid = state.worker_pid();
    if pid != 0 {
        effects.push(Effect::KillChildren { pid });
        effects.push(Effect::SendForceful { pid });
        assert(effects@ =~= final_exit_plan(pid));
    }
    effects
}

} // verus!
