//! The health gate.
//!
//! After the worker was spawned nothing goes on until it answers on its
//! health endpoint, or until the budget of attempts is used up. A worker
//! that never answers is shut down, so that it does not keep the port.

use vstd::prelude::*;
use crate::decimal::{decimal, push_decimal};
use crate::process::Effect;
use crate::shutdown::{CoordinatorView, ShutdownCoordinator, ShutdownStep};
use crate::state::{SupervisorState, SupervisorView};
use crate::text::{chars_of, string_of};

verus! {

/// The time between two attempts, in milliseconds.
pub const HEALTH_POLL_INTERVAL_MS: u64 = 500;

/// The number of attempts made before the worker is given up.
pub const HEALTH_ATTEMPTS: u32 = 60;

/// What came of one request to the health endpoint.
#[derive(Clone, Copy, Debug, PartialEq, Eq, Structural)]
pub enum ProbeResult {
    /// A response arrived, with this status code.
    Status(u16),
    /// No response arrived: the connection was refused, timed out or broke.
    NoResponse,
}

/// How the wait for the worker ended.
#[derive(Clone, Copy, Debug, PartialEq, Eq, Structural)]
pub enum HealthOutcome {
    /// The worker answered with a success status.
    Ready,
    /// The budget of attempts was used up.
    TimedOut,
}

impl ProbeResult {
    /// The worker is ready: a response arrived whose status is one of
    /// success, 200 to 299. Anything else means "not yet".
    pub open spec fn is_success(self) -> bool {
        match self {
            ProbeResult::Status(code) => 200 <= code <= 299,
            ProbeResult::NoResponse => false,
        }
    }

    /// Tells whether the worker is ready, as [`ProbeResult::is_success`]
    /// defines it.
    pub fn is_ready(&self) -> (r: bool)
        ensures
            r == self.is_success(),
    {
        match self {
            ProbeResult::Status(code) => 200 <= *code && *code <= 299,
            ProbeResult::NoResponse => false,
        }
    }
}

/// The address of the health endpoint of the worker on `port`.
pub open spec fn health_endpoint(port: u16) -> Seq<char> {
    "http://127.0.0.1:"@ + decimal(port as nat) + "/api/health"@
}

/// The address of the health endpoint of the worker on `port`.
pub fn health_url(port: u16) -> (url: String)
    ensures
        url@ == health_endpoint(port),
{
    let mut chars = chars_of("http://127.0.0.1:");
    push_decimal(&mut chars, port as u64);
    let tail = chars_of("/api/health");
    let mut i: usize = 0;
    while i < tail.len()
        invariant
            i <= tail.len(),
            tail@ == "/api/health"@,
            chars@ == "http://127.0.0.1:"@ + decimal(port as nat) + tail@.take(i as int),
        decreases tail.len() - i,
    {
        chars.push(tail[i]);
        assert(tail@.take(i + 1) =~= tail@.take(i as int).push(tail@[i as int]));
        i += 1;
    }
    assert(tail@.take(tail.len() as int) =~= tail@);
    let len: usize = chars.len();
    assert(chars@.subrange(0, len as int) =~= chars@);
    string_of(&chars, 0, len)
}

/// The mathematical content of a [`HealthGate`].
pub struct GateView {
    /// The number of the attempt whose result is awaited, from 1.
    pub attempt: u32,
    /// How the wait ended, once it has.
    pub outcome: Option<HealthOutcome>,
}

/// The decisions of one step of the health gate.
pub struct GatePlan {
    /// The milliseconds to wait before anything else.
    pub wait: u64,
    /// How the wait for the worker ended; `None` while another attempt is
    /// to be made.
    pub outcome: Option<HealthOutcome>,
}

impl GateView {
    /// The health gate as it starts: the first attempt is to be made.
    pub open spec fn begin() -> GateView {
        GateView { attempt: 1, outcome: None }
    }

    /// The health gate after the result of the attempt in flight, and the step it
    /// decides on. A success ends the wait at once. After any other result
    /// the poll interval is waited; then the next attempt is made, or, after
    /// the last one, the worker is given up.
    pub open spec fn next(self, result: ProbeResult) -> (GateView, GatePlan) {
        if self.outcome is Some {
            (self, GatePlan { wait: 0, outcome: self.outcome })
        } else if result.is_success() {
            (
                GateView { outcome: Some(HealthOutcome::Ready), ..self },
                GatePlan { wait: 0, outcome: Some(HealthOutcome::Ready) },
            )
        } else if self.attempt < HEALTH_ATTEMPTS {
            (
                GateView { attempt: (self.attempt + 1) as u32, ..self },
                GatePlan { wait: HEALTH_POLL_INTERVAL_MS, outcome: None },
            )
        } else {
            (
                GateView { outcome: Some(HealthOutcome::TimedOut), ..self },
                GatePlan { wait: HEALTH_POLL_INTERVAL_MS, outcome: Some(HealthOutcome::TimedOut) },
            )
        }
    }

    /// The health gate after the results of the attempts made so far.
    pub open spec fn after(results: Seq<ProbeResult>) -> GateView
        decreases results.len(),
    {
        if results.len() == 0 {
            GateView::begin()
        } else {
            GateView::after(results.drop_last()).next(results.last()).0
        }
    }
}

/// One of the first `n` results is a success.
pub open spec fn ready_within(results: Seq<ProbeResult>, n: int) -> bool {
    exists|k: int| 0 <= k < n && k < results.len() && #[trigger] results[k].is_success()
}

/// How the wait ends, given the results of the attempts: ready with the
/// first success among the attempts of the budget, timed out when the
/// budget is used up without one, and open before that.
pub open spec fn verdict(results: Seq<ProbeResult>) -> Option<HealthOutcome> {
    if ready_within(results, HEALTH_ATTEMPTS as int) {
        Some(HealthOutcome::Ready)
    } else if results.len() >= HEALTH_ATTEMPTS {
        Some(HealthOutcome::TimedOut)
    } else {
        None
    }
}

/// What follows the effects of a step.
pub enum HealthNext<H> {
    /// The driver requests the health endpoint once more and hands the
    /// result to [`HealthGate::advance`].
    Probe,
    /// The worker is ready.
    Ready,
    /// The worker was given up. Where a worker was recorded, its shutdown
    /// has begun: the driver runs the coordinator from its first step to
    /// its end.
    TimedOut { cleanup: Option<(ShutdownCoordinator, ShutdownStep<H>)> },
}

impl<H> HealthNext<H> {
    /// How the wait ended, if it has.
    pub open spec fn outcome(self) -> Option<HealthOutcome> {
        match self {
            HealthNext::Probe => None,
            HealthNext::Ready => Some(HealthOutcome::Ready),
            HealthNext::TimedOut { .. } => Some(HealthOutcome::TimedOut),
        }
    }
}

/// One step of the health gate, as the driver receives it.
pub struct HealthStep<H> {
    /// What to do first, in this order.
    pub effects: Vec<Effect>,
    /// What follows the effects.
    pub next: HealthNext<H>,
}

impl<H> HealthStep<H> {
    /// The decisions that the step carries: how long it waits and how the
    /// wait for the worker ended. The shutdown that comes with giving the
    /// worker up is none of them; the contract of [`HealthGate::advance`]
    /// says what it is.
    pub open spec fn plan(self) -> GatePlan {
        GatePlan {
            wait: if self.effects@.len() == 0 {
                0
            } else {
                HEALTH_POLL_INTERVAL_MS
            },
            outcome: self.next.outcome(),
        }
    }
}

/// The supervisor's state after a step of the health gate. Only giving the worker
/// up changes it: the recorded process id is taken for the shutdown, and
/// where there is none, whatever else is recorded of a worker is cleared.
pub open spec fn state_after_gate<H>(s: SupervisorView<H>, plan: GatePlan) -> SupervisorView<H> {
    if plan.outcome == Some(HealthOutcome::TimedOut) {
        if s.worker_pid != 0 {
            SupervisorView { worker_pid: 0, ..s }
        } else {
            s.stopped()
        }
    } else {
        s
    }
}

/// The health gate for one launch of the worker.
pub struct HealthGate {
    attempt: u32,
    outcome: Option<HealthOutcome>,
}

impl View for HealthGate {
    type V = GateView;

    closed spec fn view(&self) -> GateView {
        GateView { attempt: self.attempt, outcome: self.outcome }
    }
}

impl HealthGate {
    /// Starts the wait. The driver makes the first request to the health
    /// endpoint and hands its result to [`HealthGate::advance`].
    pub fn begin() -> (gate: HealthGate)
        ensures
            gate@ == GateView::begin(),
    {
        HealthGate { attempt: 1, outcome: None }
    }

    /// How the wait ended, if it has.
    pub fn outcome(&self) -> (r: Option<HealthOutcome>)
        ensures
            r == self@.outcome,
    {
        self.outcome
    }

    /// Takes the result of the attempt in flight and decides on the next
    /// step.
    ///
    /// When the worker is given up, no process id is recorded in `state`
    /// afterwards: a recorded worker is handed to the shutdown coordinator,
    /// whose first step comes with the outcome.
    pub fn advance<H>(&mut self, state: &mut SupervisorState<H>, result: ProbeResult) -> (step:
        HealthStep<H>)
        ensures
            (final(self)@, step.plan()) == old(self)@.next(result),
            final(state)@ == state_after_gate(old(state)@, step.plan()),
            step.effects@ == if step.plan().wait == 0 {
                Seq::<Effect>::empty()
            } else {
                seq![Effect::Sleep { millis: HEALTH_POLL_INTERVAL_MS }]
            },
            step.next matches HealthNext::TimedOut { cleanup } ==> {
                &&& final(state)@.worker_pid == 0
                &&& cleanup is Some <==> old(state)@.worker_pid != 0
                &&& cleanup matches Some(c) ==> {
                    &&& c.0@ == CoordinatorView::begin(old(state)@.worker_pid)
                    &&& c.1.plan() == CoordinatorView::begin_plan(old(state)@.worker_pid)
                }
                &&& cleanup is None ==> final(state)@.is_clean()
            },
    {
        let mut effects: Vec<Effect> = Vec::new();
        match self.outcome {
            Some(HealthOutcome::Ready) => HealthStep { effects, next: HealthNext::Ready },
            Some(HealthOutcome::TimedOut) => {
                let step = self.give_up(state, effects);
                step
            },
            None => {
                if result.is_ready() {
                    self.outcome = Some(HealthOutcome::Ready);
                    HealthStep { effects, next: HealthNext::Ready }
                } else {
                    effects.push(Effect::Sleep { millis: HEALTH_POLL_INTERVAL_MS });
                    assert(effects@ =~= seq![Effect::Sleep { millis: HEALTH_POLL_INTERVAL_MS }]);
                    if self.attempt < HEALTH_ATTEMPTS {
                        self.attempt = self.attempt + 1;
                        HealthStep { effects, next: HealthNext::Probe }
                    } else {
                        self.outcome = Some(HealthOutcome::TimedOut);
                        self.give_up(state, effects)
                    }
                }
            },
        }
    }

    fn give_up<H>(&self, state: &mut SupervisorState<H>, effects: Vec<Effect>) -> (step: HealthStep<
        H,
    >)
        ensures
            step.effects == effects,
            final(state)@ == if old(state)@.worker_pid != 0 {
                SupervisorView { worker_pid: 0, ..old(state)@ }
            } else {
                old(state)@.stopped()
            },
            step.next matches HealthNext::TimedOut { cleanup } && {
                &&& final(state)@.worker_pid == 0
                &&& cleanup is Some <==> old(state)@.worker_pid != 0
                &&& cleanup matches Some(c) ==> {
                    &&& c.0@ == CoordinatorView::begin(old(state)@.worker_pid)
                    &&& c.1.plan() == CoordinatorView::begin_plan(old(state)@.worker_pid)
                }
                &&& cleanup is None ==> final(state)@.is_clean()
            },
    {
        if state.worker_pid() != 0 {
            let begun = ShutdownCoordinator::begin(state);
            HealthStep { effects, next: HealthNext::TimedOut { cleanup: Some(begun) } }
        } else {
            state.finish_shutdown();
            HealthStep { effects, next: HealthNext::TimedOut { cleanup: None } }
        }
    }
}

/// The health gate decides as the verdict says: it reports the worker ready with
/// the first success among the attempts of the budget, gives it up when the
/// budget is used up without one, and until then makes one attempt after the
/// other.
pub proof fn lemma_gate_follows_verdict(results: Seq<ProbeResult>)
    ensures
        GateView::after(results).outcome == verdict(results),
        verdict(results) is None ==> GateView::after(results).attempt == results.len() + 1,
    decreases results.len(),
{
    if results.len() > 0 {
        let before = results.drop_last();
        let budget = HEALTH_ATTEMPTS as int;
        lemma_gate_follows_verdict(before);
        assert(forall|k: int| 0 <= k < before.len() ==> results[k] == before[k]);
        if ready_within(before, budget) {
            let k = choose|k: int|
                0 <= k < budget && k < before.len() && #[trigger] before[k].is_success();
            assert(results[k].is_success());
        } else if results.last().is_success() && before.len() < budget {
            assert(results[before.len() as int].is_success());
        } else {
            assert forall|k: int| 0 <= k < budget && k < results.len() implies !(
            #[trigger] results[k].is_success()) by {
                if k < before.len() {
                    assert(!before[k].is_success());
                }
            }
        }
    }
}

/// A worker that never becomes healthy within the budget of attempts is
/// given up. By the contract of [`HealthGate::advance`] no process id is
/// recorded after the step that reports it.
pub proof fn lemma_never_healthy_times_out(results: Seq<ProbeResult>)
    requires
        results.len() >= HEALTH_ATTEMPTS,
        forall|k: int| 0 <= k < HEALTH_ATTEMPTS ==> !(#[trigger] results[k].is_success()),
    ensures
        GateView::after(results).outcome == Some(HealthOutcome::TimedOut),
{
    lemma_gate_follows_verdict(results);
}

} // verus!
