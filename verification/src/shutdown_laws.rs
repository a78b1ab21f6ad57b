//! What holds of every shutdown, whatever the operating system answers.
//!
//! A run of the coordinator is fixed by the worker's process id and by the
//! sequence of replies that its driver gives. The statements below hold for
//! every such sequence.

use vstd::prelude::*;
use crate::process::{lemma_marked_are_targets, signals_to, total_wait, Effect, Reply};
use crate::shutdown::{
    nap, CoordinatorView, Plan, ShutdownNextView, Stage, FORCED_POLLS, GRACEFUL_POLLS,
    POLL_INTERVAL_MS,
};

verus! {

/// The coordinator after the replies, and every step decided up to then:
/// one more than there are replies.
pub open spec fn run(pid: u32, replies: Seq<Reply>) -> (CoordinatorView, Seq<Plan>)
    decreases replies.len(),
{
    if replies.len() == 0 {
        (CoordinatorView::begin(pid), seq![CoordinatorView::begin_plan(pid)])
    } else {
        let before = run(pid, replies.drop_last());
        let step = before.0.next(replies.last());
        (step.0, before.1.push(step.1))
    }
}

/// The milliseconds that performing all of the steps waits.
pub open spec fn waited(plans: Seq<Plan>) -> nat
    decreases plans.len(),
{
    if plans.len() == 0 {
        0
    } else {
        waited(plans.drop_last()) + total_wait(plans.last().effects)
    }
}

/// The longest that a shutdown waits for a cooperative exit, in
/// milliseconds.
pub open spec fn graceful_budget() -> nat {
    (GRACEFUL_POLLS * POLL_INTERVAL_MS) as nat
}

/// The longest that a shutdown waits in all, in milliseconds: the graceful
/// budget and the slack for the forced kill to take effect.
pub open spec fn total_budget() -> nat {
    ((GRACEFUL_POLLS + FORCED_POLLS) * POLL_INTERVAL_MS) as nat
}

/// The coordinator `m` has taken `n` replies and waited `w` milliseconds,
/// and that much is in line with its stage.
pub open spec fn on_schedule(m: CoordinatorView, n: nat, w: nat) -> bool {
    match m.stage {
        Stage::AwaitSnapshot => n == 0 && w == 0,
        Stage::AwaitProbe => n == 1 && w == 0,
        Stage::AwaitOrphans => n == 2 && w == 0,
        Stage::GracefulWait { round } => {
            &&& 1 <= round <= GRACEFUL_POLLS
            &&& n == round + 1
            &&& w == round * POLL_INTERVAL_MS
        },
        Stage::ForcedWait { round } => {
            &&& 1 <= round <= FORCED_POLLS
            &&& n == GRACEFUL_POLLS + 1 + round
            &&& w == (GRACEFUL_POLLS + round) * POLL_INTERVAL_MS
        },
        Stage::Done { graceful } => if graceful {
            w <= graceful_budget()
        } else {
            graceful_budget() < w <= total_budget()
        },
    }
}

proof fn lemma_total_wait_concat(a: Seq<Effect>, b: Seq<Effect>)
    ensures
        total_wait(a + b) == total_wait(a) + total_wait(b),
    decreases b.len(),
{
    if b.len() == 0 {
        assert(a + b =~= a);
    } else {
        assert((a + b).drop_last() =~= a + b.drop_last());
        lemma_total_wait_concat(a, b.drop_last());
    }
}

proof fn lemma_signals_do_not_wait(pids: Seq<u32>, forceful: bool)
    ensures
        total_wait(signals_to(pids, forceful)) == 0,
    decreases pids.len(),
{
    if pids.len() > 0 {
        assert(signals_to(pids, forceful).drop_last() =~= signals_to(pids.drop_last(), forceful));
        lemma_signals_do_not_wait(pids.drop_last(), forceful);
    }
}

proof fn lemma_total_wait_short(a: Effect, b: Effect)
    ensures
        total_wait(Seq::<Effect>::empty()) == 0,
        total_wait(seq![a]) == a.waits(),
        total_wait(seq![a, b]) == a.waits() + b.waits(),
{
    assert(total_wait(Seq::<Effect>::empty()) == 0);
    assert(seq![a].drop_last() =~= Seq::<Effect>::empty());
    assert(seq![a].last() == a);
    assert(total_wait(seq![a]) == a.waits());
    assert(seq![a, b].drop_last() =~= seq![a]);
    assert(seq![a, b].last() == b);
}

/// A step waits one poll interval when it leads into a wait, and not at all
/// otherwise.
proof fn lemma_step_wait(m: CoordinatorView, reply: Reply)
    ensures
        total_wait(m.next(reply).1.effects) == match m.next(reply).0.stage {
            Stage::GracefulWait { .. } | Stage::ForcedWait { .. } => POLL_INTERVAL_MS as nat,
            _ => 0,
        },
{
    let plan = m.next(reply).1;
    lemma_total_wait_short(nap(), nap());
    lemma_total_wait_short(Effect::KillByName, nap());
    lemma_total_wait_short(Effect::KillHandle, Effect::SendGraceful { pid: m.pid });
    lemma_total_wait_short(Effect::SendForceful { pid: m.pid }, nap());
    lemma_signals_do_not_wait(m.children, true);
    lemma_signals_do_not_wait(m.children, false);
    lemma_signals_do_not_wait(reply.running_among(m.children), true);
    if plan.effects == m.graceful_signals() {
        let head = seq![Effect::KillHandle, Effect::SendGraceful { pid: m.pid }];
        lemma_total_wait_concat(head, signals_to(m.children, false));
        lemma_total_wait_concat(head + signals_to(m.children, false), seq![nap()]);
    }
    if plan.effects == m.forceful_signals() {
        lemma_total_wait_concat(
            signals_to(m.children, true),
            seq![Effect::SendForceful { pid: m.pid }, nap()],
        );
    }
}

/// Every run is on schedule.
pub proof fn lemma_run_on_schedule(pid: u32, replies: Seq<Reply>)
    ensures
        run(pid, replies).1.len() == replies.len() + 1,
        run(pid, replies).0.pid == pid,
        on_schedule(run(pid, replies).0, replies.len(), waited(run(pid, replies).1)),
    decreases replies.len(),
{
    if replies.len() == 0 {
        let plans = seq![CoordinatorView::begin_plan(pid)];
        assert(plans.drop_last() =~= Seq::<Plan>::empty());
        lemma_total_wait_short(Effect::KillByName, Effect::KillByName);
        assert(waited(plans.drop_last()) == 0);
    } else {
        let before = run(pid, replies.drop_last());
        lemma_run_on_schedule(pid, replies.drop_last());
        lemma_step_wait(before.0, replies.last());
        let step = before.0.next(replies.last());
        assert(before.1.push(step.1).drop_last() =~= before.1);
    }
}

/// A shutdown ends: after `GRACEFUL_POLLS + FORCED_POLLS + 2` replies at the
/// latest the outcome is known, whatever the replies were.
pub proof fn lemma_shutdown_ends(pid: u32, replies: Seq<Reply>)
    requires
        replies.len() >= GRACEFUL_POLLS + FORCED_POLLS + 2,
    ensures
        run(pid, replies).0.stage is Done,
{
    lemma_run_on_schedule(pid, replies);
}

/// A shutdown never waits longer than the graceful timeout and the slack
/// for the forced kill together. An outcome reported as graceful came within
/// the graceful timeout; one reported as forced came after it.
pub proof fn lemma_shutdown_wait_is_bounded(pid: u32, replies: Seq<Reply>)
    ensures
        waited(run(pid, replies).1) <= total_budget(),
        run(pid, replies).0.stage == (Stage::Done { graceful: true }) ==> waited(
            run(pid, replies).1,
        ) <= graceful_budget(),
        run(pid, replies).0.stage == (Stage::Done { graceful: false }) ==> waited(
            run(pid, replies).1,
        ) > graceful_budget(),
{
    lemma_run_on_schedule(pid, replies);
}

/// With no worker recorded the shutdown is a single step: the sweep by name
/// is made, and the outcome is reported as graceful.
pub proof fn lemma_shutdown_without_worker(replies: Seq<Reply>)
    ensures
        run(0, replies).1[0] == (Plan {
            effects: seq![Effect::KillByName],
            next: ShutdownNextView::Finished { graceful: true },
        }),
        run(0, replies).0.stage == (Stage::Done { graceful: true }),
    decreases replies.len(),
{
    if replies.len() > 0 {
        lemma_shutdown_without_worker(replies.drop_last());
        lemma_run_on_schedule(0, replies.drop_last());
    }
}

/// The steps decided after the first `n` replies do not depend on the
/// replies that follow.
pub proof fn lemma_run_extends(pid: u32, replies: Seq<Reply>, n: int)
    requires
        0 <= n <= replies.len(),
    ensures
        run(pid, replies).1.len() == replies.len() + 1,
        run(pid, replies.take(n)).1 == run(pid, replies).1.take(n + 1),
    decreases replies.len(),
{
    lemma_run_on_schedule(pid, replies);
    lemma_run_on_schedule(pid, replies.take(n));
    if n == replies.len() {
        assert(replies.take(n) =~= replies);
        assert(run(pid, replies).1.take(n + 1) =~= run(pid, replies).1);
    } else {
        lemma_run_extends(pid, replies.drop_last(), n);
        assert(replies.drop_last().take(n) =~= replies.take(n));
        assert(run(pid, replies).1.take(n + 1) =~= run(pid, replies.drop_last()).1.take(n + 1));
    }
}

/// The coordinator keeps the list of children that the first reply gave.
pub proof fn lemma_children_are_snapshot(pid: u32, replies: Seq<Reply>)
    requires
        pid != 0,
        replies.len() >= 1,
    ensures
        run(pid, replies).0.children == replies[0].pids(),
    decreases replies.len(),
{
    lemma_run_on_schedule(pid, replies.drop_last());
    if replies.len() > 1 {
        lemma_children_are_snapshot(pid, replies.drop_last());
    }
}

/// Nothing is signalled before the children of the worker were listed and
/// the worker was looked at, and every signal that names a process goes to
/// the worker or to one of the children listed then.
///
/// `i` is the number of a step and `j` that of an effect in it; the step
/// with number `i` answers the reply with number `i - 1`.
pub proof fn lemma_signals_follow_snapshot(pid: u32, replies: Seq<Reply>, i: int, j: int)
    requires
        pid != 0,
        0 <= i <= replies.len(),
        0 <= j < run(pid, replies).1[i].effects.len(),
        run(pid, replies).1[i].effects[j].is_signal(),
    ensures
        i >= 2,
        forall|t: u32| #[trigger]
            run(pid, replies).1[i].effects[j].signals(t) ==> t == pid || replies[0].pids().contains(
                t,
            ),
    decreases replies.len(),
{
    lemma_run_on_schedule(pid, replies);
    if i < replies.len() {
        lemma_run_on_schedule(pid, replies.drop_last());
        lemma_signals_follow_snapshot(pid, replies.drop_last(), i, j);
    } else if replies.len() > 0 {
        let before = run(pid, replies.drop_last());
        lemma_run_on_schedule(pid, replies.drop_last());
        if replies.len() > 1 {
            lemma_children_are_snapshot(pid, replies.drop_last());
        }
        let plan = before.0.next(replies.last()).1;
        assert(run(pid, replies).1[i] == plan);
        let e = plan.effects[j];
        assert forall|t: u32| #[trigger] e.signals(t) implies t == pid
            || replies[0].pids().contains(t) by {
            let graceful = signals_to(before.0.children, false);
            let forceful = signals_to(before.0.children, true);
            if plan.effects == before.0.graceful_signals() && 2 <= j < 2 + graceful.len() {
                assert(e == graceful[j - 2]);
                assert(before.0.children[j - 2] == t);
            }
            if plan.effects == before.0.forceful_signals() && j < forceful.len() {
                assert(e == forceful[j]);
                assert(before.0.children[j] == t);
            }
            if before.0.stage is AwaitOrphans {
                let left = replies.last().running_among(before.0.children);
                assert(e == signals_to(left, true)[j]);
                assert(left[j] == t);
                match replies.last() {
                    Reply::Statuses(v) => {
                        if v@.len() == before.0.children.len() {
                            lemma_marked_are_targets(before.0.children, v@, j);
                        }
                    },
                    Reply::Pids(_) => {},
                }
            }
        }
    }
}

/// While every look of the graceful wait finds something left, the wait
/// goes on, round by round.
proof fn lemma_graceful_rounds(pid: u32, replies: Seq<Reply>, n: int)
    requires
        pid != 0,
        2 <= n <= GRACEFUL_POLLS + 1,
        n <= replies.len(),
        replies[1].any_running(1),
        forall|k: int|
            2 <= k < n ==> #[trigger] replies[k].any_running(1 + replies[0].pids().len()),
    ensures
        run(pid, replies.take(n)).0 == (CoordinatorView {
            pid,
            children: replies[0].pids(),
            stage: Stage::GracefulWait { round: (n - 1) as u32 },
        }),
    decreases n,
{
    let now = replies.take(n);
    assert(now.drop_last() =~= replies.take(n - 1));
    assert(now.last() == replies[n - 1]);
    if n == 2 {
        let one = replies.take(1);
        assert(one.drop_last() =~= Seq::<Reply>::empty());
        assert(one.last() == replies[0]);
        assert(run(pid, Seq::<Reply>::empty()).0 == CoordinatorView::begin(pid));
        assert(run(pid, one).0 == (CoordinatorView {
            pid,
            children: replies[0].pids(),
            stage: Stage::AwaitProbe,
        }));
    } else {
        lemma_graceful_rounds(pid, replies, n - 1);
        assert(replies[n - 1].any_running(1 + replies[0].pids().len()));
    }
}

/// Once the forced kills are out the outcome can only be the forced one.
proof fn lemma_forced_stays(pid: u32, replies: Seq<Reply>, n: int)
    requires
        0 <= n <= replies.len(),
        run(pid, replies.take(n)).0.stage is ForcedWait,
    ensures
        run(pid, replies).0.stage is ForcedWait || run(pid, replies).0.stage == (Stage::Done {
            graceful: false,
        }),
    decreases replies.len(),
{
    if n == replies.len() {
        assert(replies.take(n) =~= replies);
    } else {
        assert(replies.drop_last().take(n) =~= replies.take(n));
        lemma_forced_stays(pid, replies.drop_last(), n);
    }
}

/// A worker that ignores the cooperative signal is killed by force, and the
/// outcome is reported as forced.
///
/// Where the worker is found running before the signals, and something is
/// left at every look of the graceful wait, the step after the last of those
/// looks kills each listed child and then the worker unconditionally; and
/// whenever the outcome is known after that, it is the forced one. By
/// [`lemma_shutdown_wait_is_bounded`] it is known within the total budget.
pub proof fn lemma_unresponsive_worker_is_forced(pid: u32, replies: Seq<Reply>)
    requires
        pid != 0,
        replies.len() >= GRACEFUL_POLLS + 2,
        replies[1].any_running(1),
        forall|k: int|
            2 <= k < GRACEFUL_POLLS + 2 ==> #[trigger] replies[k].any_running(
                1 + replies[0].pids().len(),
            ),
    ensures
        run(pid, replies).1[GRACEFUL_POLLS + 2].effects == signals_to(replies[0].pids(), true)
            + seq![Effect::SendForceful { pid }, nap()],
        run(pid, replies).0.stage is Done ==> run(pid, replies).0.stage == (Stage::Done {
            graceful: false,
        }),
{
    let n = GRACEFUL_POLLS + 1;
    lemma_graceful_rounds(pid, replies, n as int);
    let upto = replies.take(n + 1);
    assert(upto.drop_last() =~= replies.take(n as int));
    assert(upto.last() == replies[n as int]);
    assert(replies[n as int].any_running(1 + replies[0].pids().len()));
    let before = run(pid, replies.take(n as int));
    assert(before.0.targets().len() == 1 + replies[0].pids().len());
    assert(run(pid, upto).0.stage == (Stage::ForcedWait { round: 1 }));
    lemma_run_on_schedule(pid, replies.take(n as int));
    assert(run(pid, upto).1.last().effects == before.0.forceful_signals());
    lemma_run_extends(pid, replies, n + 1);
    assert(run(pid, replies).1.take(n + 2)[n + 1] == run(pid, replies).1[n + 1]);
    lemma_forced_stays(pid, replies, n + 1);
}

/// An outcome, once known, stays as it is.
proof fn lemma_outcome_stays(pid: u32, replies: Seq<Reply>, n: int)
    requires
        0 <= n <= replies.len(),
        run(pid, replies.take(n)).0.stage is Done,
    ensures
        run(pid, replies).0.stage == run(pid, replies.take(n)).0.stage,
    decreases replies.len(),
{
    if n == replies.len() {
        assert(replies.take(n) =~= replies);
    } else {
        assert(replies.drop_last().take(n) =~= replies.take(n));
        lemma_outcome_stays(pid, replies.drop_last(), n);
    }
}

/// A worker that exits within the graceful timeout is reported as graceful.
///
/// Where the worker is found running before the signals, and look number
/// `k` of the graceful wait is the first to find nothing left, the outcome is
/// the graceful one, and it is known after `k` poll intervals.
pub proof fn lemma_cooperative_worker_is_graceful(pid: u32, replies: Seq<Reply>, k: int)
    requires
        pid != 0,
        1 <= k <= GRACEFUL_POLLS,
        replies.len() >= k + 2,
        replies[1].any_running(1),
        forall|j: int|
            2 <= j < k + 1 ==> #[trigger] replies[j].any_running(1 + replies[0].pids().len()),
        !replies[k + 1].any_running(1 + replies[0].pids().len()),
    ensures
        run(pid, replies).0.stage == (Stage::Done { graceful: true }),
        waited(run(pid, replies.take(k + 2)).1) == k * POLL_INTERVAL_MS,
{
    lemma_graceful_rounds(pid, replies, k + 1);
    let upto = replies.take(k + 2);
    assert(upto.drop_last() =~= replies.take(k + 1));
    assert(upto.last() == replies[k + 1]);
    let before = run(pid, replies.take(k + 1));
    assert(before.0.targets().len() == 1 + replies[0].pids().len());
    assert(run(pid, upto).0.stage == (Stage::Done { graceful: true }));
    lemma_run_on_schedule(pid, replies.take(k + 1));
    lemma_step_wait(before.0, replies[k + 1]);
    assert(run(pid, upto).1.drop_last() =~= before.1);
    lemma_outcome_stays(pid, replies, k + 2);
}

} // verus!
