//! The stale instance reaper.
//!
//! A worker that outlived an earlier run of the program may still hold the
//! port that the new worker is to get. Before a port is chosen, and once more
//! right before the worker is spawned, every process that carries the
//! worker's name is removed: asked to exit, given a short grace period, and
//! killed if it is still there. Finding such processes is expected after a
//! crash and is no error.
//!
//! The sweep is the same on every platform. The platform decides only by
//! which commands a signal is sent.

use vstd::prelude::*;
use crate::process::{Effect, Query, QueryView, Reply};

verus! {

/// The time a leftover process is given to exit after it was asked to, and
/// the time the system is given afterwards to release what the processes
/// held, in milliseconds.
pub const GRACE_PERIOD_MS: u64 = 500;

/// Where the reaper stands.
#[derive(Clone, Copy, Debug, PartialEq, Eq, Structural)]
pub enum ReaperStage {
    /// The processes that carry the worker's name were asked for.
    AwaitListing,
    /// The process with this number in the listing was asked to exit, and
    /// then polled.
    AwaitCheck { index: usize },
    /// Every listed process was dealt with.
    Done,
}

/// What follows the effects of a step.
#[derive(Clone, Debug, PartialEq, Eq)]
pub enum ReaperNext {
    /// The driver answers this question and hands the answer to
    /// [`Reaper::advance`].
    Ask(Query),
    /// The sweep has ended; `cleaned` processes were found and removed.
    Finished { cleaned: u32 },
}

/// The mathematical content of a [`ReaperNext`].
pub enum ReaperNextView {
    Ask(QueryView),
    Finished { cleaned: u32 },
}

impl View for ReaperNext {
    type V = ReaperNextView;

    open spec fn view(&self) -> ReaperNextView {
        match self {
            ReaperNext::Ask(q) => ReaperNextView::Ask(q@),
            ReaperNext::Finished { cleaned } => ReaperNextView::Finished { cleaned: *cleaned },
        }
    }
}

/// One step of the sweep, as the driver receives it.
#[derive(Clone, Debug, PartialEq, Eq)]
pub struct ReaperStep {
    /// What to do, in this order.
    pub effects: Vec<Effect>,
    /// What follows the effects.
    pub next: ReaperNext,
}

/// The decisions of one step: what is done, and what follows.
pub struct ReaperPlan {
    pub effects: Seq<Effect>,
    pub next: ReaperNextView,
}

impl View for ReaperStep {
    type V = ReaperPlan;

    open spec fn view(&self) -> ReaperPlan {
        ReaperPlan { effects: self.effects@, next: self.next@ }
    }
}

/// One sweep for leftover worker processes.
pub struct Reaper {
    found: Vec<u32>,
    stage: ReaperStage,
}

/// The mathematical content of a [`Reaper`].
pub struct ReaperView {
    /// The processes that the listing named.
    pub found: Seq<u32>,
    /// Where the reaper stands.
    pub stage: ReaperStage,
}

impl View for Reaper {
    type V = ReaperView;

    closed spec fn view(&self) -> ReaperView {
        ReaperView { found: self.found@, stage: self.stage }
    }
}

/// The wait of one grace period.
pub open spec fn grace() -> Effect {
    Effect::Sleep { millis: GRACE_PERIOD_MS }
}

/// The number of processes reported as cleaned when `n` were found.
pub open spec fn cleaned_count(n: nat) -> u32 {
    if n <= u32::MAX {
        n as u32
    } else {
        u32::MAX
    }
}

/// The forced kill of `pid` where it is still `running`, and nothing where
/// it is gone.
pub open spec fn kill_if(running: bool, pid: u32) -> Seq<Effect> {
    if running {
        seq![Effect::SendForceful { pid }]
    } else {
        Seq::empty()
    }
}

/// The wait that closes a sweep in which `n` processes were found: one more
/// grace period where there were any, for the system to release what they
/// held.
pub open spec fn closing_wait(n: nat) -> Seq<Effect> {
    if n > 0 {
        seq![grace()]
    } else {
        Seq::empty()
    }
}

impl ReaperView {
    /// The reaper as it starts.
    pub open spec fn begin() -> ReaperView {
        ReaperView { found: Seq::empty(), stage: ReaperStage::AwaitListing }
    }

    /// The first step: nothing is done but to ask which processes carry the
    /// worker's name.
    pub open spec fn begin_plan() -> ReaperPlan {
        ReaperPlan { effects: Seq::empty(), next: ReaperNextView::Ask(QueryView::ListByName) }
    }

    /// The end of the sweep: where anything was found, the system gets one
    /// more grace period.
    pub open spec fn finish(self, before: Seq<Effect>) -> ReaperPlan {
        ReaperPlan {
            effects: if self.found.len() > 0 {
                before.push(grace())
            } else {
                before
            },
            next: ReaperNextView::Finished { cleaned: cleaned_count(self.found.len()) },
        }
    }

    /// The step that turns to the process with number `index`: it is sent
    /// the graceful signal, given the grace period, and polled.
    pub open spec fn approach(self, before: Seq<Effect>, index: int) -> ReaperPlan {
        ReaperPlan {
            effects: before.push(Effect::SendGraceful { pid: self.found[index] }).push(grace()),
            next: ReaperNextView::Ask(QueryView::Poll { targets: seq![self.found[index]] }),
        }
    }

    /// The reaper after the listing `found`, and the step it decides on: the
    /// processes are taken one by one, starting with the first; with none
    /// found the sweep is over.
    pub open spec fn listed(self, found: Seq<u32>) -> (ReaperView, ReaperPlan) {
        let m = ReaperView { found, ..self };
        if found.len() == 0 {
            (ReaperView { stage: ReaperStage::Done, ..m }, m.finish(Seq::empty()))
        } else {
            (
                ReaperView { stage: ReaperStage::AwaitCheck { index: 0 }, ..m },
                m.approach(Seq::empty(), 0),
            )
        }
    }

    /// The reaper after the process with number `index` was polled, and the
    /// step it decides on: a process that is still there is killed; then the
    /// next one is turned to, or the sweep ends.
    pub open spec fn checked(self, index: usize, running: bool) -> (ReaperView, ReaperPlan) {
        let kill = if index < self.found.len() {
            kill_if(running, self.found[index as int])
        } else {
            Seq::empty()
        };
        if index + 1 < self.found.len() {
            (
                ReaperView {
                    stage: ReaperStage::AwaitCheck { index: (index + 1) as usize },
                    ..self
                },
                self.approach(kill, index + 1),
            )
        } else {
            (ReaperView { stage: ReaperStage::Done, ..self }, self.finish(kill))
        }
    }

    /// The reaper after `reply`, and the step it decides on.
    pub open spec fn next(self, reply: Reply) -> (ReaperView, ReaperPlan) {
        match self.stage {
            ReaperStage::AwaitListing => self.listed(reply.pids()),
            ReaperStage::AwaitCheck { index } => self.checked(index, reply.any_running(1)),
            ReaperStage::Done => (
                self,
                ReaperPlan {
                    effects: Seq::empty(),
                    next: ReaperNextView::Finished { cleaned: cleaned_count(self.found.len()) },
                },
            ),
        }
    }
}

impl Reaper {
    /// Starts a sweep.
    pub fn begin() -> (r: (Reaper, ReaperStep))
        ensures
            r.0@ == ReaperView::begin(),
            r.1@ == ReaperView::begin_plan(),
    {
        (
            Reaper { found: Vec::new(), stage: ReaperStage::AwaitListing },
            ReaperStep { effects: Vec::new(), next: ReaperNext::Ask(Query::ListByName) },
        )
    }

    fn cleaned(&self) -> (n: u32)
        ensures
            n == cleaned_count(self@.found.len()),
    {
        if self.found.len() <= u32::MAX as usize {
            self.found.len() as u32
        } else {
            u32::MAX
        }
    }

    fn finish(&self, effects: Vec<Effect>) -> (step: ReaperStep)
        ensures
            step@ == self@.finish(effects@),
    {
        let mut effects = effects;
        if self.found.len() > 0 {
            effects.push(Effect::Sleep { millis: GRACE_PERIOD_MS });
        }
        ReaperStep { effects, next: ReaperNext::Finished { cleaned: self.cleaned() } }
    }

    fn approach(&self, effects: Vec<Effect>, index: usize) -> (step: ReaperStep)
        requires
            index < self@.found.len(),
        ensures
            step@ == self@.approach(effects@, index as int),
    {
        let mut effects = effects;
        let pid = self.found[index];
        effects.push(Effect::SendGraceful { pid });
        effects.push(Effect::Sleep { millis: GRACE_PERIOD_MS });
        let mut targets: Vec<u32> = Vec::new();
        targets.push(pid);
        assert(targets@ =~= seq![pid]);
        ReaperStep { effects, next: ReaperNext::Ask(Query::Poll { targets }) }
    }

    /// Takes the answer to the question of the previous step and decides on
    /// the next step. After the end every further call reports the same
    /// count and asks for nothing.
    pub fn advance(&mut self, reply: Reply) -> (step: ReaperStep)
        ensures
            (final(self)@, step@) == old(self)@.next(reply),
    {
        let mut effects: Vec<Effect> = Vec::new();
        match self.stage {
            ReaperStage::AwaitListing => {
                self.found = reply.into_pids();
                if self.found.len() == 0 {
                    self.stage = ReaperStage::Done;
                    self.finish(effects)
                } else {
                    self.stage = ReaperStage::AwaitCheck { index: 0 };
                    self.approach(effects, 0)
                }
            },
            ReaperStage::AwaitCheck { index } => {
                if reply.reports_running(1) && index < self.found.len() {
                    effects.push(Effect::SendForceful { pid: self.found[index] });
                    assert(effects@ =~= kill_if(true, self.found@[index as int]));
                }
                if index < self.found.len() && index + 1 < self.found.len() {
                    self.stage = ReaperStage::AwaitCheck { index: index + 1 };
                    self.approach(effects, index + 1)
                } else {
                    self.stage = ReaperStage::Done;
                    self.finish(effects)
                }
            },
            ReaperStage::Done => ReaperStep {
                effects,
                next: ReaperNext::Finished { cleaned: self.cleaned() },
            },
        }
    }
}

/// The reaper after the replies, and everything it has asked the driver to
/// do up to then, in the order in which it was asked.
pub open spec fn swept(replies: Seq<Reply>) -> (ReaperView, Seq<Effect>)
    decreases replies.len(),
{
    if replies.len() == 0 {
        (ReaperView::begin(), ReaperView::begin_plan().effects)
    } else {
        let before = swept(replies.drop_last());
        let step = before.0.next(replies.last());
        (step.0, before.1 + step.1.effects)
    }
}

/// What is done about the first `k` of the processes `found`, one after the
/// other: each is sent the graceful signal, the grace period is waited, and
/// the process is killed where the poll that follows, whose answer is the
/// reply with its number plus one, finds it still there.
pub open spec fn dealt_with(found: Seq<u32>, replies: Seq<Reply>, k: int) -> Seq<Effect>
    decreases k,
{
    if k <= 0 {
        Seq::empty()
    } else {
        dealt_with(found, replies, k - 1) + seq![
            Effect::SendGraceful { pid: found[k - 1] },
            grace(),
        ] + kill_if(replies[k].any_running(1), found[k - 1])
    }
}

proof fn lemma_listing_fits(reply: Reply)
    ensures
        reply.pids().len() <= usize::MAX,
{
    match reply {
        Reply::Pids(v) => {
            assert(v.len() == v@.len());
        },
        Reply::Statuses(_) => {},
    }
}

/// The reaper keeps to the listing that the first reply gave, and takes one
/// more reply for each process that it polls. Up to any point it has dealt
/// with the processes before the one that it waits for, and has sent that
/// one the graceful signal.
pub proof fn lemma_sweep_progress(replies: Seq<Reply>)
    requires
        replies.len() >= 1,
    ensures
        swept(replies).0.found == replies[0].pids(),
        match swept(replies).0.stage {
            ReaperStage::AwaitListing => false,
            ReaperStage::AwaitCheck { index } => {
                &&& index + 1 == replies.len()
                &&& index < replies[0].pids().len()
                &&& swept(replies).1 == dealt_with(replies[0].pids(), replies, index as int) + seq![
                    Effect::SendGraceful { pid: replies[0].pids()[index as int] },
                    grace(),
                ]
            },
            ReaperStage::Done => {
                &&& replies.len() > replies[0].pids().len()
                &&& swept(replies).1 == ReaperView::finish(
                    swept(replies).0,
                    dealt_with(replies[0].pids(), replies, replies[0].pids().len() as int),
                ).effects
            },
        },
    decreases replies.len(),
{
    let found = replies[0].pids();
    lemma_listing_fits(replies[0]);
    let earlier = replies.drop_last();
    if replies.len() > 1 {
        lemma_sweep_progress(earlier);
        let before = swept(earlier);
        match before.0.stage {
            ReaperStage::AwaitCheck { index } => {
                let k = index as int;
                assert(replies.last() == replies[k + 1]);
                lemma_dealt_with_ignores_later(found, earlier, replies, k);
                let kill = kill_if(replies[k + 1].any_running(1), found[k]);
                let so_far = dealt_with(found, replies, k);
                let signal = seq![Effect::SendGraceful { pid: found[k] }, grace()];
                assert(dealt_with(found, replies, k + 1) == so_far + signal + kill);
                if k + 1 < found.len() {
                    assert(swept(replies).1 =~= dealt_with(found, replies, k + 1) + seq![
                        Effect::SendGraceful { pid: found[k + 1] },
                        grace(),
                    ]);
                } else {
                    assert(swept(replies).1 =~= dealt_with(found, replies, k + 1).push(grace()));
                }
            },
            _ => {
                lemma_dealt_with_ignores_later(found, earlier, replies, found.len() as int);
                assert(swept(replies).1 =~= before.1);
            },
        }
    } else {
        assert(earlier.len() == 0);
        assert(swept(earlier).0 == ReaperView::begin());
        assert(swept(earlier).1 =~= Seq::<Effect>::empty());
        if found.len() > 0 {
            assert(swept(replies).1 =~= dealt_with(found, replies, 0) + seq![
                Effect::SendGraceful { pid: found[0] },
                grace(),
            ]);
        } else {
            assert(swept(replies).1 =~= dealt_with(found, replies, 0));
        }
    }
}

/// What was done about the first `k` processes rests on the replies up to
/// number `k` only.
proof fn lemma_dealt_with_ignores_later(
    found: Seq<u32>,
    earlier: Seq<Reply>,
    replies: Seq<Reply>,
    k: int,
)
    requires
        k < earlier.len() <= replies.len(),
        forall|i: int| 0 <= i < earlier.len() ==> earlier[i] == replies[i],
    ensures
        dealt_with(found, earlier, k) == dealt_with(found, replies, k),
    decreases k,
{
    if k > 0 {
        lemma_dealt_with_ignores_later(found, earlier, replies, k - 1);
    }
}

/// A sweep deals with every process that the listing named, with no other,
/// and with each in the same way: the graceful signal first, then the grace
/// period, then the forced kill if and only if the process is still there.
/// It ends after the listing and one poll for each listed process, with one
/// more grace period where anything was found, and the count that it reports
/// is the number of processes listed.
pub proof fn lemma_sweep_ends(replies: Seq<Reply>)
    requires
        replies.len() > replies[0].pids().len(),
    ensures
        swept(replies).0.stage == ReaperStage::Done,
        swept(replies).0.next(replies.last()).1.next == (ReaperNextView::Finished {
            cleaned: cleaned_count(replies[0].pids().len()),
        }),
        swept(replies).1 == dealt_with(
            replies[0].pids(),
            replies,
            replies[0].pids().len() as int,
        ) + closing_wait(replies[0].pids().len()),
{
    lemma_sweep_progress(replies);
    let found = replies[0].pids();
    let all = dealt_with(found, replies, found.len() as int);
    if found.len() > 0 {
        assert(all.push(grace()) =~= all + seq![grace()]);
    } else {
        assert(all + Seq::<Effect>::empty() =~= all);
    }
}

} // verus!
