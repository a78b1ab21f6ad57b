//! The vocabulary between the supervisor's decisions and the operating
//! system.
//!
//! The supervisor never touches a process itself. It hands its driver a list
//! of effects to perform in order, and at most one question to answer; the
//! driver answers with a [`Reply`]. The effects and questions are the
//! primitives of process inspection, the same on every platform.

use vstd::prelude::*;

verus! {

/// Something the driver has to do. Effects report nothing back.
#[derive(Clone, Copy, Debug, PartialEq, Eq, Structural)]
pub enum Effect {
    /// Invoke the kill primitive of the worker's owned handle, if there is one.
    KillHandle,
    /// Ask a process and its children to terminate.
    SendGraceful { pid: u32 },
    /// Terminate a process and its tree unconditionally.
    SendForceful { pid: u32 },
    /// Terminate the children of a process unconditionally.
    KillChildren { pid: u32 },
    /// Terminate every process that carries the worker's name.
    KillByName,
    /// Wait for the given number of milliseconds.
    Sleep { millis: u64 },
}

impl Effect {
    /// The effect sends a termination signal to the process `pid`.
    pub open spec fn signals(self, pid: u32) -> bool {
        ||| self == Effect::SendGraceful { pid }
        ||| self == Effect::SendForceful { pid }
        ||| self == Effect::KillChildren { pid }
    }

    /// The effect terminates something: a process by its id, the owned
    /// handle, or whatever carries the worker's name.
    pub open spec fn is_signal(self) -> bool {
        !(self is Sleep)
    }

    /// The milliseconds that performing the effect waits.
    pub open spec fn waits(self) -> nat {
        match self {
            Effect::Sleep { millis } => millis as nat,
            _ => 0,
        }
    }
}

/// The milliseconds that performing all of `effects` waits.
pub open spec fn total_wait(effects: Seq<Effect>) -> nat
    decreases effects.len(),
{
    if effects.len() == 0 {
        0
    } else {
        total_wait(effects.drop_last()) + effects.last().waits()
    }
}

/// A question to the operating system.
#[derive(Clone, Debug, PartialEq, Eq)]
pub enum Query {
    /// Which processes are direct children of `pid` right now?
    ListChildren { pid: u32 },
    /// Which processes carry the worker's name right now?
    ListByName,
    /// Which of these processes exist right now? One answer per target, in
    /// the order of the targets.
    Poll { targets: Vec<u32> },
}

/// The mathematical content of a [`Query`].
pub enum QueryView {
    ListChildren { pid: u32 },
    ListByName,
    Poll { targets: Seq<u32> },
}

impl View for Query {
    type V = QueryView;

    open spec fn view(&self) -> QueryView {
        match self {
            Query::ListChildren { pid } => QueryView::ListChildren { pid: *pid },
            Query::ListByName => QueryView::ListByName,
            Query::Poll { targets } => QueryView::Poll { targets: targets@ },
        }
    }
}

/// Those of `targets` whose mark is set, in their order. The marks go with
/// the targets one by one.
pub open spec fn marked(targets: Seq<u32>, marks: Seq<bool>) -> Seq<u32>
    decreases targets.len(),
{
    if targets.len() == 0 || marks.len() != targets.len() {
        Seq::empty()
    } else {
        marked(targets.drop_last(), marks.drop_last()) + if marks.last() {
            seq![targets.last()]
        } else {
            Seq::empty()
        }
    }
}

/// Only targets are marked.
pub proof fn lemma_marked_are_targets(targets: Seq<u32>, marks: Seq<bool>, i: int)
    requires
        0 <= i < marked(targets, marks).len(),
    ensures
        targets.contains(marked(targets, marks)[i]),
    decreases targets.len(),
{
    if targets.len() > 0 && marks.len() == targets.len() {
        let earlier = marked(targets.drop_last(), marks.drop_last());
        if i < earlier.len() {
            lemma_marked_are_targets(targets.drop_last(), marks.drop_last(), i);
            let j = choose|j: int|
                0 <= j < targets.drop_last().len() && targets.drop_last()[j] == earlier[i];
            assert(targets[j] == earlier[i]);
        } else {
            assert(targets[targets.len() - 1] == targets.last());
        }
    }
}

fn any_true(v: &Vec<bool>) -> (r: bool)
    ensures
        r == v@.contains(true),
{
    let mut i: usize = 0;
    while i < v.len()
        invariant
            i <= v.len(),
            forall|k: int| 0 <= k < i ==> !v@[k],
        decreases v.len() - i,
    {
        if v[i] {
            assert(v@[i as int] == true);
            return true;
        }
        i += 1;
    }
    false
}

/// The driver's answer to a [`Query`].
#[derive(Clone, Debug, PartialEq, Eq)]
pub enum Reply {
    /// The process ids found, in answer to a listing.
    Pids(Vec<u32>),
    /// For each polled target in turn, whether it exists.
    Statuses(Vec<bool>),
}

impl Reply {
    /// The process ids that the reply names. A reply of the wrong kind names
    /// none.
    pub open spec fn pids(self) -> Seq<u32> {
        match self {
            Reply::Pids(v) => v@,
            Reply::Statuses(_) => Seq::empty(),
        }
    }

    /// Some polled target may still exist. Only a reply that reports each of
    /// the `expected` targets as gone says that none does.
    pub open spec fn any_running(self, expected: nat) -> bool {
        match self {
            Reply::Pids(_) => true,
            Reply::Statuses(v) => v@.len() != expected || v@.contains(true),
        }
    }

    /// Those of the polled `targets` that may still exist: the ones that
    /// the reply reports as existing, where it reports on each of them, and
    /// all of them otherwise.
    pub open spec fn running_among(self, targets: Seq<u32>) -> Seq<u32> {
        match self {
            Reply::Pids(_) => targets,
            Reply::Statuses(v) => if v@.len() == targets.len() {
                marked(targets, v@)
            } else {
                targets
            },
        }
    }

    /// Those of the polled `targets` that may still exist, as
    /// [`Reply::running_among`] defines them.
    pub fn running_targets(&self, targets: &Vec<u32>) -> (out: Vec<u32>)
        ensures
            out@ == self.running_among(targets@),
    {
        let mut out: Vec<u32> = Vec::new();
        let mut i: usize = 0;
        match self {
            Reply::Statuses(v) => {
                if v.len() == targets.len() {
                    while i < targets.len()
                        invariant
                            i <= targets.len(),
                            v.len() == targets.len(),
                            out@ == marked(targets@.take(i as int), v@.take(i as int)),
                        decreases targets.len() - i,
                    {
                        assert(targets@.take(i + 1).drop_last() =~= targets@.take(i as int));
                        assert(v@.take(i + 1).drop_last() =~= v@.take(i as int));
                        if v[i] {
                            out.push(targets[i]);
                        }
                        i += 1;
                    }
                    assert(targets@.take(i as int) =~= targets@);
                    assert(v@.take(i as int) =~= v@);
                    return out;
                }
            },
            Reply::Pids(_) => {},
        }
        while i < targets.len()
            invariant
                i <= targets.len(),
                out@ == targets@.take(i as int),
            decreases targets.len() - i,
        {
            out.push(targets[i]);
            i += 1;
        }
        assert(targets@.take(i as int) =~= targets@);
        out
    }

    /// Some polled target may still exist, as [`Reply::any_running`] defines
    /// it.
    pub fn reports_running(&self, expected: usize) -> (r: bool)
        ensures
            r == self.any_running(expected as nat),
    {
        match self {
            Reply::Pids(_) => true,
            Reply::Statuses(v) => v.len() != expected || any_true(v),
        }
    }

    /// The process ids that the reply names, as [`Reply::pids`] defines them.
    pub fn into_pids(self) -> (out: Vec<u32>)
        ensures
            out@ == self.pids(),
    {
        match self {
            Reply::Pids(v) => v,
            Reply::Statuses(_) => Vec::new(),
        }
    }
}

/// Appends to `effects`, for each of `pids` in turn, the request to
/// terminate it, cooperative or forceful.
pub fn push_signals(effects: &mut Vec<Effect>, pids: &Vec<u32>, forceful: bool)
    ensures
        final(effects)@ == old(effects)@ + signals_to(pids@, forceful),
{
    let mut i: usize = 0;
    while i < pids.len()
        invariant
            i <= pids.len(),
            effects@ == old(effects)@ + signals_to(pids@.take(i as int), forceful),
        decreases pids.len() - i,
    {
        let pid = pids[i];
        let effect = if forceful {
            Effect::SendForceful { pid }
        } else {
            Effect::SendGraceful { pid }
        };
        effects.push(effect);
        assert(signals_to(pids@.take(i + 1), forceful) == signals_to(
            pids@.take(i as int),
            forceful,
        ).push(signal_to(pid, forceful)));
        i += 1;
    }
    assert(pids@.take(pids.len() as int) == pids@);
}

/// The request to terminate `pid`, cooperative or forceful.
pub open spec fn signal_to(pid: u32, forceful: bool) -> Effect {
    if forceful {
        Effect::SendForceful { pid }
    } else {
        Effect::SendGraceful { pid }
    }
}

/// The requests to terminate each of `pids`, in their order.
pub open spec fn signals_to(pids: Seq<u32>, forceful: bool) -> Seq<Effect> {
    Seq::new(pids.len(), |i: int| signal_to(pids[i], forceful))
}

} // verus!
