//! The port allocator.
//!
//! A port that a hint source calls unused may be taken a moment later. So
//! every hinted port is verified: the driver binds a loopback listener to it
//! and releases it at once. After a bounded number of hints the operating
//! system is asked to assign a port itself, by binding port 0. Only a port
//! that was bound is ever chosen.
//!
//! The hint source is the one thing that this crate asks of the operating
//! system itself: it tries sockets to find a port that is free.

use vstd::prelude::*;

verus! {

/// The number of hints that are asked for before the operating system
/// assigns a port.
pub const PORT_ATTEMPTS: u32 = 10;

/// Asks `portpicker::pick_unused_port` for a port that nothing uses right
/// now. The answer depends on what else runs on the machine and on chance,
/// so nothing is claimed of it: there may be none, and the port named may be
/// taken by the time it is used.
#[verifier::external_body]
fn pick_port_hint() -> (hint: Option<u16>) {
    portpicker::pick_unused_port()
}

/// What came of binding a loopback listener.
#[derive(Clone, Copy, Debug, PartialEq, Eq, Structural)]
pub enum BindResult {
    /// The listener was bound, to this port.
    Bound(u16),
    /// The port could not be bound.
    Failed,
}

/// How the allocation ended.
#[derive(Clone, Copy, Debug, PartialEq, Eq, Structural)]
pub enum PortOutcome {
    /// This port was bound a moment ago and is free again.
    Chosen(u16),
    /// Not even the operating system's own choice could be bound. The
    /// program cannot start.
    Fatal,
}

/// What the driver has to do next.
#[derive(Clone, Copy, Debug, PartialEq, Eq, Structural)]
pub enum PortStep {
    /// Bind a loopback listener to `port`, release it, and hand the result
    /// to [`PortAllocator::advance`]. Port 0 lets the operating system
    /// choose.
    TryBind { port: u16 },
    /// The allocation has ended.
    Finished(PortOutcome),
}

/// Where the allocator stands.
#[derive(Clone, Copy, Debug, PartialEq, Eq, Structural)]
pub enum PortStage {
    /// A hint is to be asked for.
    Picking,
    /// The hinted port is being verified.
    Verifying { port: u16 },
    /// The operating system is choosing.
    Fallback,
    /// The allocation has ended.
    Done(PortOutcome),
}

impl PortStage {
    /// The step that the driver owes at this stage; none while a hint is to
    /// be asked for.
    pub open spec fn owed(self) -> Option<PortStep> {
        match self {
            PortStage::Picking => None,
            PortStage::Verifying { port } => Some(PortStep::TryBind { port }),
            PortStage::Fallback => Some(PortStep::TryBind { port: 0 }),
            PortStage::Done(outcome) => Some(PortStep::Finished(outcome)),
        }
    }
}

/// The mathematical content of a [`PortAllocator`].
pub struct PortView {
    /// The number of hints asked for so far.
    pub attempts: u32,
    /// Where the allocator stands.
    pub stage: PortStage,
}

impl PortView {
    /// The allocator as it starts: no hint was asked for yet.
    pub open spec fn begin() -> PortView {
        PortView { attempts: 0, stage: PortStage::Picking }
    }

    /// The allocator is in order: no more hints were asked for than the
    /// attempts allow, and one more is asked for only while attempts are
    /// left.
    pub open spec fn in_order(self) -> bool {
        &&& self.attempts <= PORT_ATTEMPTS
        &&& self.stage is Picking ==> self.attempts < PORT_ATTEMPTS
    }

    /// The allocator when no usable hint is at hand: the next hint is asked
    /// for while attempts are left, and after that the operating system
    /// chooses.
    pub open spec fn without_hint(self) -> PortView {
        if self.attempts < PORT_ATTEMPTS {
            PortView { stage: PortStage::Picking, ..self }
        } else {
            PortView { stage: PortStage::Fallback, ..self }
        }
    }

    /// The allocator after the hint source answered with `hint`. A hint
    /// counts only where one was asked for: it uses up an attempt, and the
    /// port that it names is verified. An allocator that waits for a bind,
    /// or that has ended, stays as it is.
    pub open spec fn hinted(self, hint: Option<u16>) -> PortView {
        if self.stage is Picking {
            let used = PortView { attempts: (self.attempts + 1) as u32, ..self };
            match hint {
                Some(port) => PortView { stage: PortStage::Verifying { port }, ..used },
                None => used.without_hint(),
            }
        } else {
            self
        }
    }

    /// The allocator after the result of a bind. A hinted port that was
    /// bound is chosen; for one that was not, hints are asked for again. The
    /// port that the operating system assigned is chosen; if it assigned
    /// none, nothing more can be tried. An allocator that waits for no bind
    /// stays as it is.
    pub open spec fn bound(self, result: BindResult) -> PortView {
        match self.stage {
            PortStage::Picking => self,
            PortStage::Verifying { port } => match result {
                BindResult::Bound(_) => PortView {
                    stage: PortStage::Done(PortOutcome::Chosen(port)),
                    ..self
                },
                BindResult::Failed => self.without_hint(),
            },
            PortStage::Fallback => PortView {
                stage: PortStage::Done(
                    match result {
                        BindResult::Bound(port) => PortOutcome::Chosen(port),
                        BindResult::Failed => PortOutcome::Fatal,
                    },
                ),
                ..self
            },
            PortStage::Done(_) => self,
        }
    }

    /// The allocator `self` is what comes of asking for hints in the state
    /// `before`, in which one was to be asked for: either a hinted port is
    /// to be verified, one of the attempts that were left having given it;
    /// or the attempts are used up and the operating system is to choose.
    pub open spec fn follows_hints(self, before: PortView) -> bool {
        ||| {
            &&& self.stage is Verifying
            &&& before.attempts < self.attempts <= PORT_ATTEMPTS
        }
        ||| {
            &&& self.stage is Fallback
            &&& before.attempts < self.attempts == PORT_ATTEMPTS
        }
    }
}

/// One allocation of a port.
pub struct PortAllocator {
    attempts: u32,
    stage: PortStage,
}

impl View for PortAllocator {
    type V = PortView;

    closed spec fn view(&self) -> PortView {
        PortView { attempts: self.attempts, stage: self.stage }
    }
}

impl PortAllocator {
    #[verifier::type_invariant]
    spec fn in_order(self) -> bool {
        &&& self.attempts <= PORT_ATTEMPTS
        &&& self.stage is Picking ==> self.attempts < PORT_ATTEMPTS
    }

    /// An allocation for which no hint was asked for yet.
    pub fn new() -> (allocator: PortAllocator)
        ensures
            allocator@ == PortView::begin(),
    {
        PortAllocator { attempts: 0, stage: PortStage::Picking }
    }

    /// Starts an allocation and asks for the first candidate.
    pub fn begin() -> (r: (PortAllocator, PortStep))
        ensures
            r.0@.follows_hints(PortView::begin()),
            r.0@.stage.owed() == Some(r.1),
    {
        let mut allocator = PortAllocator::new();
        let step = allocator.next_candidate();
        (allocator, step)
    }

    /// How the allocation ended, if it has.
    pub fn outcome(&self) -> (r: Option<PortOutcome>)
        ensures
            r == match self@.stage {
                PortStage::Done(outcome) => Some(outcome),
                _ => None,
            },
    {
        match self.stage {
            PortStage::Done(outcome) => Some(outcome),
            _ => None,
        }
    }

    /// The step that the driver owes; `None` while a hint is to be asked
    /// for.
    pub fn owed_step(&self) -> (step: Option<PortStep>)
        ensures
            step == self@.stage.owed(),
            self@.in_order(),
    {
        proof {
            use_type_invariant(self);
        }
        match self.stage {
            PortStage::Picking => None,
            PortStage::Verifying { port } => Some(PortStep::TryBind { port }),
            PortStage::Fallback => Some(PortStep::TryBind { port: 0 }),
            PortStage::Done(outcome) => Some(PortStep::Finished(outcome)),
        }
    }

    fn without_hint(&mut self)
        requires
            old(self).attempts <= PORT_ATTEMPTS,
            !(old(self).stage is Picking),
        ensures
            final(self)@ == old(self)@.without_hint(),
    {
        if self.attempts < PORT_ATTEMPTS {
            self.stage = PortStage::Picking;
        } else {
            self.stage = PortStage::Fallback;
        }
    }

    /// Takes the answer of the hint source. Returns the step that is owed
    /// then, or `None` where the next hint is to be asked for.
    pub fn on_hint(&mut self, hint: Option<u16>) -> (step: Option<PortStep>)
        ensures
            final(self)@ == old(self)@.hinted(hint),
            step == final(self)@.stage.owed(),
            final(self)@.in_order(),
    {
        proof {
            use_type_invariant(&*self);
        }
        match self.stage {
            PortStage::Picking => {
                match hint {
                    Some(port) => {
                        self.stage = PortStage::Verifying { port };
                        self.attempts = self.attempts + 1;
                    },
                    None => {
                        if self.attempts + 1 < PORT_ATTEMPTS {
                            self.attempts = self.attempts + 1;
                        } else {
                            self.stage = PortStage::Fallback;
                            self.attempts = self.attempts + 1;
                        }
                    },
                }
            },
            _ => {},
        }
        self.owed_step()
    }

    /// Takes the result of the bind that the previous step asked for.
    /// Returns the step that is owed then, or `None` where a hint is to be
    /// asked for.
    pub fn on_bind(&mut self, result: BindResult) -> (step: Option<PortStep>)
        ensures
            final(self)@ == old(self)@.bound(result),
            step == final(self)@.stage.owed(),
            final(self)@.in_order(),
    {
        proof {
            use_type_invariant(&*self);
        }
        match self.stage {
            PortStage::Verifying { port } => match result {
                BindResult::Bound(_) => {
                    self.stage = PortStage::Done(PortOutcome::Chosen(port));
                },
                BindResult::Failed => {
                    self.without_hint();
                },
            },
            PortStage::Fallback => {
                let outcome = match result {
                    BindResult::Bound(port) => PortOutcome::Chosen(port),
                    BindResult::Failed => PortOutcome::Fatal,
                };
                self.stage = PortStage::Done(outcome);
            },
            _ => {},
        }
        self.owed_step()
    }

    /// Asks for hints until one names a port or the attempts are used up.
    fn next_candidate(&mut self) -> (step: PortStep)
        requires
            old(self)@.stage is Picking,
        ensures
            final(self)@.follows_hints(old(self)@),
            final(self)@.stage.owed() == Some(step),
    {
        loop
            invariant
                self@.stage is Picking,
                old(self)@.attempts <= self@.attempts,
            decreases PORT_ATTEMPTS - self.attempts,
        {
            proof {
                use_type_invariant(&*self);
            }
            let hint = pick_port_hint();
            match self.on_hint(hint) {
                Some(step) => {
                    return step;
                },
                None => {},
            }
        }
    }

    /// Takes the result of the bind that the previous step asked for and
    /// decides on the next step.
    ///
    /// Where the result decides the allocation, the step reports the
    /// outcome. Where a hinted port could not be bound, the next candidate
    /// is asked for, as far as attempts are left. No more than
    /// [`PORT_ATTEMPTS`] hints are ever asked for.
    pub fn advance(&mut self, result: BindResult) -> (step: PortStep)
        ensures
            final(self)@.stage.owed() == Some(step),
            final(self)@.in_order(),
            if old(self)@.bound(result).stage is Picking {
                final(self)@.follows_hints(old(self)@.bound(result))
            } else {
                final(self)@ == old(self)@.bound(result)
            },
    {
        match self.on_bind(result) {
            Some(step) => step,
            None => self.next_candidate(),
        }
    }
}

/// A port is chosen only in answer to a bind that succeeded: the bind of the
/// hinted port that was being verified, or the bind by which the operating
/// system assigned the port.
pub proof fn lemma_chosen_port_was_bound(m: PortView, result: BindResult, port: u16)
    requires
        !(m.stage is Done),
        m.bound(result).stage == PortStage::Done(PortOutcome::Chosen(port)),
    ensures
        result is Bound,
        m.stage == (PortStage::Verifying { port }) || (m.stage == PortStage::Fallback && result
            == BindResult::Bound(port)),
{
}

/// Neither a hint nor a bind result reopens an allocation that has ended,
/// and a hint changes nothing while a bind is awaited: each port that is
/// verified has used up an attempt of its own.
pub proof fn lemma_allocation_is_not_reopened(m: PortView, hint: Option<u16>, result: BindResult)
    ensures
        !(m.stage is Picking) ==> m.hinted(hint) == m,
        m.stage is Done ==> m.bound(result) == m,
        m.in_order() ==> m.hinted(hint).in_order() && m.bound(result).in_order(),
        m.in_order() && m.hinted(hint).stage is Verifying && m.stage is Picking ==> m.hinted(
            hint,
        ).attempts == m.attempts + 1,
{
}

} // verus!
