//! Carrying out a plan, one write at a time.
//!
//! The library decides; the caller writes. A [`Session`] hands out the step
//! to attempt next, is told how the write went, and says in the end whether
//! the operation succeeded, and if not, which writes failed and with what
//! kind of error.
//!
//! After a fatal failure no other controller is touched. The controller
//! whose write failed still gets the rest of its own writes attempted, since
//! its fields do not depend on one another; failing to switch a controller
//! on ends the operation at once.

use crate::manager::Manager;
use crate::resources::ResourceSpec;
use crate::step::{
    ErrorKind, FailedWrite, FailedWriteView, Fault, FaultView, Phase, Step, StepView,
};
use vstd::prelude::*;

verus! {

/// The mathematical content of a [`Session`].
pub struct SessionView {
    /// The plan.
    pub steps: Seq<StepView>,
    /// How many steps of the plan have been attempted.
    pub position: nat,
    /// The fatal failures so far, oldest first.
    pub failures: Seq<FailedWriteView>,
}

/// How a write went: nothing if it succeeded, else what went wrong.
pub open spec fn fault_of(outcome: Result<(), Fault>) -> Option<FaultView> {
    match outcome {
        Ok(_) => None,
        Err(fault) => Some(fault@),
    }
}

impl SessionView {
    /// The session that has `steps` before it and nothing behind it.
    pub open spec fn start(steps: Seq<StepView>) -> SessionView {
        SessionView { steps, position: 0, failures: Seq::empty() }
    }

    /// The step at the session's position: the one to attempt next, unless
    /// the session has halted.
    pub open spec fn current(self) -> StepView {
        self.steps[self.position as int]
    }

    /// The step behind the one at the session's position.
    pub open spec fn following(self) -> StepView {
        self.steps[self.position as int + 1]
    }

    /// Whether `step` belongs to the run of writes in which `failure`
    /// happened: the writes of the same controller to the node.
    pub open spec fn continues(failure: FailedWriteView, step: StepView) -> bool {
        failure.phase == Phase::Apply && step.phase == Phase::Apply && step.controller
            == failure.controller
    }

    /// Whether no further step is to be attempted: the plan is used up, or
    /// something fatal has happened and the next step is not one of the
    /// failed controller's remaining writes.
    pub open spec fn halted(self) -> bool {
        self.position >= self.steps.len() || (self.failures.len() > 0 && !Self::continues(
            self.failures[0],
            self.current(),
        ))
    }

    /// The step to attempt next, if any.
    pub open spec fn pending(self) -> Option<StepView> {
        if self.halted() {
            None
        } else {
            Some(self.current())
        }
    }

    /// The failure that `step` gives rise to when `fault` befalls it.
    pub open spec fn failure_of(step: StepView, fault: FaultView) -> FailedWriteView {
        FailedWriteView {
            controller: step.controller,
            phase: step.phase,
            file: step.file,
            kind: ErrorKind::of(step.phase, fault),
            cause: fault.cause(),
        }
    }

    /// The session after the pending step was attempted with the given
    /// outcome. The step counts as attempted; if it failed and is fatal, the
    /// failure is kept. A session that has halted stays as it is.
    pub open spec fn record(self, fault: Option<FaultView>) -> SessionView {
        if self.halted() {
            self
        } else {
            let step = self.current();
            SessionView {
                steps: self.steps,
                position: self.position + 1,
                failures: match fault {
                    Some(fault) if step.fatal => self.failures.push(Self::failure_of(step, fault)),
                    _ => self.failures,
                },
            }
        }
    }

    /// How the operation ended: not yet, while a step is pending; well, if
    /// nothing fatal happened; else with the failures.
    pub open spec fn outcome(self) -> Option<Result<(), Seq<FailedWriteView>>> {
        if !self.halted() {
            None
        } else if self.failures.len() == 0 {
            Some(Ok(()))
        } else {
            Some(Err(self.failures))
        }
    }

    /// The session after its next steps were attempted with the given
    /// outcomes, one after the other.
    pub open spec fn run(self, faults: Seq<Option<FaultView>>) -> SessionView
        decreases faults.len(),
    {
        if faults.len() == 0 {
            self
        } else {
            self.run(faults.drop_last()).record(faults.last())
        }
    }
}

impl SessionView {
    /// A failed write does not keep the same controller's next write from
    /// being attempted: whatever the outcome of a write to the node, the
    /// controller's following write is pending next.
    pub proof fn lemma_failure_spares_own_writes(self, fault: Option<FaultView>)
        requires
            !self.halted(),
            self.position + 1 < self.steps.len(),
            self.current().phase == Phase::Apply,
            self.following().phase == Phase::Apply,
            self.following().controller == self.current().controller,
        ensures
            self.record(fault).pending() == Some(self.following()),
    {
        let next = self.record(fault);
        if next.failures.len() > 0 {
            assert(next.failures[0].controller == self.current().controller);
            assert(next.failures[0].phase == Phase::Apply);
        }
    }

    /// Once a controller has begun its writes to the node, all of them are
    /// attempted, whichever of them fail.
    pub proof fn lemma_own_writes_all_attempted(self, faults: Seq<Option<FaultView>>)
        requires
            !self.halted(),
            self.current().phase == Phase::Apply,
            self.position + faults.len() <= self.steps.len(),
            forall|i: int|
                self.position <= i < self.position + faults.len() ==> {
                    let step = #[trigger] self.steps[i];
                    step.phase == Phase::Apply && step.controller == self.current().controller
                },
        ensures
            self.run(faults).steps == self.steps,
            self.run(faults).position == self.position + faults.len(),
            self.run(faults).failures.len() > 0 ==> Self::continues(
                self.run(faults).failures[0],
                self.current(),
            ),
        decreases faults.len(),
    {
        if faults.len() > 0 {
            let before = self.run(faults.drop_last());
            self.lemma_own_writes_all_attempted(faults.drop_last());
            assert(before.current() == self.steps[self.position + faults.len() - 1]);
            assert(!before.halted());
        }
    }

    /// A fatal failure ends the operation for every other controller: when a
    /// fatal step fails, its failure is kept, and no step is pending after
    /// it unless it is the same controller's next write to the node. So
    /// failing to switch a controller on ends the operation at once.
    pub proof fn lemma_fatal_failure_stops(self, fault: FaultView)
        requires
            !self.halted(),
            self.current().fatal,
        ensures
            self.record(Some(fault)).failures == self.failures.push(
                Self::failure_of(self.current(), fault),
            ),
            self.record(Some(fault)).outcome() !is Some || self.record(Some(fault)).outcome()
                == Some(Err::<(), Seq<FailedWriteView>>(self.record(Some(fault)).failures)),
            self.record(Some(fault)).pending() matches Some(step) ==> step.phase == Phase::Apply
                && self.current().phase == Phase::Apply && step.controller
                == self.current().controller,
    {
        let next = self.record(Some(fault));
        if self.failures.len() > 0 {
            assert(next.failures[0] == self.failures[0]);
        }
    }

    /// A failure that is not fatal is passed over: the step counts as
    /// attempted and nothing else changes.
    pub proof fn lemma_tolerated_failure_passes(self, fault: FaultView)
        requires
            !self.halted(),
            !self.current().fatal,
        ensures
            self.record(Some(fault)) == self.record(None),
            self.record(Some(fault)).failures == self.failures,
    {
    }

    /// Once the operation has ended, nothing more is attempted, whatever is
    /// recorded.
    pub proof fn lemma_halted_stays(self, faults: Seq<Option<FaultView>>)
        requires
            self.halted(),
        ensures
            self.run(faults) == self,
        decreases faults.len(),
    {
        if faults.len() > 0 {
            self.lemma_halted_stays(faults.drop_last());
        }
    }

    /// What holds of every session that was started on a plan and told of
    /// outcomes: it has not gone beyond its plan, and all its failures are
    /// of one controller, in one phase; more than one of them only among
    /// that controller's writes to the node.
    pub open spec fn consistent(self) -> bool {
        &&& self.position <= self.steps.len()
        &&& self.failures.len() <= self.position
        &&& forall|i: int|
            0 <= i < self.failures.len() ==> {
                let failure = #[trigger] self.failures[i];
                failure.controller == self.failures[0].controller && failure.phase
                    == self.failures[0].phase
            }
        &&& self.failures.len() > 1 ==> self.failures[0].phase == Phase::Apply
    }

    /// Whatever outcomes a session is told of, it stays consistent and keeps
    /// its plan.
    pub proof fn lemma_run_consistent(steps: Seq<StepView>, faults: Seq<Option<FaultView>>)
        ensures
            Self::start(steps).run(faults).consistent(),
            Self::start(steps).run(faults).steps == steps,
        decreases faults.len(),
    {
        if faults.len() > 0 {
            Self::lemma_run_consistent(steps, faults.drop_last());
        }
    }

    /// When every write succeeds, every step of the plan is attempted, in
    /// the plan's order, and the operation succeeds.
    pub proof fn lemma_success_completes(steps: Seq<StepView>, faults: Seq<Option<FaultView>>)
        requires
            faults.len() <= steps.len(),
            forall|i: int| 0 <= i < faults.len() ==> faults[i] is None,
        ensures
            Self::start(steps).run(faults).steps == steps,
            Self::start(steps).run(faults).position == faults.len(),
            Self::start(steps).run(faults).failures.len() == 0,
            faults.len() < steps.len() ==> Self::start(steps).run(faults).pending() == Some(
                steps[faults.len() as int],
            ),
            faults.len() == steps.len() ==> Self::start(steps).run(faults).outcome() == Some(
                Ok::<(), Seq<FailedWriteView>>(()),
            ),
        decreases faults.len(),
    {
        if faults.len() > 0 {
            Self::lemma_success_completes(steps, faults.drop_last());
        }
    }
}

/// The state of carrying out a plan.
#[derive(Debug)]
pub struct Session {
    steps: Vec<Step>,
    position: usize,
    failures: Vec<FailedWrite>,
}

impl View for Session {
    type V = SessionView;

    closed spec fn view(&self) -> SessionView {
        SessionView {
            steps: self.steps.deep_view(),
            position: self.position as nat,
            failures: self.failures.deep_view(),
        }
    }
}

impl Session {
    /// A session that has all of `steps` before it.
    pub fn new(steps: Vec<Step>) -> (session: Session)
        ensures
            session@ == SessionView::start(steps.deep_view()),
    {
        let session = Session { steps, position: 0, failures: Vec::new() };
        assert(session.failures.deep_view() =~= Seq::empty());
        session
    }

    fn halted(&self) -> (halted: bool)
        ensures
            halted == self@.halted(),
            !halted ==> self.position < self.steps.len(),
    {
        if self.position >= self.steps.len() {
            return true;
        }
        if self.failures.len() == 0 {
            return false;
        }
        let step = &self.steps[self.position];
        let failure = &self.failures[0];
        match (failure.phase, step.phase) {
            (Phase::Apply, Phase::Apply) => step.controller != failure.controller,
            _ => true,
        }
    }

    /// The step to attempt next, or `None` when the operation has ended.
    pub fn pending(&self) -> (step: Option<&Step>)
        ensures
            step.deep_view() == self@.pending(),
    {
        if self.halted() {
            None
        } else {
            Some(&self.steps[self.position])
        }
    }

    /// Takes note of how the pending step went: `Ok` if the write was made,
    /// `Err` with the reason if it was not. Does nothing when no step is
    /// pending.
    pub fn record(&mut self, outcome: Result<(), Fault>)
        ensures
            final(self)@ == old(self)@.record(fault_of(outcome)),
    {
        if self.halted() {
            return ;
        }
        let step = &self.steps[self.position];
        if let Err(fault) = outcome {
            if step.fatal {
                let ghost before = self.failures.deep_view();
                let kind = ErrorKind::classify(step.phase, &fault);
                let failure = FailedWrite {
                    controller: step.controller,
                    phase: step.phase,
                    file: step.file.clone(),
                    kind,
                    cause: match fault {
                        Fault::Open(cause) => cause,
                        Fault::Write(cause) => cause,
                    },
                };
                self.failures.push(failure);
                assert(self.failures.deep_view() =~= before.push(failure@));
            }
        }
        self.position = self.position + 1;
    }

    /// The fatal failures so far, oldest first.
    pub fn failures(&self) -> (failures: &Vec<FailedWrite>)
        ensures
            failures.deep_view() == self@.failures,
    {
        &self.failures
    }

    /// How the operation ended: `None` while a step is still pending,
    /// `Ok` if nothing fatal happened, else the failures.
    pub fn finish(self) -> (outcome: Option<Result<(), Vec<FailedWrite>>>)
        ensures
            match outcome {
                None => self@.outcome() is None,
                Some(Ok(_)) => self@.outcome() == Some(Ok::<(), Seq<FailedWriteView>>(())),
                Some(Err(failures)) => self@.outcome() == Some(
                    Err::<(), Seq<FailedWriteView>>(failures.deep_view()),
                ),
            },
    {
        if !self.halted() {
            None
        } else if self.failures.len() == 0 {
            Some(Ok(()))
        } else {
            Some(Err(self.failures))
        }
    }
}

impl Manager {
    /// Begins putting `resources` into force on one node.
    pub fn start(&self, resources: &ResourceSpec) -> (session: Session)
        ensures
            session@ == SessionView::start(self.steps(resources@)),
    {
        Session::new(self.plan(resources))
    }
}

} // verus!
