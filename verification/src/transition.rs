//! An engine operation under way: the steps it needs, how far they have
//! been carried out, and what there is once all of them have succeeded.

use crate::error::VmError;
use crate::step::{failure, Outcome, Step, StepView};
use crate::text::views;
use vstd::prelude::*;

verus! {

/// An operation whose steps are carried out one after the other. The first
/// step that fails ends it.
#[derive(Debug)]
pub struct Transition<S> {
    steps: Vec<Step>,
    done: usize,
    target: S,
    cleanup: Vec<Step>,
}

/// Where an operation stands.
#[derive(Debug)]
pub enum Progress<S> {
    /// A step is waiting to be carried out.
    Pending(Transition<S>),
    /// Every step has succeeded.
    Complete(S),
    /// A step has failed. What the operation was working on is lost: the
    /// steps of `cleanup` release it; each of them is to be attempted, whatever
    /// becomes of the others.
    Failed { error: VmError, cleanup: Vec<Step> },
}

impl<S> Transition<S> {
    #[verifier::type_invariant]
    spec fn has_current(&self) -> bool {
        self.done < self.steps.len()
    }

    /// All the steps of the operation, in the order they are carried out.
    pub closed spec fn plan(&self) -> Seq<StepView> {
        views(self.steps@)
    }

    /// How many steps have succeeded.
    pub closed spec fn at(&self) -> int {
        self.done as int
    }

    /// What there is once every step has succeeded.
    pub closed spec fn goal(&self) -> S {
        self.target
    }

    /// The steps that release what the operation works on, should it fail.
    pub closed spec fn undo(&self) -> Seq<StepView> {
        views(self.cleanup@)
    }

    /// An operation that has `steps` before it.
    pub(crate) fn new(steps: Vec<Step>, target: S, cleanup: Vec<Step>) -> (out: Self)
        requires
            steps.len() > 0,
        ensures
            out.plan() == views(steps@),
            out.at() == 0,
            out.goal() == target,
            out.undo() == views(cleanup@),
    {
        Transition { steps, done: 0, target, cleanup }
    }

    /// The steps, the target and the cleanup of the operation.
    pub(crate) fn into_parts(self) -> (out: (Vec<Step>, S, Vec<Step>))
        ensures
            views(out.0@) == self.plan(),
            out.0.len() > 0,
            out.1 == self.goal(),
            views(out.2@) == self.undo(),
    {
        proof {
            use_type_invariant(&self);
        }
        let Transition { steps, done, target, cleanup } = self;
        (steps, target, cleanup)
    }

    /// All the steps of the operation.
    pub fn steps(&self) -> (out: &Vec<Step>)
        ensures
            views(out@) == self.plan(),
            0 <= self.at() < out.len(),
    {
        proof {
            use_type_invariant(self);
        }
        &self.steps
    }

    /// How many steps have succeeded.
    pub fn position(&self) -> (out: usize)
        ensures
            out == self.at(),
            0 <= self.at() < self.plan().len(),
    {
        proof {
            use_type_invariant(self);
        }
        self.done
    }

    /// The step to carry out next.
    pub fn current(&self) -> (out: &Step)
        ensures
            0 <= self.at() < self.plan().len(),
            out@ == self.plan()[self.at()],
    {
        proof {
            use_type_invariant(self);
        }
        &self.steps[self.done]
    }

    /// What there is once every step has succeeded.
    pub fn target(&self) -> (out: &S)
        ensures
            *out == self.goal(),
    {
        &self.target
    }

    /// The steps that release what the operation works on, should it fail.
    pub fn cleanup(&self) -> (out: &Vec<Step>)
        ensures
            views(out@) == self.undo(),
    {
        &self.cleanup
    }

    /// Takes note of how the current step went. If it failed, so has the
    /// operation, with the error that the failure stands for. If it succeeded
    /// and was the last one, the operation is complete. Otherwise the next
    /// step is due.
    pub fn advance(self, outcome: &Outcome) -> (out: Progress<S>)
        ensures
            0 <= self.at() < self.plan().len(),
            match failure(self.plan()[self.at()], outcome@) {
                Some(error) => out matches Progress::Failed { error: e, cleanup } && e@ == error
                    && views(cleanup@) == self.undo(),
                None => if self.at() + 1 == self.plan().len() {
                    out matches Progress::Complete(target) && target == self.goal()
                } else {
                    out matches Progress::Pending(next) && next.plan() == self.plan() && next.at()
                        == self.at() + 1 && next.goal() == self.goal() && next.undo()
                        == self.undo()
                },
            },
    {
        proof {
            use_type_invariant(&self);
        }
        let Transition { steps, done, target, cleanup } = self;
        match steps[done].judge(outcome) {
            Some(error) => Progress::Failed { error, cleanup },
            None => if done + 1 == steps.len() {
                Progress::Complete(target)
            } else {
                Progress::Pending(Transition { steps, done: done + 1, target, cleanup })
            },
        }
    }
}

} // verus!
