use vstd::prelude::*;

use crate::error::SimError;

verus! {

/// Where a run stands.
#[derive(Debug, Clone, Copy, PartialEq, Eq, Structural)]
pub enum Status {
    Running,
    Cancelled,
    Aborted(SimError),
}

/// What came of the step that the driver last asked for.
#[derive(Debug, Clone, Copy, PartialEq, Eq, Structural)]
pub enum Outcome {
    /// The step was computed and committed.
    Advanced,
    /// The step could not be computed; nothing of it was committed.
    Failed(SimError),
    /// The caller stopped the run before the step.
    Cancelled,
}

/// What the caller is to do next.
#[derive(Debug, Clone, Copy, PartialEq, Eq, Structural)]
pub enum Action {
    /// Report the state as it stands before step `index` when `report`
    /// holds, then compute step `index` from it.
    Advance { index: u64, report: bool },
    /// The run is over, after `steps` committed steps.
    Finish { steps: u64 },
    /// The run stopped because step `index` failed with `error`.
    Abort { index: u64, error: SimError },
}

/// Sequences the steps of a run: step indices `0 .. total_steps`, each
/// taken once and in order, with a report before every step whose index is
/// a multiple of `report_stride` (none when the stride is zero).
#[derive(Debug, Clone, Copy, PartialEq, Eq, Structural)]
pub struct Driver {
    pub total_steps: u64,
    pub report_stride: u64,
    pub next_index: u64,
    pub status: Status,
}

/// Whether the state before step `index` is reported.
pub open spec fn is_report_step(stride: u64, index: u64) -> bool {
    stride > 0 && index % stride == 0
}

impl Driver {
    /// The driver never runs past its step count.
    pub open spec fn wf(&self) -> bool {
        self.next_index <= self.total_steps
    }

    /// The action that a driver in this state asks for.
    pub open spec fn action_spec(&self) -> Action {
        match self.status {
            Status::Aborted(e) => Action::Abort { index: self.next_index, error: e },
            Status::Cancelled => Action::Finish { steps: self.next_index },
            Status::Running => if self.next_index < self.total_steps {
                Action::Advance {
                    index: self.next_index,
                    report: is_report_step(self.report_stride, self.next_index),
                }
            } else {
                Action::Finish { steps: self.next_index }
            },
        }
    }

    /// The state after the caller reports `outcome`.
    pub open spec fn after(&self, outcome: Outcome) -> Driver {
        match outcome {
            Outcome::Advanced => Driver { next_index: (self.next_index + 1) as u64, ..*self },
            Outcome::Failed(e) => Driver { status: Status::Aborted(e), ..*self },
            Outcome::Cancelled => Driver { status: Status::Cancelled, ..*self },
        }
    }

    /// The state after `k` steps in a row have been committed.
    pub open spec fn after_steps(&self, k: nat) -> Driver
        decreases k,
    {
        if k == 0 {
            *self
        } else {
            self.after_steps((k - 1) as nat).after(Outcome::Advanced)
        }
    }

    /// A run of `total_steps` steps that has not started.
    pub fn new(total_steps: u64, report_stride: u64) -> (d: Driver)
        ensures
            d.total_steps == total_steps,
            d.report_stride == report_stride,
            d.next_index == 0,
            d.status == Status::Running,
            d.wf(),
    {
        Driver { total_steps, report_stride, next_index: 0, status: Status::Running }
    }

    pub fn next_action(&self) -> (a: Action)
        requires
            self.wf(),
        ensures
            a == self.action_spec(),
    {
        match self.status {
            Status::Aborted(e) => Action::Abort { index: self.next_index, error: e },
            Status::Cancelled => Action::Finish { steps: self.next_index },
            Status::Running => if self.next_index < self.total_steps {
                let report = self.report_stride > 0 && self.next_index % self.report_stride == 0;
                Action::Advance { index: self.next_index, report }
            } else {
                Action::Finish { steps: self.next_index }
            },
        }
    }

    /// Takes in the outcome of the step that `next_action` asked for.
    pub fn record(&mut self, outcome: Outcome)
        requires
            old(self).wf(),
            old(self).status == Status::Running,
            old(self).next_index < old(self).total_steps,
        ensures
            final(self).wf(),
            *final(self) == old(self).after(outcome),
            final(self).total_steps == old(self).total_steps,
            final(self).report_stride == old(self).report_stride,
            match outcome {
                Outcome::Advanced => final(self).next_index == old(self).next_index + 1
                    && final(self).status == Status::Running,
                Outcome::Failed(e) => final(self).next_index == old(self).next_index
                    && final(self).status == Status::Aborted(e),
                Outcome::Cancelled => final(self).next_index == old(self).next_index
                    && final(self).status == Status::Cancelled,
            },
    {
        match outcome {
            Outcome::Advanced => self.next_index = self.next_index + 1,
            Outcome::Failed(e) => self.status = Status::Aborted(e),
            Outcome::Cancelled => self.status = Status::Cancelled,
        }
    }
}

/// A run fresh from `Driver::new` whose steps all succeed asks for the steps `0, 1, ..., total_steps - 1`,
/// each once and in this order, reporting before those whose index is a
/// multiple of the stride, and then finishes after `total_steps` steps.
pub proof fn lemma_run_takes_each_step_once(total_steps: u64, report_stride: u64, k: nat)
    requires
        k <= total_steps,
    ensures
        ({
            let d = Driver {
                total_steps,
                report_stride,
                next_index: 0,
                status: Status::Running,
            }.after_steps(k);
            &&& d.wf()
            &&& d.total_steps == total_steps
            &&& d.report_stride == report_stride
            &&& d.next_index == k
            &&& d.status == Status::Running
            &&& d.action_spec() == if k < total_steps {
                Action::Advance { index: k as u64, report: is_report_step(report_stride, k as u64) }
            } else {
                Action::Finish { steps: total_steps }
            }
        }),
    decreases k,
{
    let d0 = Driver { total_steps, report_stride, next_index: 0, status: Status::Running };
    if k > 0 {
        lemma_run_takes_each_step_once(total_steps, report_stride, (k - 1) as nat);
    }
    let d = d0.after_steps(k);
    assert(d.next_index == k as u64);
}

} // verus!
