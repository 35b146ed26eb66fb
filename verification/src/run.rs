use vstd::prelude::*;
use crate::benchmark::Step;
use crate::plan_laws::{is_timed, lemma_timed_concat, timed_writes};

verus! {

/// Where a benchmark run stands.
#[derive(Clone, Copy, PartialEq, Eq, Structural)]
pub enum RunStatus {
    /// A step is still to be carried out.
    Running,
    /// Every step succeeded; the benchmark returns its histogram.
    Completed,
    /// An operation on the direct file, or a preallocation, failed; the
    /// benchmark returns that operation's error.
    Failed,
    /// An operation on the buffered file failed; the program reports it and
    /// exits with status 1.
    Exited,
}

/// Whether a failure of step `s` ends the program rather than the benchmark:
/// the operations on the buffered file.
pub open spec fn failure_exits(s: Step) -> bool {
    match s {
        Step::OpenBuffered | Step::Append | Step::SyncAll => true,
        _ => false,
    }
}

/// Whether the duration of step `s` goes into the histogram, given whether
/// the step succeeded: a timed write is recorded also when it failed, an
/// append only when it succeeded (a failed one ends the program first).
pub open spec fn records_sample(s: Step, succeeded: bool) -> bool {
    match s {
        Step::Append => succeeded,
        Step::WriteAt { timed, .. } => timed,
        _ => false,
    }
}

/// The status after step `s`, given whether it succeeded and whether it was
/// the last step.
pub open spec fn status_after(s: Step, succeeded: bool, last: bool) -> RunStatus {
    if succeeded {
        if last { RunStatus::Completed } else { RunStatus::Running }
    } else if failure_exits(s) {
        RunStatus::Exited
    } else {
        RunStatus::Failed
    }
}

/// A step that succeeded never ends a run badly: the run goes on, or
/// completes after the last step. A failed step ends the program exactly
/// when it works on the buffered file, and ends the benchmark otherwise. A
/// duration is recorded for a timed write whatever its outcome, for an
/// append that succeeded, and for no other step.
pub proof fn law_step_outcomes(s: Step, succeeded: bool, last: bool)
    ensures
        status_after(s, true, last) == if last { RunStatus::Completed } else { RunStatus::Running },
        (status_after(s, false, last) == RunStatus::Exited)
            == (s == Step::OpenBuffered || s == Step::Append || s == Step::SyncAll),
        (status_after(s, false, last) == RunStatus::Failed)
            == !(s == Step::OpenBuffered || s == Step::Append || s == Step::SyncAll),
        records_sample(s, succeeded) == ((s == Step::Append && succeeded)
            || (s matches Step::WriteAt { timed, .. } && timed)),
{
}

#[derive(Clone, Copy)]
struct Progress {
    next: usize,
    samples: usize,
    status: RunStatus,
}

/// A run of a benchmark plan: which step comes next, how many durations
/// were recorded, and whether the run goes on. The program carries out each
/// step and reports whether it succeeded; the run decides what follows.
pub struct Run {
    plan: Vec<Step>,
    progress: Progress,
}

impl Run {
    /// The steps of the plan.
    pub closed spec fn steps(self) -> Seq<Step> {
        self.plan@
    }

    /// The number of steps carried out so far.
    pub closed spec fn position(self) -> nat {
        self.progress.next as nat
    }

    /// The number of durations recorded so far.
    pub closed spec fn sample_count(self) -> nat {
        self.progress.samples as nat
    }

    /// The status of the run.
    pub closed spec fn state(self) -> RunStatus {
        self.progress.status
    }

    #[verifier::type_invariant]
    closed spec fn inv(self) -> bool {
        let p = self.progress;
        &&& p.next <= self.plan@.len()
        &&& p.samples <= p.next
        &&& p.status == RunStatus::Running ==> p.next < self.plan@.len()
        &&& p.status == RunStatus::Completed ==> p.next == self.plan@.len()
        &&& (p.status == RunStatus::Running || p.status == RunStatus::Completed)
            ==> p.samples == timed_writes(self.plan@.take(p.next as int))
        &&& (p.status == RunStatus::Failed || p.status == RunStatus::Exited) ==> {
            &&& p.next > 0
            &&& p.samples == timed_writes(self.plan@.take(p.next - 1))
                + if records_sample(self.plan@[p.next - 1], false) { 1int } else { 0int }
        }
    }

    /// A run at the start of `plan`; a run of no step is complete at once.
    pub fn start(plan: Vec<Step>) -> (r: Run)
        ensures
            r.steps() == plan@,
            r.position() == 0,
            r.sample_count() == 0,
            r.state() == if plan@.len() == 0 { RunStatus::Completed } else { RunStatus::Running },
    {
        let status = if plan.len() == 0 { RunStatus::Completed } else { RunStatus::Running };
        proof {
            assert(plan@.take(0) =~= Seq::<Step>::empty());
            assert(timed_writes(Seq::<Step>::empty()) == 0) by {
                reveal(Seq::filter);
            }
        }
        Run { plan, progress: Progress { next: 0, samples: 0, status } }
    }

    /// The step to carry out next, or `None` when the run has ended.
    pub fn current(&self) -> (r: Option<Step>)
        ensures
            r == if self.state() == RunStatus::Running {
                Some(self.steps()[self.position() as int])
            } else {
                None::<Step>
            },
    {
        proof {
            use_type_invariant(self);
        }
        if self.progress.status == RunStatus::Running {
            Some(self.plan[self.progress.next])
        } else {
            None
        }
    }

    /// The status of the run.
    pub fn status(&self) -> (r: RunStatus)
        ensures
            r == self.state(),
    {
        self.progress.status
    }

    /// The number of durations recorded so far; once the run is complete,
    /// one for each timed step of the plan.
    pub fn samples(&self) -> (r: usize)
        ensures
            r == self.sample_count(),
            self.state() == RunStatus::Completed ==> r == timed_writes(self.steps()),
    {
        proof {
            use_type_invariant(self);
            assert(self.plan@.take(self.plan@.len() as int) =~= self.plan@);
        }
        self.progress.samples
    }

    /// Takes in whether the current step succeeded, and returns whether its
    /// duration goes into the histogram. On a run that has ended, nothing
    /// changes.
    pub fn advance(&mut self, succeeded: bool) -> (record: bool)
        ensures
            final(self).steps() == old(self).steps(),
            old(self).state() != RunStatus::Running ==> {
                &&& !record
                &&& final(self).position() == old(self).position()
                &&& final(self).sample_count() == old(self).sample_count()
                &&& final(self).state() == old(self).state()
            },
            old(self).state() == RunStatus::Running ==> {
                let s = old(self).steps()[old(self).position() as int];
                &&& record == records_sample(s, succeeded)
                &&& final(self).position() == old(self).position() + 1
                &&& final(self).sample_count() == old(self).sample_count() + if record { 1int } else { 0int }
                &&& final(self).state() == status_after(s, succeeded,
                    old(self).position() + 1 == old(self).steps().len())
            },
            final(self).state() == RunStatus::Completed
                ==> final(self).sample_count() == timed_writes(final(self).steps()),
            old(self).state() == RunStatus::Running && succeeded
                && old(self).position() + 1 < old(self).steps().len()
                ==> final(self).state() == RunStatus::Running,
            old(self).state() == RunStatus::Running && succeeded
                && old(self).position() + 1 == old(self).steps().len()
                ==> final(self).state() == RunStatus::Completed,
            old(self).state() == RunStatus::Running && !succeeded ==> ({
                let s = old(self).steps()[old(self).position() as int];
                &&& (s == Step::OpenBuffered || s == Step::Append || s == Step::SyncAll)
                    ==> final(self).state() == RunStatus::Exited
                &&& !(s == Step::OpenBuffered || s == Step::Append || s == Step::SyncAll)
                    ==> final(self).state() == RunStatus::Failed
            }),
            old(self).state() == RunStatus::Running ==> ({
                let s = old(self).steps()[old(self).position() as int];
                record == ((s == Step::Append && succeeded)
                    || (s matches Step::WriteAt { timed, .. } && timed))
            }),
    {
        proof {
            use_type_invariant(&*self);
        }
        if self.progress.status != RunStatus::Running {
            proof {
                assert(self.plan@.take(self.plan@.len() as int) =~= self.plan@);
            }
            return false;
        }
        let k = self.progress.next;
        let len = self.plan.len();
        assert(k < len);
        let s = self.plan[k];
        let record = match s {
            Step::Append => succeeded,
            Step::WriteAt { timed, .. } => timed,
            _ => false,
        };
        let exits = match s {
            Step::OpenBuffered | Step::Append | Step::SyncAll => true,
            _ => false,
        };
        let next = k + 1;
        let samples = if record { self.progress.samples + 1 } else { self.progress.samples };
        let status = if succeeded {
            if next == len { RunStatus::Completed } else { RunStatus::Running }
        } else if exits {
            RunStatus::Exited
        } else {
            RunStatus::Failed
        };
        proof {
            let plan = self.plan@;
            assert(plan.take(next as int) =~= plan.take(k as int) + seq![s]);
            lemma_timed_concat(plan.take(k as int), seq![s]);
            assert(timed_writes(seq![s]) == if is_timed(s) { 1int } else { 0int }) by {
                reveal_with_fuel(Seq::filter, 2);
                assert(seq![s].drop_last() =~= Seq::<Step>::empty());
            }
            assert(plan.take(plan.len() as int) =~= plan);
        }
        self.progress = Progress { next, samples, status };
        record
    }
}

} // verus!
