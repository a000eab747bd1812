//! The scan controller: admission control over a concurrency budget, the
//! queue of directories waiting for a task, completion detection, and the
//! aggregation of every event into one histogram.
//!
//! The controller makes decisions only; its caller runs the scan tasks. The
//! caller dispatches a task for the root, then hands each event it receives to
//! `Scheduler::on_event` and carries out the returned `Action`.
use vstd::prelude::*;

use std::path::PathBuf;

use crate::events::{ChanResponse, ResponseType};
use crate::histogram::{build_result, bucket_of, handle_file, Result, BUCKETS};

verus! {

/// Tasks allowed per available processing unit by default.
pub const TASKS_PER_CPU: usize = 4;

/// How many of `events` are of kind `k`.
pub open spec fn count_kind(events: Seq<ResponseType>, k: ResponseType) -> nat
    decreases events.len(),
{
    if events.len() == 0 {
        0
    } else {
        count_kind(events.drop_last(), k) + if events.last() == k {
            1nat
        } else {
            0nat
        }
    }
}

proof fn lemma_count_push(events: Seq<ResponseType>, e: ResponseType, k: ResponseType)
    ensures
        count_kind(events.push(e), k) == count_kind(events, k) + if e == k {
            1nat
        } else {
            0nat
        },
{
    assert(events.push(e).drop_last() =~= events);
}

/// What the caller does after an event.
pub enum Action {
    /// Start a scan task for this directory.
    Dispatch(PathBuf),
    /// Nothing to start; wait for the next event.
    Wait,
    /// No task runs and none waits: the run is over and no event will come.
    Finished,
}

/// The controller's state during one run.
pub struct Scheduler {
    /// The most scan tasks that may run at once.
    pub budget: usize,
    /// Scan tasks dispatched that have not yet reported `DoneDir`.
    pub active: usize,
    /// Directories found and not yet dispatched, the last one found on top.
    pub pending: Vec<PathBuf>,
    /// The histogram of what was consumed so far.
    pub result: Result,
    /// Set once the completion condition has fired.
    pub done: bool,
    /// The kinds of the events consumed so far, in order.
    pub consumed: Ghost<Seq<ResponseType>>,
    /// How many scan tasks were dispatched, the root's included.
    pub dispatched: Ghost<nat>,
    /// The paths of the `Dir` events consumed so far, in order.
    pub found: Ghost<Seq<PathBuf>>,
    /// The directories dispatched so far, the root aside, in order.
    pub started: Ghost<Seq<PathBuf>>,
}

impl Scheduler {
    /// The scheduler's invariant.
    pub open spec fn wf(&self) -> bool {
        &&& self.budget >= 1
        &&& self.active <= self.budget
        &&& self.result.wf()
        // the queue is used only while the budget is spent
        &&& self.pending@.len() > 0 ==> self.active == self.budget
        &&& self.done <==> self.active == 0
        &&& self.result.files == count_kind(self.consumed@, ResponseType::File)
        &&& self.result.directories == count_kind(self.consumed@, ResponseType::Dir)
        // every task dispatched either still runs or has reported its end
        &&& self.dispatched@ == count_kind(self.consumed@, ResponseType::DoneDir) + self.active
        // every directory found, and the root, is either dispatched or queued
        &&& self.dispatched@ + self.pending@.len() == self.result.directories + 1
        // each directory found is dispatched or queued, once for each time found
        &&& self.found@.len() == self.result.directories
        &&& self.dispatched@ == self.started@.len() + 1
        &&& self.found@.to_multiset() =~= self.started@.to_multiset().add(
            self.pending@.to_multiset(),
        )
    }

    /// Starts a run rooted at `path` with at most `budget` concurrent tasks.
    /// The root's task counts as dispatched: the caller starts it.
    pub fn new(path: &str, budget: usize) -> (s: Scheduler)
        requires
            budget >= 1,
        ensures
            s.wf(),
            s.budget == budget,
            s.active == 1,
            s.pending@.len() == 0,
            !s.done,
            s.consumed@.len() == 0,
            s.dispatched@ == 1,
            s.found@.len() == 0,
            s.started@.len() == 0,
            s.result.path@ == path@,
            s.result.duration_ms == 0,
            s.result.files == 0,
            s.result.directories == 0,
            forall|b: int| 0 <= b < BUCKETS ==> #[trigger] s.result.count(b) == 0,
    {
        broadcast use vstd::seq_lib::group_to_multiset_ensures;
        broadcast use vstd::multiset::group_multiset_axioms;

        let s = Scheduler {
            budget,
            active: 1,
            pending: Vec::new(),
            result: build_result(path),
            done: false,
            consumed: Ghost(Seq::empty()),
            dispatched: Ghost(1),
            found: Ghost(Seq::empty()),
            started: Ghost(Seq::empty()),
        };
        assert(s.found@.to_multiset().len() == 0);
        assert(s.started@.to_multiset().len() == 0);
        assert(s.pending@.to_multiset().len() == 0);
        s
    }

    /// Consumes one event and decides what to start next.
    ///
    /// - `File`: the file is counted in the histogram.
    /// - `Dir`: the directory is counted; it is dispatched at once if fewer
    ///   than `budget` tasks run, and queued otherwise.
    /// - `DoneDir`: the most recently queued directory is dispatched in place
    ///   of the task that ended; with an empty queue one task fewer runs, and
    ///   when none is left the run is finished.
    pub fn on_event(&mut self, ev: ChanResponse) -> (a: Action)
        requires
            old(self).wf(),
            !old(self).done,
            old(self).result.files < usize::MAX,
            old(self).result.directories < usize::MAX,
        ensures
            final(self).wf(),
            final(self).budget == old(self).budget,
            final(self).consumed@ == old(self).consumed@.push(ev.t),
            final(self).result.path == old(self).result.path,
            final(self).result.duration_ms == old(self).result.duration_ms,
            ev.t == ResponseType::File ==> {
                &&& final(self).result.files == old(self).result.files + 1
                &&& final(self).result.directories == old(self).result.directories
                &&& forall|b: int|
                    0 <= b < BUCKETS ==> #[trigger] final(self).result.count(b)
                        == old(self).result.count(b) + if b == bucket_of(ev.len as nat) {
                        1int
                    } else {
                        0int
                    }
                &&& final(self).active == old(self).active
                &&& final(self).pending@ == old(self).pending@
                &&& final(self).dispatched@ == old(self).dispatched@
                &&& a is Wait
            },
            ev.t != ResponseType::File ==> {
                &&& final(self).result.files == old(self).result.files
                &&& forall|b: int|
                    0 <= b < BUCKETS ==> #[trigger] final(self).result.count(b)
                        == old(self).result.count(b)
            },
            ev.t == ResponseType::Dir ==> final(self).found@ == old(self).found@.push(ev.path),
            ev.t != ResponseType::Dir ==> final(self).found@ == old(self).found@,
            a matches Action::Dispatch(p) ==> final(self).started@ == old(self).started@.push(p),
            !(a is Dispatch) ==> final(self).started@ == old(self).started@,
            ev.t == ResponseType::Dir ==> {
                &&& final(self).result.directories == old(self).result.directories + 1
                &&& old(self).active < old(self).budget ==> {
                    &&& a == Action::Dispatch(ev.path)
                    &&& final(self).active == old(self).active + 1
                    &&& final(self).pending@ == old(self).pending@
                    &&& final(self).dispatched@ == old(self).dispatched@ + 1
                }
                &&& old(self).active >= old(self).budget ==> {
                    &&& a is Wait
                    &&& final(self).active == old(self).active
                    &&& final(self).pending@ == old(self).pending@.push(ev.path)
                    &&& final(self).dispatched@ == old(self).dispatched@
                }
            },
            ev.t == ResponseType::DoneDir ==> {
                &&& final(self).result.directories == old(self).result.directories
                &&& old(self).pending@.len() > 0 ==> {
                    &&& a == Action::Dispatch(old(self).pending@.last())
                    &&& final(self).active == old(self).active
                    &&& final(self).pending@ == old(self).pending@.drop_last()
                    &&& final(self).dispatched@ == old(self).dispatched@ + 1
                }
                &&& old(self).pending@.len() == 0 ==> {
                    &&& final(self).active == old(self).active - 1
                    &&& final(self).pending@.len() == 0
                    &&& final(self).dispatched@ == old(self).dispatched@
                    &&& (final(self).active == 0 ==> a is Finished)
                    &&& (final(self).active > 0 ==> a is Wait)
                }
            },
            final(self).done <==> a is Finished,
            a is Finished <==> (final(self).active == 0 && final(self).pending@.len() == 0),
    {
        broadcast use vstd::seq_lib::group_to_multiset_ensures;
        broadcast use vstd::multiset::group_multiset_axioms;

        let ghost prev = self.consumed@;
        let ChanResponse { t, path, len } = ev;
        proof {
            self.consumed@ = prev.push(t);
            lemma_count_push(prev, t, ResponseType::File);
            lemma_count_push(prev, t, ResponseType::Dir);
            lemma_count_push(prev, t, ResponseType::DoneDir);
        }
        match t {
            ResponseType::File => {
                handle_file(len, &mut self.result);
                Action::Wait
            },
            ResponseType::Dir => {
                proof {
                    reveal_with_fuel(Result::bucket_sum, 13);
                }
                self.result.directories = self.result.directories + 1;
                proof {
                    self.found@ = self.found@.push(path);
                }
                if self.active < self.budget {
                    self.active = self.active + 1;
                    proof {
                        self.dispatched@ = self.dispatched@ + 1;
                        self.started@ = self.started@.push(path);
                    }
                    Action::Dispatch(path)
                } else {
                    self.pending.push(path);
                    Action::Wait
                }
            },
            ResponseType::DoneDir => {
                let ghost queued = self.pending@;
                match self.pending.pop() {
                    Some(next) => {
                        proof {
                            self.dispatched@ = self.dispatched@ + 1;
                            self.started@ = self.started@.push(next);
                            assert(queued =~= self.pending@.push(next));
                        }
                        Action::Dispatch(next)
                    },
                    None => {
                        self.active = self.active - 1;
                        if self.active == 0 {
                            self.done = true;
                            Action::Finished
                        } else {
                            Action::Wait
                        }
                    },
                }
            },
        }
    }
}

/// In every state of a run, the files counted equal both the sum of the
/// bucket counters and the number of `File` events consumed, and the
/// directories counted equal the number of `Dir` events consumed.
pub proof fn lemma_counts_match_events(s: &Scheduler)
    requires
        s.wf(),
    ensures
        s.result.files == s.result.bucket_total(),
        s.result.files == count_kind(s.consumed@, ResponseType::File),
        s.result.directories == count_kind(s.consumed@, ResponseType::Dir),
{
}

/// A run is finished exactly when no task runs and no directory waits. Once
/// it is, every task dispatched has reported its end, and the tasks
/// dispatched are one for the root and one for each directory found: the
/// directories dispatched are exactly those found, each as often as found.
pub proof fn lemma_completion(s: &Scheduler)
    requires
        s.wf(),
    ensures
        s.done <==> (s.active == 0 && s.pending@.len() == 0),
        s.done ==> s.dispatched@ == count_kind(s.consumed@, ResponseType::DoneDir),
        s.done ==> s.dispatched@ == s.result.directories + 1,
        s.done ==> s.started@.to_multiset() =~= s.found@.to_multiset(),
{
    broadcast use vstd::seq_lib::group_to_multiset_ensures;
    broadcast use vstd::multiset::group_multiset_axioms;

}

/// In every state of a run at most `budget` tasks run at once, and while a
/// run is unfinished at least one task runs, so an end event is still due.
pub proof fn lemma_budget_respected(s: &Scheduler)
    requires
        s.wf(),
    ensures
        s.active <= s.budget,
        !s.done ==> s.active >= 1,
{
}

/// The default concurrency budget for `cpus` processing units:
/// `TASKS_PER_CPU` tasks per unit, capped at the largest `usize`.
pub fn budget_for(cpus: usize) -> (b: usize)
    requires
        cpus >= 1,
    ensures
        b >= 1,
        cpus * TASKS_PER_CPU <= usize::MAX ==> b == cpus * TASKS_PER_CPU,
        cpus * TASKS_PER_CPU > usize::MAX ==> b == usize::MAX,
{
    if cpus > usize::MAX / TASKS_PER_CPU {
        usize::MAX
    } else {
        cpus * TASKS_PER_CPU
    }
}

/// Relies on `num_cpus::get`: the number of available processing units of
/// this machine, documented to be at least 1.
#[verifier::external_body]
fn cpu_count() -> (r: usize)
    ensures
        r >= 1,
{
    num_cpus::get()
}

/// The default concurrency budget on this machine (see `budget_for`).
pub fn default_budget() -> (b: usize)
    ensures
        b >= TASKS_PER_CPU,
{
    budget_for(cpu_count())
}

} // verus!
