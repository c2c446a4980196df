//! The shutdown coordinator: the registry that owns every background
//! task started at boot and drives coordinated cancellation and join on
//! a termination signal.
//!
//! The coordinator holds the bookkeeping that can be verified: which
//! tasks exist, that cancellation was issued to all of them before any
//! join is recorded, and how the per-task outcomes aggregate into the
//! overall shutdown verdict. The runtime that owns the actual
//! cancellation signals and join handles performs each cancel and join
//! and reports the outcome back through [`ShutdownCoordinator::record_outcome`];
//! it keeps joining until [`ShutdownCoordinator::verdict`] yields one,
//! so it cannot return before every registered task has reported.

use vstd::prelude::*;

verus! {

/// How one registered task ended.
#[derive(Clone, Copy, Debug, PartialEq, Eq, Structural)]
pub enum TaskOutcome {
    /// The task ran to completion on its own.
    Clean,
    /// The task ended because it was cancelled — expected during
    /// shutdown, not an error.
    Cancelled,
    /// The task panicked or failed unexpectedly — fatal, and reported
    /// in the overall verdict.
    Fatal,
}

/// One registered background task.
pub struct TaskEntry {
    name: String,
    outcome: Option<TaskOutcome>,
}

/// The model of a registered task: its name and, once joined, how it
/// ended.
pub ghost struct TaskView {
    pub name: Seq<char>,
    pub outcome: Option<TaskOutcome>,
}

impl View for TaskEntry {
    type V = TaskView;

    closed spec fn view(&self) -> TaskView {
        TaskView {
            name: self.name@,
            outcome: self.outcome,
        }
    }
}

/// Every registered task has reported an outcome.
pub open spec fn all_reported(s: Seq<TaskView>) -> bool {
    forall|i: int| 0 <= i < s.len() ==> (#[trigger] s[i]).outcome is Some
}

/// Some task reported a fatal outcome.
pub open spec fn has_fatal(s: Seq<TaskView>) -> bool {
    exists|i: int| 0 <= i < s.len() && (#[trigger] s[i]).outcome == Some(TaskOutcome::Fatal)
}

/// The names of the tasks that reported a fatal outcome, in
/// registration order.
pub open spec fn fatal_names(s: Seq<TaskView>) -> Seq<Seq<char>>
    decreases s.len(),
{
    if s.len() == 0 {
        Seq::empty()
    } else {
        let rest = fatal_names(s.drop_last());
        if s.last().outcome == Some(TaskOutcome::Fatal) {
            rest.push(s.last().name)
        } else {
            rest
        }
    }
}

/// Extending a prefix by one task extends its fatal names exactly when
/// that task reported a fatal outcome.
pub proof fn lemma_fatal_names_step(s: Seq<TaskView>, i: int)
    requires
        0 <= i < s.len(),
    ensures
        fatal_names(s.subrange(0, i + 1)) == if s[i].outcome == Some(TaskOutcome::Fatal) {
            fatal_names(s.subrange(0, i)).push(s[i].name)
        } else {
            fatal_names(s.subrange(0, i))
        },
{
    assert(s.subrange(0, i + 1).drop_last() =~= s.subrange(0, i));
    assert(s.subrange(0, i + 1).last() == s[i]);
}

/// The overall shutdown result: undecided while any task has not
/// reported; an error naming the fatal tasks if any reported fatally;
/// success otherwise.
pub open spec fn verdict_of(s: Seq<TaskView>) -> Option<Result<(), Seq<Seq<char>>>> {
    if !all_reported(s) {
        None
    } else if has_fatal(s) {
        Some(Err(fatal_names(s)))
    } else {
        Some(Ok(()))
    }
}

/// Shutdown join completeness: the verdict is decided only once every
/// registered task has reported, and a single fatal report is enough to
/// decide it as an error, however cleanly the other tasks ended.
pub proof fn lemma_shutdown_join_completeness(s: Seq<TaskView>)
    ensures
        verdict_of(s) is Some ==> all_reported(s),
        all_reported(s) && has_fatal(s) ==> verdict_of(s) == Some(
            Err::<(), Seq<Seq<char>>>(fatal_names(s)),
        ),
        all_reported(s) && !has_fatal(s) ==> verdict_of(s) == Some(Ok::<(), Seq<Seq<char>>>(())),
{
}

/// The error the overall shutdown reports when tasks failed fatally.
pub struct ShutdownError {
    /// Names of the tasks that ended fatally, in registration order.
    pub failed_tasks: Vec<String>,
}

/// Registry of all background tasks, driving coordinated cancellation
/// and join on termination.
pub struct ShutdownCoordinator {
    tasks: Vec<TaskEntry>,
    triggered: bool,
}

impl ShutdownCoordinator {
    /// The registered tasks, in registration order.
    pub closed spec fn tasks(&self) -> Seq<TaskView> {
        self.tasks@.map_values(|t: TaskEntry| t@)
    }

    /// Whether cancellation has been issued to all registered tasks.
    pub closed spec fn triggered(&self) -> bool {
        self.triggered
    }

    /// Outcomes are only recorded after cancellation was issued to all
    /// tasks, so an undecided coordinator that has tasks mid-join is
    /// always one whose shutdown was triggered.
    pub open spec fn wf(&self) -> bool {
        !self.triggered() ==> forall|i: int|
            0 <= i < self.tasks().len() ==> (#[trigger] self.tasks()[i]).outcome is None
    }

    /// An empty registry.
    pub fn new() -> (r: ShutdownCoordinator)
        ensures
            r.wf(),
            r.tasks() == Seq::<TaskView>::empty(),
            !r.triggered(),
    {
        let r = ShutdownCoordinator { tasks: Vec::new(), triggered: false };
        proof {
            assert(r.tasks() =~= Seq::<TaskView>::empty());
        }
        r
    }

    /// Adds a task to the managed set at boot time, before any
    /// termination signal; its cancellation signal and join handle stay
    /// with the runtime under the returned index.
    pub fn register(&mut self, name: String) -> (r: usize)
        requires
            old(self).wf(),
            !old(self).triggered(),
        ensures
            final(self).wf(),
            !final(self).triggered(),
            r == old(self).tasks().len(),
            final(self).tasks() == old(self).tasks().push(
                TaskView { name: name@, outcome: None },
            ),
    {
        let ghost nm = name@;
        let r = self.tasks.len();
        self.tasks.push(TaskEntry { name, outcome: None });
        proof {
            assert(self.tasks() =~= old(self).tasks().push(TaskView { name: nm, outcome: None }));
        }
        r
    }

    /// The number of registered tasks.
    pub fn task_count(&self) -> (r: usize)
        ensures
            r == self.tasks().len(),
    {
        self.tasks.len()
    }

    /// Issues the cancellation request to every registered task: from
    /// here on no new task may be registered and joins may be recorded.
    /// The runtime fires each task's cancellation signal when this is
    /// called.
    pub fn trigger_shutdown(&mut self)
        requires
            old(self).wf(),
        ensures
            final(self).wf(),
            final(self).triggered(),
            final(self).tasks() == old(self).tasks(),
    {
        self.triggered = true;
    }

    /// Records how one task ended, once, after cancellation was issued
    /// to all tasks — no join is awaited before `trigger_shutdown`.
    pub fn record_outcome(&mut self, index: usize, outcome: TaskOutcome)
        requires
            old(self).wf(),
            old(self).triggered(),
            index < old(self).tasks().len(),
            old(self).tasks()[index as int].outcome is None,
        ensures
            final(self).wf(),
            final(self).triggered(),
            final(self).tasks() == old(self).tasks().update(
                index as int,
                TaskView { outcome: Some(outcome), ..old(self).tasks()[index as int] },
            ),
    {
        let ghost pre = self.tasks();
        proof {
            assert(pre[index as int] == self.tasks@[index as int]@);
        }
        let mut t = self.tasks.remove(index);
        t.outcome = Some(outcome);
        let ghost tv = t@;
        self.tasks.insert(index, t);
        proof {
            assert(self.tasks() =~= pre.update(index as int, tv));
        }
    }

    /// The overall shutdown result: `None` while some task has not
    /// reported — the drain is not allowed to return yet — then `Ok`
    /// when every task ended cleanly or by cancellation, and an error
    /// naming the fatally failed tasks otherwise.
    pub fn verdict(&self) -> (r: Option<Result<(), ShutdownError>>)
        requires
            self.wf(),
        ensures
            match r {
                None => verdict_of(self.tasks()) is None,
                Some(Ok(())) => verdict_of(self.tasks()) == Some(Ok::<(), Seq<Seq<char>>>(())),
                Some(Err(e)) => {
                    &&& verdict_of(self.tasks()) == Some(
                        Err::<(), Seq<Seq<char>>>(fatal_names(self.tasks())),
                    )
                    &&& e.failed_tasks@.map_values(|n: String| n@) == fatal_names(self.tasks())
                },
            },
    {
        let n = self.tasks.len();
        let mut failed: Vec<String> = Vec::new();
        let mut idx: usize = 0;
        proof {
            assert(self.tasks().subrange(0, 0) =~= Seq::<TaskView>::empty());
        }
        while idx < n
            invariant
                n == self.tasks.len(),
                0 <= idx <= n,
                forall|i: int| 0 <= i < idx ==> (#[trigger] self.tasks()[i]).outcome is Some,
                failed@.map_values(|s: String| s@) == fatal_names(
                    self.tasks().subrange(0, idx as int),
                ),
            decreases n - idx,
        {
            proof {
                assert(self.tasks()[idx as int] == self.tasks@[idx as int]@);
                lemma_fatal_names_step(self.tasks(), idx as int);
            }
            let ghost prev = failed@.map_values(|s: String| s@);
            match self.tasks[idx].outcome {
                None => {
                    return None;
                },
                Some(TaskOutcome::Fatal) => {
                    failed.push(self.tasks[idx].name.clone());
                    proof {
                        assert(failed@.map_values(|s: String| s@) =~= prev.push(
                            self.tasks()[idx as int].name,
                        ));
                    }
                },
                Some(_) => {},
            }
            idx = idx + 1;
        }
        proof {
            assert(self.tasks().subrange(0, n as int) =~= self.tasks());
        }
        if failed.len() == 0 {
            proof {
                if has_fatal(self.tasks()) {
                    let i = choose|i: int|
                        0 <= i < self.tasks().len() && (#[trigger] self.tasks()[i]).outcome
                            == Some(TaskOutcome::Fatal);
                    lemma_fatal_names_nonempty(self.tasks(), i);
                }
            }
            Some(Ok(()))
        } else {
            proof {
                lemma_fatal_names_empty(self.tasks());
            }
            Some(Err(ShutdownError { failed_tasks: failed }))
        }
    }
}

/// A fatal task contributes its name: the list of fatal names is then
/// not empty.
proof fn lemma_fatal_names_nonempty(s: Seq<TaskView>, i: int)
    requires
        0 <= i < s.len(),
        s[i].outcome == Some(TaskOutcome::Fatal),
    ensures
        fatal_names(s).len() > 0,
    decreases s.len(),
{
    if i == s.len() - 1 {
    } else {
        lemma_fatal_names_nonempty(s.drop_last(), i);
    }
}

/// With no fatal task, the list of fatal names is empty — so a
/// non-empty list certifies a fatal task.
proof fn lemma_fatal_names_empty(s: Seq<TaskView>)
    requires
        fatal_names(s).len() > 0,
    ensures
        has_fatal(s),
    decreases s.len(),
{
    if s.len() > 0 {
        if s.last().outcome == Some(TaskOutcome::Fatal) {
        } else {
            lemma_fatal_names_empty(s.drop_last());
            let i = choose|i: int|
                0 <= i < s.drop_last().len() && (#[trigger] s.drop_last()[i]).outcome == Some(
                    TaskOutcome::Fatal,
                );
            assert(s[i].outcome == Some(TaskOutcome::Fatal));
        }
    }
}

} // verus!
