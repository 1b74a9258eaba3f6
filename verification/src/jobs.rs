//! The protocol task lifecycle manager.
//!
//! A [`ProtocolJobsManager`] belongs to exactly one connection and owns the
//! background tasks its protocol handlers start. `spawn` records one task,
//! `start` marks the manager active (idempotently), and `stop` — used once,
//! at connection teardown — cancels every recorded task. After `stop`
//! returns, no task of this manager is running, so none delivers further
//! side effects: the protocol step functions guarantee they change nothing
//! when their task is no longer running.

use vstd::prelude::*;

verus! {

/// The lifecycle state of one recorded task.
#[derive(Clone, Copy, Debug, PartialEq, Eq, Structural)]
pub enum TaskStatus {
    Running,
    Finished,
}

/// Owns and can bulk-cancel the background tasks of one connection.
#[derive(Debug)]
pub struct ProtocolJobsManager {
    pub name: &'static str,
    pub started: bool,
    pub stopped: bool,
    pub tasks: Vec<TaskStatus>,
}

impl ProtocolJobsManager {
    /// Task `i` was spawned and has neither finished nor been cancelled.
    pub open spec fn task_running(&self, i: int) -> bool {
        0 <= i < self.tasks@.len() && self.tasks@[i] is Running
    }

    /// Once the manager is stopped, nothing runs any more.
    pub open spec fn wf(&self) -> bool {
        self.stopped ==> forall|i: int| !self.task_running(i)
    }

    /// A fresh manager for one connection: inactive, with no tasks.
    pub fn new(name: &'static str) -> (r: ProtocolJobsManager)
        ensures
            r.name == name,
            !r.started,
            !r.stopped,
            r.tasks@ == Seq::<TaskStatus>::empty(),
            r.wf(),
    {
        ProtocolJobsManager { name, started: false, stopped: false, tasks: Vec::new() }
    }

    /// Marks the manager active; calling it again changes nothing.
    pub fn start(&mut self)
        ensures
            final(self).started,
            final(self).stopped == old(self).stopped,
            final(self).tasks == old(self).tasks,
            final(self).name == old(self).name,
            old(self).wf() ==> final(self).wf(),
    {
        self.started = true;
        proof {
            if old(self).wf() && self.stopped {
                assert forall|i: int| !self.task_running(i) by {
                    assert(!old(self).task_running(i));
                }
            }
        }
    }

    /// Records one unit of concurrent work tied to the connection and
    /// returns its handle. A stopped manager accepts no further work.
    pub fn spawn(&mut self) -> (r: usize)
        requires
            !old(self).stopped,
            old(self).tasks@.len() < usize::MAX,
        ensures
            r == old(self).tasks@.len(),
            final(self).tasks@ == old(self).tasks@.push(TaskStatus::Running),
            final(self).task_running(r as int),
            final(self).started == old(self).started,
            final(self).stopped == old(self).stopped,
            final(self).name == old(self).name,
            final(self).wf(),
    {
        let id = self.tasks.len();
        self.tasks.push(TaskStatus::Running);
        id
    }

    /// Records that one task's loop has exited (for instance because its
    /// subscription failed); sibling tasks are unaffected.
    pub fn task_finished(&mut self, id: usize)
        requires
            id < old(self).tasks@.len(),
        ensures
            final(self).tasks@ == old(self).tasks@.update(id as int, TaskStatus::Finished),
            !final(self).task_running(id as int),
            final(self).started == old(self).started,
            final(self).stopped == old(self).stopped,
            final(self).name == old(self).name,
            old(self).wf() ==> final(self).wf(),
    {
        self.tasks[id] = TaskStatus::Finished;
        proof {
            if old(self).wf() && self.stopped {
                assert forall|i: int| !self.task_running(i) by {
                    assert(!old(self).task_running(i));
                }
            }
        }
    }

    /// Cancels every recorded task and waits for their termination: after
    /// this returns, no task owned by this manager is still running or
    /// will deliver further messages.
    pub fn stop(&mut self)
        ensures
            final(self).stopped,
            final(self).tasks@.len() == old(self).tasks@.len(),
            forall|i: int| !final(self).task_running(i),
            final(self).started == old(self).started,
            final(self).name == old(self).name,
            final(self).wf(),
    {
        let n = self.tasks.len();
        let mut i: usize = 0;
        while i < n
            invariant
                i <= n,
                n == self.tasks@.len(),
                forall|k: int| 0 <= k < i ==> self.tasks@[k] is Finished,
                self.started == old(self).started,
                self.name == old(self).name,
            decreases n - i,
        {
            self.tasks[i] = TaskStatus::Finished;
            i = i + 1;
        }
        self.stopped = true;
    }

    /// How many tasks were ever spawned.
    pub fn n_tasks(&self) -> (r: usize)
        ensures
            r == self.tasks@.len(),
    {
        self.tasks.len()
    }

    /// Whether task `id` is still running.
    pub fn is_running(&self, id: usize) -> (r: bool)
        requires
            id < self.tasks@.len(),
        ensures
            r == self.task_running(id as int),
    {
        match self.tasks[id] {
            TaskStatus::Running => true,
            TaskStatus::Finished => false,
        }
    }
}

/// Cancellation is final: a stopped, well-formed manager has no running
/// task, whichever task one asks about, so nothing it owns can take
/// another step.
pub proof fn lemma_stopped_manager_runs_nothing(m: ProtocolJobsManager, i: int)
    requires
        m.wf(),
        m.stopped,
    ensures
        !m.task_running(i),
{
}

} // verus!
