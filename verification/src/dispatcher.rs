//! The priority task dispatcher: a fixed-priority, run-to-completion scheduler
//! for one core.  Events wait in one first-in-first-out queue per priority
//! level; the running tasks form a stack, each one having preempted the one
//! below it; a task that touches a shared resource raises its level to the
//! resource's ceiling for as long as it holds it.

pub mod laws;
pub mod model;

pub use crate::dispatcher::model::{DispatcherState, Event, FrameModel, TaskModel};

use crate::dispatcher::model::{
    ceiling_among, count_of, highest_nonempty, lemma_highest_nonempty, raised,
};
use vstd::prelude::*;

verus! {

/// How many events of a task may wait at once where nothing else is asked for.
pub const DEFAULT_CAPACITY: usize = 4;

/// A row of the task table: the task's priority (higher is more urgent), how
/// many of its events may wait at once, and the resources it may touch.
#[derive(Debug, Clone, PartialEq, Eq)]
pub struct TaskConfig {
    pub priority: usize,
    pub capacity: usize,
    pub resources: Vec<usize>,
}

impl View for TaskConfig {
    type V = TaskModel;

    open spec fn view(&self) -> TaskModel {
        TaskModel { priority: self.priority, capacity: self.capacity, resources: self.resources@ }
    }
}

impl TaskConfig {
    /// A row with the default capacity.
    pub fn new(priority: usize, resources: Vec<usize>) -> (row: TaskConfig)
        ensures
            row@ == (TaskModel { priority, capacity: DEFAULT_CAPACITY, resources: resources@ }),
    {
        TaskConfig { priority, capacity: DEFAULT_CAPACITY, resources }
    }
}

/// A task that has started and not yet completed.
pub struct Frame<P> {
    event: Event<P>,
    locks: Vec<usize>,
}

impl<P> View for Frame<P> {
    type V = FrameModel<P>;

    closed spec fn view(&self) -> FrameModel<P> {
        FrameModel { event: self.event, locks: self.locks@ }
    }
}

/// Why an event was not accepted.
#[derive(Debug, Clone, Copy, PartialEq, Eq, Structural)]
pub enum PostError {
    /// As many events of the task are waiting as its capacity allows.
    QueueFull,
    /// The task table has no task with that index.
    UnknownTask,
}

/// Why a resource was not taken.
#[derive(Debug, Clone, Copy, PartialEq, Eq, Structural)]
pub enum LockError {
    /// No task is running.
    Idle,
    /// The running task has not declared the resource.
    NotDeclared,
}

/// The dispatcher.  Its fields are private: a dispatcher comes from
/// [`Dispatcher::new`], which makes it well formed, and changes only through
/// the operations below, which keep it so.
pub struct Dispatcher<P> {
    tasks: Vec<TaskConfig>,
    queues: Vec<Vec<Event<P>>>,
    running: Vec<Frame<P>>,
}

impl<P> View for Dispatcher<P> {
    type V = DispatcherState<P>;

    closed spec fn view(&self) -> DispatcherState<P> {
        DispatcherState {
            tasks: Seq::new(self.tasks@.len(), |t: int| self.tasks@[t]@),
            queues: Seq::new(self.queues@.len(), |p: int| self.queues@[p]@),
            running: Seq::new(self.running@.len(), |i: int| self.running@[i]@),
        }
    }
}

/// A level as a number, -1 standing for none.
pub open spec fn level_of(level: Option<usize>) -> int {
    match level {
        Some(l) => l as int,
        None => -1,
    }
}

/// Whether `resources` lists `resource`.
fn lists(resources: &Vec<usize>, resource: usize) -> (found: bool)
    ensures
        found == resources@.contains(resource),
{
    let mut i: usize = 0;
    while i < resources.len()
        invariant
            i <= resources.len(),
            forall|k: int| 0 <= k < i ==> resources@[k] != resource,
        decreases resources.len() - i,
    {
        if resources[i] == resource {
            return true;
        }
        i += 1;
    }
    false
}

/// How many events of `task` wait in `queue`.
fn count_in<P>(queue: &Vec<Event<P>>, task: usize) -> (n: usize)
    ensures
        n == count_of(queue@, task),
{
    let mut n: usize = 0;
    let mut i: usize = 0;
    while i < queue.len()
        invariant
            i <= queue.len(),
            n == count_of(queue@.take(i as int), task),
            n <= i,
        decreases queue.len() - i,
    {
        proof {
            assert(queue@.take(i + 1).drop_last() =~= queue@.take(i as int));
        }
        if queue[i].task == task {
            n += 1;
        }
        i += 1;
    }
    proof {
        assert(queue@.take(i as int) =~= queue@);
    }
    n
}

impl<P: Copy> Dispatcher<P> {
    /// A dispatcher for the tasks of `tasks` with `levels` priority levels,
    /// nothing waiting and nothing running.  There is none when a task's
    /// priority is not below `levels`.
    pub fn new(tasks: Vec<TaskConfig>, levels: usize) -> (made: Option<Dispatcher<P>>)
        ensures
            made is Some <==> forall|t: int|
                0 <= t < tasks@.len() ==> (#[trigger] tasks@[t]).priority < levels,
            made matches Some(d) ==> {
                &&& d@.wf()
                &&& d@.tasks == Seq::new(tasks@.len(), |t: int| tasks@[t]@)
                &&& d@.queues == Seq::new(levels as nat, |p: int| Seq::<Event<P>>::empty())
                &&& d@.running == Seq::<FrameModel<P>>::empty()
            },
    {
        let mut t: usize = 0;
        while t < tasks.len()
            invariant
                t <= tasks.len(),
                forall|k: int| 0 <= k < t ==> (#[trigger] tasks@[k]).priority < levels,
            decreases tasks.len() - t,
        {
            if tasks[t].priority >= levels {
                return None;
            }
            t += 1;
        }
        let mut queues: Vec<Vec<Event<P>>> = Vec::new();
        let mut p: usize = 0;
        while p < levels
            invariant
                p <= levels,
                queues@.len() == p,
                forall|k: int| 0 <= k < p ==> (#[trigger] queues@[k])@.len() == 0,
            decreases levels - p,
        {
            queues.push(Vec::new());
            p += 1;
        }
        let dispatcher = Dispatcher { tasks, queues, running: Vec::new() };
        proof {
            let state = dispatcher@;
            assert forall|k: int| 0 <= k < levels implies #[trigger] state.queues[k] == Seq::<
                Event<P>,
            >::empty() by {
                assert(dispatcher.queues@[k]@ =~= Seq::<Event<P>>::empty());
            }
            assert(state.queues =~= Seq::new(levels as nat, |p: int| Seq::<Event<P>>::empty()));
            assert(state.running =~= Seq::<FrameModel<P>>::empty());
            assert forall|t: usize| #[trigger] state.knows(t) implies state.priority(t)
                < state.queues.len() && state.pending(t) <= state.capacity(t) by {
                assert(tasks@[t as int].priority < levels);
            }
        }
        Some(dispatcher)
    }

    /// Queues an event for `task`, behind the waiting events of its level.
    /// The event is refused, and nothing changes, when the task is unknown or
    /// has as many events waiting as its capacity allows.
    pub fn post(&mut self, task: usize, payload: P) -> (r: Result<(), PostError>)
        requires
            old(self)@.wf(),
        ensures
            final(self)@.wf(),
            match r {
                Ok(()) => old(self)@.accepts(task) && final(self)@ == old(self)@.posted(
                    task,
                    payload,
                ),
                Err(PostError::UnknownTask) => !old(self)@.knows(task) && final(self)@ == old(
                    self,
                )@,
                Err(PostError::QueueFull) => old(self)@.knows(task) && !old(self)@.accepts(task)
                    && final(self)@ == old(self)@,
            },
    {
        if task >= self.tasks.len() {
            return Err(PostError::UnknownTask);
        }
        let level = self.tasks[task].priority;
        let capacity = self.tasks[task].capacity;
        assert(self@.knows(task));
        if count_in(&self.queues[level], task) >= capacity {
            return Err(PostError::QueueFull);
        }
        let event = Event { task, payload };
        self.queues[level].push(event);
        proof {
            let before = old(self)@;
            assert(self@.tasks =~= before.tasks);
            assert(self@.running =~= before.running);
            assert(self@.queues =~= before.queues.update(
                level as int,
                before.queues[level as int].push(event),
            ));
            before.lemma_posted(task, payload);
        }
        Ok(())
    }

    /// How many events of `task` are waiting; none of an unknown task.
    pub fn pending(&self, task: usize) -> (n: usize)
        requires
            self@.wf(),
        ensures
            n == if self@.knows(task) {
                self@.pending(task)
            } else {
                0
            },
    {
        if task >= self.tasks.len() {
            return 0;
        }
        assert(self@.knows(task));
        count_in(&self.queues[self.tasks[task].priority], task)
    }

    /// The event that the running task serves, if a task is running.
    pub fn current(&self) -> (event: Option<Event<P>>)
        ensures
            event == if self@.running.len() > 0 {
                Some(self@.running.last().event)
            } else {
                None
            },
    {
        if self.running.len() == 0 {
            None
        } else {
            Some(self.running[self.running.len() - 1].event)
        }
    }

    /// The ceiling of `resource`: the highest priority among the tasks that
    /// declare it, or none when no task does.
    pub fn ceiling(&self, resource: usize) -> (ceiling: Option<usize>)
        ensures
            level_of(ceiling) == self@.ceiling(resource),
    {
        let mut ceiling: Option<usize> = None;
        let mut t: usize = 0;
        while t < self.tasks.len()
            invariant
                t <= self.tasks.len(),
                level_of(ceiling) == ceiling_among(self@.tasks.take(t as int), resource),
            decreases self.tasks.len() - t,
        {
            proof {
                assert(self@.tasks.take(t + 1).drop_last() =~= self@.tasks.take(t as int));
            }
            if lists(&self.tasks[t].resources, resource) {
                let priority = self.tasks[t].priority;
                match ceiling {
                    None => {
                        ceiling = Some(priority);
                    },
                    Some(c) => {
                        if priority > c {
                            ceiling = Some(priority);
                        }
                    },
                }
            }
            t += 1;
        }
        proof {
            assert(self@.tasks.take(t as int) =~= self@.tasks);
        }
        ceiling
    }

    /// The level of the task that runs now: its priority, or the highest
    /// ceiling of what it holds if that is above it.  None when no task runs.
    pub fn level(&self) -> (level: Option<usize>)
        requires
            self@.wf(),
        ensures
            level_of(level) == self@.level(),
            level is None <==> self@.running.len() == 0,
    {
        if self.running.len() == 0 {
            return None;
        }
        let top = &self.running[self.running.len() - 1];
        assert(top@ == self@.running.last());
        assert(self@.knows(top@.event.task));
        let mut level: usize = self.tasks[top.event.task].priority;
        let ghost base = level as int;
        let mut k: usize = 0;
        while k < top.locks.len()
            invariant
                k <= top.locks.len(),
                level == raised(self@.tasks, base, top.locks@.take(k as int)),
            decreases top.locks.len() - k,
        {
            proof {
                assert(top.locks@.take(k + 1).drop_last() =~= top.locks@.take(k as int));
            }
            match self.ceiling(top.locks[k]) {
                Some(c) => {
                    if c > level {
                        level = c;
                    }
                },
                None => {},
            }
            k += 1;
        }
        proof {
            assert(top.locks@.take(k as int) =~= top.locks@);
        }
        Some(level)
    }

    /// The highest level at which an event waits, or none when none waits.
    fn highest_ready(&self) -> (level: Option<usize>)
        ensures
            level_of(level) == self@.highest_ready(),
    {
        let mut p: usize = self.queues.len();
        proof {
            assert(self@.queues.take(p as int) =~= self@.queues);
        }
        while p > 0
            invariant
                p <= self.queues.len(),
                highest_nonempty(self@.queues) == highest_nonempty(self@.queues.take(p as int)),
            decreases p,
        {
            proof {
                assert(self@.queues.take(p as int).drop_last() =~= self@.queues.take(p - 1));
            }
            if self.queues[p - 1].len() > 0 {
                return Some(p - 1);
            }
            p -= 1;
        }
        proof {
            assert(self@.queues.take(0).len() == 0);
        }
        None
    }

    /// Starts the next event, if one waits above the level that runs now: it
    /// leaves its queue, its task goes on top of the stack of running tasks,
    /// and the event is returned for its task to be run.  Otherwise nothing
    /// changes and nothing is returned: the running task goes on.
    pub fn dispatch(&mut self) -> (started: Option<Event<P>>)
        requires
            old(self)@.wf(),
        ensures
            final(self)@.wf(),
            started == old(self)@.next(),
            final(self)@ == if started is Some {
                old(self)@.started()
            } else {
                old(self)@
            },
    {
        let ready = self.highest_ready();
        let running = self.level();
        proof {
            lemma_highest_nonempty(self@.queues);
        }
        let level = match ready {
            None => {
                return None;
            },
            Some(level) => level,
        };
        match running {
            Some(now) => {
                if level <= now {
                    return None;
                }
            },
            None => {},
        }
        let event = self.queues[level].remove(0);
        self.running.push(Frame { event, locks: Vec::new() });
        proof {
            let before = old(self)@;
            let frame = FrameModel { event, locks: Seq::<usize>::empty() };
            assert(before.queues[level as int].remove(0) =~= before.queues[level as int].drop_first());
            assert(self@.tasks =~= before.tasks);
            assert(self@.queues =~= before.queues.update(
                level as int,
                before.queues[level as int].drop_first(),
            ));
            assert(self.running@.last()@ =~= frame);
            assert(self@.running =~= before.running.push(frame));
            before.lemma_started();
        }
        Some(event)
    }

    /// Ends the running task: it leaves the stack with whatever it still
    /// held, and the task it had preempted, if any, runs again.  Returns the
    /// event that the task served, or nothing when no task was running.
    pub fn complete(&mut self) -> (done: Option<Event<P>>)
        requires
            old(self)@.wf(),
        ensures
            final(self)@.wf(),
            done == if old(self)@.running.len() > 0 {
                Some(old(self)@.running.last().event)
            } else {
                None
            },
            final(self)@ == if done is Some {
                old(self)@.completed()
            } else {
                old(self)@
            },
    {
        match self.running.pop() {
            None => None,
            Some(frame) => {
                proof {
                    let before = old(self)@;
                    assert(frame@ == before.running.last());
                    assert(self@.tasks =~= before.tasks);
                    assert(self@.queues =~= before.queues);
                    assert(self@.running =~= before.running.drop_last());
                    before.lemma_completed();
                }
                Some(frame.event)
            },
        }
    }

    /// The running task takes `resource`, which lifts its level to the
    /// resource's ceiling if that is higher.  Refused, with nothing changed,
    /// when no task runs or the running task has not declared the resource.
    pub fn lock(&mut self, resource: usize) -> (r: Result<(), LockError>)
        requires
            old(self)@.wf(),
        ensures
            final(self)@.wf(),
            match r {
                Ok(()) => old(self)@.running.len() > 0 && old(self)@.declares(
                    old(self)@.running.last().event.task,
                    resource,
                ) && final(self)@ == old(self)@.locked(resource),
                Err(LockError::Idle) => old(self)@.running.len() == 0 && final(self)@ == old(
                    self,
                )@,
                Err(LockError::NotDeclared) => old(self)@.running.len() > 0 && !old(
                    self,
                )@.declares(old(self)@.running.last().event.task, resource) && final(self)@
                    == old(self)@,
            },
    {
        let n = self.running.len();
        if n == 0 {
            return Err(LockError::Idle);
        }
        let task = self.running[n - 1].event.task;
        assert(self.running@[n - 1]@ == self@.running.last());
        assert(self@.knows(task));
        if !lists(&self.tasks[task].resources, resource) {
            return Err(LockError::NotDeclared);
        }
        self.running[n - 1].locks.push(resource);
        proof {
            let before = old(self)@;
            assert(self@.tasks =~= before.tasks);
            assert(self@.queues =~= before.queues);
            assert(self@.running =~= before.locked(resource).running);
            before.lemma_locked(resource);
        }
        Ok(())
    }

    /// The running task gives back the resource it took last, which is
    /// returned.  Nothing changes, and nothing is returned, when no task runs
    /// or the running task holds nothing.
    pub fn unlock(&mut self) -> (released: Option<usize>)
        requires
            old(self)@.wf(),
        ensures
            final(self)@.wf(),
            released == if old(self)@.running.len() > 0 && old(self)@.running.last().locks.len()
                > 0 {
                Some(old(self)@.running.last().locks.last())
            } else {
                None
            },
            final(self)@ == if released is Some {
                old(self)@.unlocked()
            } else {
                old(self)@
            },
    {
        let n = self.running.len();
        if n == 0 {
            return None;
        }
        assert(self.running@[n - 1]@ == self@.running.last());
        let released = self.running[n - 1].locks.pop();
        proof {
            let before = old(self)@;
            assert(self@.tasks =~= before.tasks);
            assert(self@.queues =~= before.queues);
            if released is Some {
                assert(self@.running =~= before.unlocked().running);
                before.lemma_unlocked();
            } else {
                assert(self@.running =~= before.running);
            }
        }
        released
    }
}

} // verus!
