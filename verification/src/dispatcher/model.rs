//! The dispatcher as contracts see it: its state as sequences, the state
//! after each operation, what holds of every state, and the proofs that the
//! operations keep it so.

use vstd::prelude::*;

verus! {

/// What is fixed about a task: its priority (higher is more urgent), how many
/// of its events may wait at once, and the resources it may touch.
pub struct TaskModel {
    pub priority: usize,
    pub capacity: usize,
    pub resources: Seq<usize>,
}

/// A request to run the task with index `task`, with one payload value.
#[derive(Debug, Clone, Copy, PartialEq, Eq)]
pub struct Event<P> {
    pub task: usize,
    pub payload: P,
}

/// A task that has started and not yet completed: the event it serves and the
/// resources it holds, the latest taken last.
pub struct FrameModel<P> {
    pub event: Event<P>,
    pub locks: Seq<usize>,
}

/// How many events of `task` a queue holds.
pub open spec fn count_of<P>(queue: Seq<Event<P>>, task: usize) -> nat
    decreases queue.len(),
{
    if queue.len() == 0 {
        0
    } else {
        count_of(queue.drop_last(), task) + if queue.last().task == task {
            1nat
        } else {
            0nat
        }
    }
}

/// The ceiling of a resource: the highest priority among the tasks that
/// declare it, or -1 when none does.
pub open spec fn ceiling_among(tasks: Seq<TaskModel>, resource: usize) -> int
    decreases tasks.len(),
{
    if tasks.len() == 0 {
        -1
    } else {
        let rest = ceiling_among(tasks.drop_last(), resource);
        if tasks.last().resources.contains(resource) && tasks.last().priority > rest {
            tasks.last().priority as int
        } else {
            rest
        }
    }
}

/// The level of a task of priority `base` that holds `locks`: the highest of
/// its priority and the ceilings of what it holds.
pub open spec fn raised(tasks: Seq<TaskModel>, base: int, locks: Seq<usize>) -> int
    decreases locks.len(),
{
    if locks.len() == 0 {
        base
    } else {
        let below = raised(tasks, base, locks.drop_last());
        let ceiling = ceiling_among(tasks, locks.last());
        if ceiling > below {
            ceiling
        } else {
            below
        }
    }
}

/// The highest level whose queue holds an event, or -1 when all are empty.
pub open spec fn highest_nonempty<P>(queues: Seq<Seq<Event<P>>>) -> int
    decreases queues.len(),
{
    if queues.len() == 0 {
        -1
    } else if queues.last().len() > 0 {
        queues.len() - 1
    } else {
        highest_nonempty(queues.drop_last())
    }
}

/// The dispatcher as contracts see it: the task table, the queue of each
/// priority level (index 0 the least urgent, the oldest event first), and the
/// stack of running tasks (the one that runs now last).
pub struct DispatcherState<P> {
    pub tasks: Seq<TaskModel>,
    pub queues: Seq<Seq<Event<P>>>,
    pub running: Seq<FrameModel<P>>,
}

impl<P> DispatcherState<P> {
    /// Whether the task table has a task with this index.
    pub open spec fn knows(self, task: usize) -> bool {
        task < self.tasks.len()
    }

    /// The priority of a task.
    pub open spec fn priority(self, task: usize) -> int {
        self.tasks[task as int].priority as int
    }

    /// How many events of a task may wait at once.
    pub open spec fn capacity(self, task: usize) -> int {
        self.tasks[task as int].capacity as int
    }

    /// Whether a task has declared a resource.
    pub open spec fn declares(self, task: usize, resource: usize) -> bool {
        self.tasks[task as int].resources.contains(resource)
    }

    /// How many events of a task are waiting.
    pub open spec fn pending(self, task: usize) -> nat {
        count_of(self.queues[self.priority(task)], task)
    }

    /// The ceiling of a resource, or -1 when no task declares it.
    pub open spec fn ceiling(self, resource: usize) -> int {
        ceiling_among(self.tasks, resource)
    }

    /// The level at which a started task runs.
    pub open spec fn frame_level(self, frame: FrameModel<P>) -> int {
        raised(self.tasks, self.priority(frame.event.task), frame.locks)
    }

    /// The level of the task that runs now, or -1 when none does.
    pub open spec fn level(self) -> int {
        if self.running.len() == 0 {
            -1
        } else {
            self.frame_level(self.running.last())
        }
    }

    /// The highest level at which an event waits, or -1 when none waits.
    pub open spec fn highest_ready(self) -> int {
        highest_nonempty(self.queues)
    }

    /// The event that is started next: the oldest of the highest level at
    /// which one waits, provided that level is above the one that runs now.
    pub open spec fn next(self) -> Option<Event<P>> {
        if self.highest_ready() > self.level() {
            Some(self.queues[self.highest_ready()][0])
        } else {
            None
        }
    }

    /// The state after the next event was started: it has left its queue and
    /// its task runs on top of the stack, holding nothing.
    pub open spec fn started(self) -> DispatcherState<P> {
        let level = self.highest_ready();
        DispatcherState {
            tasks: self.tasks,
            queues: self.queues.update(level, self.queues[level].drop_first()),
            running: self.running.push(
                FrameModel { event: self.queues[level][0], locks: Seq::empty() },
            ),
        }
    }

    /// The state after the running task completed.
    pub open spec fn completed(self) -> DispatcherState<P> {
        DispatcherState { running: self.running.drop_last(), ..self }
    }

    /// Whether an event of `task` can be accepted.
    pub open spec fn accepts(self, task: usize) -> bool {
        self.knows(task) && self.pending(task) < self.capacity(task)
    }

    /// The state after an event was accepted: it waits behind all others of
    /// its task's level.
    pub open spec fn posted(self, task: usize, payload: P) -> DispatcherState<P> {
        let level = self.priority(task);
        DispatcherState {
            queues: self.queues.update(level, self.queues[level].push(Event { task, payload })),
            ..self
        }
    }

    /// The state after the running task took a resource.
    pub open spec fn locked(self, resource: usize) -> DispatcherState<P> {
        let top = self.running.last();
        DispatcherState {
            running: self.running.update(
                self.running.len() - 1,
                FrameModel { event: top.event, locks: top.locks.push(resource) },
            ),
            ..self
        }
    }

    /// The state after the running task gave back the resource it took last.
    pub open spec fn unlocked(self) -> DispatcherState<P> {
        let top = self.running.last();
        DispatcherState {
            running: self.running.update(
                self.running.len() - 1,
                FrameModel { event: top.event, locks: top.locks.drop_last() },
            ),
            ..self
        }
    }

    /// What holds of every dispatcher: priorities are levels of the table;
    /// each waiting event is of a known task and waits at its task's level;
    /// no task has more events waiting than its capacity; each running task
    /// is known and holds only resources it has declared; and each running
    /// task has a priority above the level of the one it preempted.
    pub open spec fn wf(self) -> bool {
        &&& forall|t: usize| #[trigger]
            self.knows(t) ==> self.priority(t) < self.queues.len() && self.pending(t)
                <= self.capacity(t)
        &&& forall|p: int, i: int|
            0 <= p < self.queues.len() && 0 <= i < self.queues[p].len() ==> self.knows(
                (#[trigger] self.queues[p][i]).task,
            ) && self.priority(self.queues[p][i].task) == p
        &&& forall|i: int|
            0 <= i < self.running.len() ==> self.knows((#[trigger] self.running[i]).event.task)
        &&& forall|i: int, k: int|
            0 <= i < self.running.len() && 0 <= k < self.running[i].locks.len() ==> self.declares(
                self.running[i].event.task,
                #[trigger] self.running[i].locks[k],
            )
        &&& forall|i: int|
            0 < i < self.running.len() ==> self.priority((#[trigger] self.running[i]).event.task)
                > self.frame_level(self.running[i - 1])
    }
}

/// Appending an event raises the count of its own task by one and no other.
pub proof fn lemma_count_push<P>(queue: Seq<Event<P>>, event: Event<P>, task: usize)
    ensures
        count_of(queue.push(event), task) == count_of(queue, task) + if event.task == task {
            1nat
        } else {
            0nat
        },
{
    assert(queue.push(event).drop_last() =~= queue);
}

/// Taking the oldest event away lowers the count of its own task by one and
/// no other.
pub proof fn lemma_count_drop_first<P>(queue: Seq<Event<P>>, task: usize)
    requires
        queue.len() > 0,
    ensures
        count_of(queue.drop_first(), task) + (if queue[0].task == task {
            1nat
        } else {
            0nat
        }) == count_of(queue, task),
    decreases queue.len(),
{
    if queue.len() == 1 {
        assert(queue.drop_first() =~= Seq::<Event<P>>::empty());
        assert(queue.drop_last() =~= Seq::<Event<P>>::empty());
    } else {
        lemma_count_drop_first(queue.drop_last(), task);
        assert(queue.drop_first().drop_last() =~= queue.drop_last().drop_first());
    }
}

/// The ceiling of a resource is at least the priority of every task that
/// declares it.
pub proof fn lemma_ceiling_covers(tasks: Seq<TaskModel>, resource: usize, task: int)
    requires
        0 <= task < tasks.len(),
        tasks[task].resources.contains(resource),
    ensures
        tasks[task].priority <= ceiling_among(tasks, resource),
    decreases tasks.len(),
{
    if task < tasks.len() - 1 {
        lemma_ceiling_covers(tasks.drop_last(), resource, task);
    }
}

/// A task runs at least at its own priority and at least at the ceiling of
/// everything it holds.
pub proof fn lemma_raised_covers(tasks: Seq<TaskModel>, base: int, locks: Seq<usize>, k: int)
    ensures
        raised(tasks, base, locks) >= base,
        0 <= k < locks.len() ==> raised(tasks, base, locks) >= ceiling_among(tasks, locks[k]),
    decreases locks.len(),
{
    if locks.len() > 0 {
        lemma_raised_covers(tasks, base, locks.drop_last(), k);
    }
}

/// The highest level with a waiting event is a level whose queue is not
/// empty, and every queue above it is empty.
pub proof fn lemma_highest_nonempty<P>(queues: Seq<Seq<Event<P>>>)
    ensures
        -1 <= highest_nonempty(queues) < queues.len(),
        highest_nonempty(queues) >= 0 ==> queues[highest_nonempty(queues)].len() > 0,
        forall|level: int|
            highest_nonempty(queues) < level < queues.len() ==> (#[trigger] queues[level]).len()
                == 0,
    decreases queues.len(),
{
    if queues.len() > 0 && queues.last().len() == 0 {
        let rest = queues.drop_last();
        lemma_highest_nonempty(rest);
        assert forall|level: int| highest_nonempty(queues) < level < queues.len() implies (
        #[trigger] queues[level]).len() == 0 by {
            if level < rest.len() {
                assert(rest[level] == queues[level]);
            }
        }
    }
}

/// A level whose queue is not empty, with only empty queues above it, is the
/// highest level with a waiting event.
pub proof fn lemma_highest_nonempty_is<P>(queues: Seq<Seq<Event<P>>>, level: int)
    requires
        0 <= level < queues.len(),
        queues[level].len() > 0,
        forall|above: int| level < above < queues.len() ==> (#[trigger] queues[above]).len() == 0,
    ensures
        highest_nonempty(queues) == level,
{
    lemma_highest_nonempty(queues);
}

impl<P> DispatcherState<P> {
    /// No task below the top of the stack runs at a higher level than the one
    /// on top.
    pub proof fn lemma_stack_levels(self, i: int)
        requires
            self.wf(),
            0 <= i < self.running.len(),
        ensures
            self.frame_level(self.running[i]) <= self.level(),
        decreases self.running.len() - i,
    {
        if i < self.running.len() - 1 {
            self.lemma_stack_levels(i + 1);
            let above = self.running[i + 1];
            lemma_raised_covers(self.tasks, self.priority(above.event.task), above.locks, 0);
        }
    }

    /// Accepting an event keeps the dispatcher well formed, adds one to the
    /// waiting events of its task, and leaves those of every other task, the
    /// queues of the other levels and the running tasks as they were.
    pub proof fn lemma_posted(self, task: usize, payload: P)
        requires
            self.wf(),
            self.accepts(task),
        ensures
            self.posted(task, payload).wf(),
            self.posted(task, payload).pending(task) == self.pending(task) + 1,
            forall|other: usize|
                self.knows(other) && other != task ==> #[trigger] self.posted(
                    task,
                    payload,
                ).pending(other) == self.pending(other),
            forall|level: int|
                0 <= level < self.queues.len() && level != self.priority(task) ==> (
                #[trigger] self.posted(task, payload).queues[level]) == self.queues[level],
            self.posted(task, payload).level() == self.level(),
    {
        let after = self.posted(task, payload);
        let level = self.priority(task);
        let event = Event { task, payload };
        assert forall|t: usize| #[trigger] after.knows(t) implies after.priority(t)
            < after.queues.len() && after.pending(t) <= after.capacity(t) && after.pending(t)
            == self.pending(t) + if t == task {
            1nat
        } else {
            0nat
        } by {
            assert(self.knows(t));
            if self.priority(t) == level {
                lemma_count_push(self.queues[level], event, t);
            }
        }
        assert forall|other: usize| self.knows(other) && other != task implies #[trigger] after.pending(
            other,
        ) == self.pending(other) by {
            assert(after.knows(other));
        }
        assert forall|p: int, i: int|
            0 <= p < after.queues.len() && 0 <= i < after.queues[p].len() implies after.knows(
            (#[trigger] after.queues[p][i]).task,
        ) && after.priority(after.queues[p][i].task) == p by {
            if p == level && i == self.queues[p].len() {
            } else {
                assert(after.queues[p][i] == self.queues[p][i]);
            }
        }
        assert forall|i: int| 0 < i < after.running.len() implies after.priority(
            (#[trigger] after.running[i]).event.task,
        ) > after.frame_level(after.running[i - 1]) by {
            assert(self.priority(self.running[i].event.task) > self.frame_level(
                self.running[i - 1],
            ));
        }
    }

    /// Starting the next event keeps the dispatcher well formed; the started
    /// task runs at the level its event waited at, which is above the level
    /// that ran before.
    pub proof fn lemma_started(self)
        requires
            self.wf(),
            self.next() is Some,
        ensures
            self.started().wf(),
            self.started().level() == self.highest_ready(),
            self.started().level() == self.priority(self.next()->Some_0.task),
            self.started().level() > self.level(),
    {
        let after = self.started();
        let level = self.highest_ready();
        lemma_highest_nonempty(self.queues);
        if self.running.len() > 0 {
            let top = self.running.last();
            lemma_raised_covers(self.tasks, self.priority(top.event.task), top.locks, 0);
        }
        assert(self.knows(self.queues[level][0].task));
        assert forall|t: usize| #[trigger] after.knows(t) implies after.priority(t)
            < after.queues.len() && after.pending(t) <= after.capacity(t) by {
            assert(self.knows(t));
            if self.priority(t) == level {
                lemma_count_drop_first(self.queues[level], t);
            }
        }
        assert forall|p: int, i: int|
            0 <= p < after.queues.len() && 0 <= i < after.queues[p].len() implies after.knows(
            (#[trigger] after.queues[p][i]).task,
        ) && after.priority(after.queues[p][i].task) == p by {
            if p == level {
                assert(after.queues[p][i] == self.queues[p][i + 1]);
            } else {
                assert(after.queues[p][i] == self.queues[p][i]);
            }
        }
        assert forall|i: int| 0 <= i < after.running.len() implies after.knows(
            (#[trigger] after.running[i]).event.task,
        ) by {
            if i < self.running.len() {
                assert(after.running[i] == self.running[i]);
            }
        }
        assert forall|i: int, k: int|
            0 <= i < after.running.len() && 0 <= k
                < after.running[i].locks.len() implies after.declares(
            after.running[i].event.task,
            #[trigger] after.running[i].locks[k],
        ) by {
            assert(after.running[i] == self.running[i]);
        }
        assert forall|i: int| 0 < i < after.running.len() implies after.priority(
            (#[trigger] after.running[i]).event.task,
        ) > after.frame_level(after.running[i - 1]) by {
            if i < self.running.len() {
                assert(self.priority(self.running[i].event.task) > self.frame_level(
                    self.running[i - 1],
                ));
            } else {
                assert(after.running[i - 1] == self.running.last());
            }
        }
    }

    /// The end of the running task keeps the dispatcher well formed and
    /// leaves every queue as it was.
    pub proof fn lemma_completed(self)
        requires
            self.wf(),
            self.running.len() > 0,
        ensures
            self.completed().wf(),
            self.completed().level() < self.priority(self.running.last().event.task),
    {
        let after = self.completed();
        assert forall|t: usize| #[trigger] after.knows(t) implies after.priority(t)
            < after.queues.len() && after.pending(t) <= after.capacity(t) by {
            assert(self.knows(t));
        }
        assert forall|i: int| 0 < i < after.running.len() implies after.priority(
            (#[trigger] after.running[i]).event.task,
        ) > after.frame_level(after.running[i - 1]) by {
            assert(self.priority(self.running[i].event.task) > self.frame_level(
                self.running[i - 1],
            ));
        }
        assert forall|i: int| 0 <= i < after.running.len() implies after.knows(
            (#[trigger] after.running[i]).event.task,
        ) by {
            assert(after.running[i] == self.running[i]);
        }
        assert forall|i: int, k: int|
            0 <= i < after.running.len() && 0 <= k
                < after.running[i].locks.len() implies after.declares(
            after.running[i].event.task,
            #[trigger] after.running[i].locks[k],
        ) by {
            assert(after.running[i] == self.running[i]);
        }
        if self.running.len() > 1 {
            let i = self.running.len() - 1;
            assert(self.priority(self.running[i].event.task) > self.frame_level(
                self.running[i - 1],
            ));
            assert(after.running.last() == self.running[i - 1]);
        }
    }

    /// Taking a declared resource keeps the dispatcher well formed and lifts
    /// the running task to the resource's ceiling at least.
    pub proof fn lemma_locked(self, resource: usize)
        requires
            self.wf(),
            self.running.len() > 0,
            self.declares(self.running.last().event.task, resource),
        ensures
            self.locked(resource).wf(),
            self.locked(resource).level() >= self.level(),
            self.locked(resource).level() >= self.ceiling(resource),
    {
        let after = self.locked(resource);
        let top = self.running.len() - 1;
        assert(self.running[top].locks.push(resource).drop_last() =~= self.running[top].locks);
        assert forall|t: usize| #[trigger] after.knows(t) implies after.priority(t)
            < after.queues.len() && after.pending(t) <= after.capacity(t) by {
            assert(self.knows(t));
        }
        assert forall|i: int| 0 <= i < after.running.len() implies after.knows(
            (#[trigger] after.running[i]).event.task,
        ) by {
            assert(after.running[i].event == self.running[i].event);
        }
        assert forall|i: int, k: int|
            0 <= i < after.running.len() && 0 <= k
                < after.running[i].locks.len() implies after.declares(
            after.running[i].event.task,
            #[trigger] after.running[i].locks[k],
        ) by {
            if i == top && k == self.running[top].locks.len() {
            } else {
                assert(after.running[i].locks[k] == self.running[i].locks[k]);
            }
        }
        assert forall|i: int| 0 < i < after.running.len() implies after.priority(
            (#[trigger] after.running[i]).event.task,
        ) > after.frame_level(after.running[i - 1]) by {
            assert(self.priority(self.running[i].event.task) > self.frame_level(
                self.running[i - 1],
            ));
            assert(after.running[i - 1] == self.running[i - 1]);
        }
    }

    /// Giving back the resource taken last keeps the dispatcher well formed.
    pub proof fn lemma_unlocked(self)
        requires
            self.wf(),
            self.running.len() > 0,
            self.running.last().locks.len() > 0,
        ensures
            self.unlocked().wf(),
            self.unlocked().level() <= self.level(),
    {
        let after = self.unlocked();
        let top = self.running.len() - 1;
        assert forall|t: usize| #[trigger] after.knows(t) implies after.priority(t)
            < after.queues.len() && after.pending(t) <= after.capacity(t) by {
            assert(self.knows(t));
        }
        assert forall|i: int| 0 <= i < after.running.len() implies after.knows(
            (#[trigger] after.running[i]).event.task,
        ) by {
            assert(after.running[i].event == self.running[i].event);
        }
        assert forall|i: int, k: int|
            0 <= i < after.running.len() && 0 <= k
                < after.running[i].locks.len() implies after.declares(
            after.running[i].event.task,
            #[trigger] after.running[i].locks[k],
        ) by {
            assert(after.running[i].locks[k] == self.running[i].locks[k]);
        }
        assert forall|i: int| 0 < i < after.running.len() implies after.priority(
            (#[trigger] after.running[i]).event.task,
        ) > after.frame_level(after.running[i - 1]) by {
            assert(self.priority(self.running[i].event.task) > self.frame_level(
                self.running[i - 1],
            ));
            assert(after.running[i - 1] == self.running[i - 1]);
        }
    }
}

} // verus!
