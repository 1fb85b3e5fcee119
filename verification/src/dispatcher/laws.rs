//! What the dispatcher guarantees: the bound on each task's queue, the order
//! in which events are started, and that a held resource keeps the tasks
//! that share it from starting.

use crate::dispatcher::model::{
    ceiling_among, lemma_ceiling_covers, lemma_highest_nonempty, lemma_highest_nonempty_is,
    lemma_raised_covers, DispatcherState, Event, FrameModel, TaskModel,
};
use vstd::prelude::*;

verus! {

/// The ceiling of a resource is the priority of some task that declares it,
/// unless none does.
pub proof fn lemma_ceiling_is_reached(tasks: Seq<TaskModel>, resource: usize)
    ensures
        ceiling_among(tasks, resource) == -1 || exists|task: int|
            0 <= task < tasks.len() && (#[trigger] tasks[task]).resources.contains(resource)
                && tasks[task].priority == ceiling_among(tasks, resource),
    decreases tasks.len(),
{
    if tasks.len() > 0 {
        let rest = tasks.drop_last();
        lemma_ceiling_is_reached(rest, resource);
        if ceiling_among(tasks, resource) != -1 {
            if tasks.last().resources.contains(resource) && tasks.last().priority
                > ceiling_among(rest, resource) {
                assert(tasks[tasks.len() - 1].priority == ceiling_among(tasks, resource));
            } else {
                let task = choose|task: int|
                    0 <= task < rest.len() && (#[trigger] rest[task]).resources.contains(resource)
                        && rest[task].priority == ceiling_among(rest, resource);
                assert(tasks[task] == rest[task]);
            }
        }
    }
}

impl<P> DispatcherState<P> {
    /// The state after each of `payloads` was offered in turn as an event of
    /// `task`: the ones that were accepted wait, the refused ones are gone.
    pub open spec fn posted_each(self, task: usize, payloads: Seq<P>) -> DispatcherState<P>
        decreases payloads.len(),
    {
        if payloads.len() == 0 {
            self
        } else {
            let before = self.posted_each(task, payloads.drop_last());
            if before.accepts(task) {
                before.posted(task, payloads.last())
            } else {
                before
            }
        }
    }

    /// However many events are offered for one task, no more of them wait
    /// than its capacity allows; the ones beyond are refused.  The events of
    /// every other task, the queues of the other levels, the events that
    /// waited before and the running tasks are untouched.
    pub proof fn lemma_queue_bound(self, task: usize, payloads: Seq<P>)
        requires
            self.wf(),
            self.knows(task),
        ensures
            self.posted_each(task, payloads).wf(),
            self.posted_each(task, payloads).tasks == self.tasks,
            self.posted_each(task, payloads).running == self.running,
            self.posted_each(task, payloads).queues.len() == self.queues.len(),
            self.posted_each(task, payloads).pending(task) == if self.pending(task)
                + payloads.len() <= self.capacity(task) {
                self.pending(task) + payloads.len()
            } else {
                self.capacity(task) as nat
            },
            forall|other: usize|
                self.knows(other) && other != task ==> #[trigger] self.posted_each(
                    task,
                    payloads,
                ).pending(other) == self.pending(other),
            forall|level: int|
                0 <= level < self.queues.len() && level != self.priority(task) ==> (
                #[trigger] self.posted_each(task, payloads).queues[level]) == self.queues[level],
            self.queues[self.priority(task)].is_prefix_of(
                self.posted_each(task, payloads).queues[self.priority(task)],
            ),
        decreases payloads.len(),
    {
        if payloads.len() > 0 {
            let before = self.posted_each(task, payloads.drop_last());
            self.lemma_queue_bound(task, payloads.drop_last());
            if before.accepts(task) {
                before.lemma_posted(task, payloads.last());
                let after = before.posted(task, payloads.last());
                assert forall|other: usize| self.knows(other) && other != task implies (
                #[trigger] after.pending(other)) == self.pending(other) by {
                    assert(before.knows(other));
                    assert(before.pending(other) == self.pending(other));
                }
                assert forall|level: int|
                    0 <= level < self.queues.len() && level != self.priority(
                        task,
                    ) implies #[trigger] after.queues[level] == self.queues[level] by {
                    assert(before.queues[level] == self.queues[level]);
                }
            }
        }
    }

    /// While an event waits above the level that runs now, the running task
    /// does not go on: an event is started, and none waits above the level of
    /// the one that is.
    pub proof fn lemma_urgent_event_preempts(self, level: int)
        requires
            self.wf(),
            0 <= level < self.queues.len(),
            self.queues[level].len() > 0,
            level > self.level(),
        ensures
            self.next() is Some,
            self.priority(self.next()->Some_0.task) == self.highest_ready(),
            self.highest_ready() >= level,
    {
        lemma_highest_nonempty(self.queues);
    }

    /// A task that is started declares none of the resources that a running
    /// task holds: what a preempted task is in the middle of updating, the
    /// tasks that preempt it cannot see.
    pub proof fn lemma_started_task_shares_nothing_held(self, i: int, k: int)
        requires
            self.wf(),
            self.next() is Some,
            0 <= i < self.running.len(),
            0 <= k < self.running[i].locks.len(),
        ensures
            !self.declares(self.next()->Some_0.task, self.running[i].locks[k]),
    {
        let task = self.next()->Some_0.task;
        let resource = self.running[i].locks[k];
        let top = self.running.last();
        lemma_raised_covers(self.tasks, self.priority(top.event.task), top.locks, 0);
        lemma_highest_nonempty(self.queues);
        assert(self.knows(self.queues[self.highest_ready()][0].task));
        self.lemma_stack_levels(i);
        lemma_raised_covers(
            self.tasks,
            self.priority(self.running[i].event.task),
            self.running[i].locks,
            k,
        );
        if self.declares(task, resource) {
            lemma_ceiling_covers(self.tasks, resource, task as int);
        }
    }

    /// Of two events of one level, the one posted first is started first.
    pub proof fn lemma_first_in_first_out(self, first: Event<P>, second: Event<P>)
        requires
            self.wf(),
            self.running.len() == 0,
            self.highest_ready() == -1,
            self.accepts(first.task),
            self.posted(first.task, first.payload).accepts(second.task),
            self.priority(first.task) == self.priority(second.task),
        ensures
            ({
                let ready = self.posted(first.task, first.payload).posted(
                    second.task,
                    second.payload,
                );
                &&& ready.next() == Some(first)
                &&& ready.started().completed().next() == Some(second)
            }),
    {
        let level = self.priority(first.task);
        let one = self.posted(first.task, first.payload);
        let ready = one.posted(second.task, second.payload);
        lemma_highest_nonempty(self.queues);
        self.lemma_posted(first.task, first.payload);
        one.lemma_posted(second.task, second.payload);
        assert(self.queues[level] =~= Seq::<Event<P>>::empty());
        assert(ready.queues[level] =~= seq![first, second]);
        assert forall|above: int| level < above < ready.queues.len() implies (
        #[trigger] ready.queues[above]).len() == 0 by {
            assert(ready.queues[above] == self.queues[above]);
        }
        lemma_highest_nonempty_is(ready.queues, level);
        ready.lemma_started();
        let begun = ready.started();
        begun.lemma_completed();
        let done = begun.completed();
        assert(done.running =~= self.running);
        assert(done.queues[level] =~= seq![second]);
        assert forall|above: int| level < above < done.queues.len() implies (
        #[trigger] done.queues[above]).len() == 0 by {
            assert(done.queues[above] == self.queues[above]);
        }
        lemma_highest_nonempty_is(done.queues, level);
    }

    /// A task `b` runs, holding nothing, and nothing waits above it.  Events
    /// for a task `a` of higher priority and for `b` itself are posted, in
    /// either order.  Then `a` is started at once, on top of `b`; nothing
    /// interrupts it; and only when it has completed does `b` run again, its
    /// own new event still waiting behind it.
    pub proof fn lemma_preemption_order(self, a: usize, pa: P, b: usize, pb: P)
        requires
            self.wf(),
            self.running.len() > 0,
            self.running.last().event.task == b,
            self.running.last().locks.len() == 0,
            self.highest_ready() <= self.priority(b),
            self.knows(a),
            self.priority(a) > self.priority(b),
            self.accepts(a),
            self.accepts(b),
        ensures
            ({
                let ready = self.posted(a, pa).posted(b, pb);
                let preempted = ready.started();
                let resumed = preempted.completed();
                &&& self.posted(b, pb).posted(a, pa) == ready
                &&& ready.next() == Some(Event { task: a, payload: pa })
                &&& preempted.running == self.running.push(
                    FrameModel { event: Event { task: a, payload: pa }, locks: Seq::empty() },
                )
                &&& preempted.next() is None
                &&& resumed.running == self.running
                &&& resumed.next() is None
                &&& resumed.pending(b) == self.pending(b) + 1
            }),
    {
        let high = self.priority(a);
        let low = self.priority(b);
        let one = self.posted(a, pa);
        let ready = one.posted(b, pb);
        let event = Event { task: a, payload: pa };
        lemma_highest_nonempty(self.queues);
        self.lemma_posted(a, pa);
        one.lemma_posted(b, pb);
        assert(self.posted(b, pb).posted(a, pa).queues =~= ready.queues);
        assert(self.queues[high] =~= Seq::<Event<P>>::empty());
        assert(ready.queues[high] =~= seq![event]);
        assert forall|above: int| high < above < ready.queues.len() implies (
        #[trigger] ready.queues[above]).len() == 0 by {
            assert(ready.queues[above] == self.queues[above]);
        }
        lemma_highest_nonempty_is(ready.queues, high);
        ready.lemma_started();
        let preempted = ready.started();
        assert(preempted.queues[high] =~= Seq::<Event<P>>::empty());
        assert forall|above: int| low < above < preempted.queues.len() implies (
        #[trigger] preempted.queues[above]).len() == 0 by {
            if above != high {
                assert(preempted.queues[above] == self.queues[above]);
            }
        }
        assert(preempted.queues[low] == self.queues[low].push(Event { task: b, payload: pb }));
        lemma_highest_nonempty_is(preempted.queues, low);
        preempted.lemma_completed();
        let resumed = preempted.completed();
        assert(resumed.running =~= self.running);
        assert(resumed.pending(b) == ready.pending(b));
    }
}

} // verus!
