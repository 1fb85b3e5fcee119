//! The task table of the device: the priority, queue capacity and declared
//! resources of each task, the dispatcher that is made from them, and the
//! posting of the events that task bodies ask for.

use crate::actions::{Action, ActionView, Payload, Resource, Task, TASKS};
use crate::dispatcher::{Dispatcher, DispatcherState, Event, FrameModel, TaskConfig, TaskModel};
use vstd::prelude::*;

verus! {

/// Number of priority levels of the device; level 0 is left to the idle loop.
pub const LEVELS: usize = 4;

impl Task {
    /// The task's priority: the two front ends preempt everything else, and
    /// the tone and measurement timers run below the rest.
    pub open spec fn priority(self) -> usize {
        match self {
            Task::Exti2_3 | Task::Exti4_15 => 3,
            Task::BuzzerPwm | Task::StopMeasuring => 1,
            _ => 2,
        }
    }

    /// How many events of the task may wait at once.
    pub open spec fn capacity(self) -> usize {
        match self {
            Task::RadioEvent => 4,
            _ => 1,
        }
    }

    /// The resources the task may touch.
    pub open spec fn resources(self) -> Seq<usize> {
        match self {
            Task::Exti2_3 => seq![Resource::Ext.index(), Resource::Button.index()],
            Task::Exti4_15 => seq![Resource::Ext.index(), Resource::RadioExti.index()],
            Task::RadioEvent => seq![Resource::Buffer.index(), Resource::Longfi.index()],
            Task::SendRadioMessage => seq![Resource::Longfi.index()],
            Task::ButtonEvent => seq![
                Resource::Button.index(),
                Resource::Buzzer.index(),
                Resource::Breathalyzer.index(),
                Resource::Oled.index(),
                Resource::Measuring.index(),
                Resource::TimerSec.index(),
            ],
            Task::SensorPoll => seq![Resource::TimerBreath.index(), Resource::Breathalyzer.index()],
            Task::BuzzerPwm => seq![Resource::Buzzer.index(), Resource::TimerPwm.index()],
            Task::StopMeasuring => seq![
                Resource::Buzzer.index(),
                Resource::TimeCounter.index(),
                Resource::TimerSec.index(),
                Resource::Measuring.index(),
            ],
            Task::WarmUp => seq![
                Resource::Oled.index(),
                Resource::Breathalyzer.index(),
                Resource::Count.index(),
                Resource::TimerWarmUp.index(),
            ],
        }
    }

    /// The task's row of the task table.
    pub open spec fn config(self) -> TaskModel {
        TaskModel {
            priority: self.priority(),
            capacity: self.capacity(),
            resources: self.resources(),
        }
    }

    /// The task's row of the task table.
    pub fn row(self) -> (row: TaskConfig)
        ensures
            row@ == self.config(),
    {
        let mut resources: Vec<usize> = Vec::new();
        let (priority, capacity): (usize, usize) = match self {
            Task::Exti2_3 => {
                resources.push(Resource::Ext.id());
                resources.push(Resource::Button.id());
                (3, 1)
            },
            Task::Exti4_15 => {
                resources.push(Resource::Ext.id());
                resources.push(Resource::RadioExti.id());
                (3, 1)
            },
            Task::RadioEvent => {
                resources.push(Resource::Buffer.id());
                resources.push(Resource::Longfi.id());
                (2, 4)
            },
            Task::SendRadioMessage => {
                resources.push(Resource::Longfi.id());
                (2, 1)
            },
            Task::ButtonEvent => {
                resources.push(Resource::Button.id());
                resources.push(Resource::Buzzer.id());
                resources.push(Resource::Breathalyzer.id());
                resources.push(Resource::Oled.id());
                resources.push(Resource::Measuring.id());
                resources.push(Resource::TimerSec.id());
                (2, 1)
            },
            Task::SensorPoll => {
                resources.push(Resource::TimerBreath.id());
                resources.push(Resource::Breathalyzer.id());
                (2, 1)
            },
            Task::BuzzerPwm => {
                resources.push(Resource::Buzzer.id());
                resources.push(Resource::TimerPwm.id());
                (1, 1)
            },
            Task::StopMeasuring => {
                resources.push(Resource::Buzzer.id());
                resources.push(Resource::TimeCounter.id());
                resources.push(Resource::TimerSec.id());
                resources.push(Resource::Measuring.id());
                (1, 1)
            },
            Task::WarmUp => {
                resources.push(Resource::Oled.id());
                resources.push(Resource::Breathalyzer.id());
                resources.push(Resource::Count.id());
                resources.push(Resource::TimerWarmUp.id());
                (2, 1)
            },
        };
        assert(resources@ =~= self.resources());
        TaskConfig { priority, capacity, resources }
    }
}

/// The task table of the device, as contracts see it.
pub open spec fn task_models() -> Seq<TaskModel> {
    Seq::new(TASKS as nat, |index: int| Task::at(index).config())
}

/// A dispatcher for the tasks of the device, nothing waiting and nothing
/// running.
pub fn dispatcher() -> (made: Dispatcher<Payload>)
    ensures
        made@.wf(),
        made@.tasks == task_models(),
        made@.queues == Seq::new(
            LEVELS as nat,
            |level: int| Seq::<Event<Payload>>::empty(),
        ),
        made@.running == Seq::<FrameModel<Payload>>::empty(),
{
    let mut table: Vec<TaskConfig> = Vec::new();
    let mut id: usize = 0;
    while id < TASKS
        invariant
            id <= TASKS,
            table@.len() == id,
            forall|k: int| 0 <= k < id ==> (#[trigger] table@[k])@ == Task::at(k).config(),
        decreases TASKS - id,
    {
        match Task::from_id(id) {
            Some(task) => {
                table.push(task.row());
            },
            None => {},
        }
        id += 1;
    }
    assert forall|t: int| 0 <= t < table@.len() implies (#[trigger] table@[t]).priority
        < LEVELS by {
        assert(table@[t]@ == Task::at(t).config());
    }
    let ghost models = Seq::new(table@.len(), |t: int| table@[t]@);
    assert(models =~= task_models());
    match Dispatcher::new(table, LEVELS) {
        Some(made) => made,
        None => unreached(),
    }
}

/// The dispatcher after the events that `actions` ask for were posted in
/// order, the refused ones left out.
pub open spec fn spawned(state: DispatcherState<Payload>, actions: Seq<ActionView>)
    -> DispatcherState<Payload>
    decreases actions.len(),
{
    if actions.len() == 0 {
        state
    } else {
        let before = spawned(state, actions.drop_last());
        match actions.last() {
            ActionView::Spawn(task, payload) if before.accepts(task.index()) => before.posted(
                task.index(),
                payload,
            ),
            _ => before,
        }
    }
}

/// How many of the events that `actions` ask for are refused when they are
/// posted in order.
pub open spec fn refused(state: DispatcherState<Payload>, actions: Seq<ActionView>) -> nat
    decreases actions.len(),
{
    if actions.len() == 0 {
        0
    } else {
        let before = spawned(state, actions.drop_last());
        refused(state, actions.drop_last()) + match actions.last() {
            ActionView::Spawn(task, _) if !before.accepts(task.index()) => 1nat,
            _ => 0nat,
        }
    }
}

/// Posts the events that `actions` ask for, in order.  An event that the
/// dispatcher refuses is dropped and counted; the count is returned.
pub fn spawn_all(dispatcher: &mut Dispatcher<Payload>, actions: &Vec<Action>) -> (dropped: usize)
    requires
        old(dispatcher)@.wf(),
    ensures
        final(dispatcher)@.wf(),
        final(dispatcher)@ == spawned(old(dispatcher)@, actions.deep_view()),
        dropped == refused(old(dispatcher)@, actions.deep_view()),
{
    let mut dropped: usize = 0;
    let mut i: usize = 0;
    let ghost all = actions.deep_view();
    while i < actions.len()
        invariant
            i <= actions.len(),
            all == actions.deep_view(),
            dispatcher@.wf(),
            dispatcher@ == spawned(old(dispatcher)@, all.take(i as int)),
            dropped == refused(old(dispatcher)@, all.take(i as int)),
            dropped <= i,
        decreases actions.len() - i,
    {
        proof {
            assert(all.take(i + 1).drop_last() =~= all.take(i as int));
            assert(all.take(i + 1).last() == actions@[i as int].deep_view());
        }
        match &actions[i] {
            Action::Spawn(task, payload) => {
                match dispatcher.post(task.id(), *payload) {
                    Ok(()) => {},
                    Err(_) => {
                        dropped += 1;
                    },
                }
            },
            _ => {},
        }
        i += 1;
    }
    proof {
        assert(all.take(i as int) =~= all);
    }
    dropped
}

/// The task table lists for each task exactly the resources it uses.
pub proof fn lemma_table_lists_what_tasks_use(task: Task, resource: Resource)
    ensures
        task.resources().contains(resource.index()) <==> task.uses(resource),
{
    let listed = task.resources();
    if task.uses(resource) {
        match task {
            Task::Exti2_3 => {
                assert(listed[0] == Resource::Ext.index() && listed[1] == Resource::Button.index());
            },
            Task::Exti4_15 => {
                assert(listed[0] == Resource::Ext.index() && listed[1]
                    == Resource::RadioExti.index());
            },
            Task::RadioEvent => {
                assert(listed[0] == Resource::Buffer.index() && listed[1]
                    == Resource::Longfi.index());
            },
            Task::SendRadioMessage => {
                assert(listed[0] == Resource::Longfi.index());
            },
            Task::ButtonEvent => {
                assert(listed[0] == Resource::Button.index() && listed[1]
                    == Resource::Buzzer.index() && listed[2] == Resource::Breathalyzer.index()
                    && listed[3] == Resource::Oled.index() && listed[4]
                    == Resource::Measuring.index() && listed[5] == Resource::TimerSec.index());
            },
            Task::SensorPoll => {
                assert(listed[0] == Resource::TimerBreath.index() && listed[1]
                    == Resource::Breathalyzer.index());
            },
            Task::BuzzerPwm => {
                assert(listed[0] == Resource::Buzzer.index() && listed[1]
                    == Resource::TimerPwm.index());
            },
            Task::StopMeasuring => {
                assert(listed[0] == Resource::Buzzer.index() && listed[1]
                    == Resource::TimeCounter.index() && listed[2] == Resource::TimerSec.index()
                    && listed[3] == Resource::Measuring.index());
            },
            Task::WarmUp => {
                assert(listed[0] == Resource::Oled.index() && listed[1]
                    == Resource::Breathalyzer.index() && listed[2] == Resource::Count.index()
                    && listed[3] == Resource::TimerWarmUp.index());
            },
        }
    }
}

/// While a task of the device holds a resource, no task that uses that
/// resource is started.  With [`crate::tasks::lemma_tasks_keep_to_their_resources`]
/// this means that what a preempted task is in the middle of updating is
/// neither read nor changed until it has let go of it.
pub proof fn lemma_held_resource_is_left_alone(
    state: DispatcherState<Payload>,
    holder: int,
    resource: Resource,
)
    requires
        state.wf(),
        state.tasks == task_models(),
        0 <= holder < state.running.len(),
        state.running[holder].locks.contains(resource.index()),
        state.next() is Some,
    ensures
        state.next()->Some_0.task < TASKS,
        !Task::at(state.next()->Some_0.task as int).uses(resource),
{
    let started = state.next()->Some_0.task;
    let k = choose|k: int|
        0 <= k < state.running[holder].locks.len() && state.running[holder].locks[k]
            == resource.index();
    state.lemma_started_task_shares_nothing_held(holder, k);
    assert(state.knows(started)) by {
        crate::dispatcher::model::lemma_highest_nonempty(state.queues);
        if state.running.len() > 0 {
            let top = state.running.last();
            crate::dispatcher::model::lemma_raised_covers(
                state.tasks,
                state.priority(top.event.task),
                top.locks,
                0,
            );
        }
        assert(state.knows(state.queues[state.highest_ready()][0].task));
    }
    lemma_table_lists_what_tasks_use(Task::at(started as int), resource);
}

} // verus!
