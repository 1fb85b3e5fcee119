//! One step of the device: what a started event needs to be read from the
//! hardware, and the run of its task body on what was read.

use crate::actions::{Action, ActionView, Payload, Resource, Task, TASKS};
use crate::dispatcher::{DispatcherState, Event};
use crate::radio::{ClientEvent, RfEvent};
use crate::table::{lemma_held_resource_is_left_alone, task_models};
use crate::tasks::{lemma_tasks_keep_to_their_resources, Resources};
use vstd::prelude::*;

verus! {

/// What has to be read from the hardware before a task body can run.
#[derive(Debug, Clone, Copy, PartialEq, Eq, Structural)]
pub enum Need {
    /// Nothing.
    Nothing,
    /// One conversion of the sensor's output.
    Sample,
    /// Two conversions of the sensor's output, one after the other.
    TwoSamples,
    /// What the radio reports when it is handed this event.
    Report(RfEvent),
}

/// What was read from the hardware for a task body.
#[derive(Debug, Clone, PartialEq, Eq)]
pub enum Input {
    Nothing,
    Sample(u16),
    TwoSamples(u16, u16),
    Report(ClientEvent),
}

impl Need {
    /// Whether reading what is needed touches the resource: a sample comes
    /// from the sensor, a report from the radio.
    pub open spec fn touches(self, resource: Resource) -> bool {
        match self {
            Need::Nothing => false,
            Need::Sample => resource is Breathalyzer,
            Need::TwoSamples => resource is Breathalyzer,
            Need::Report(_) => resource is Longfi,
        }
    }
}

impl Input {
    /// Whether the input is what `need` asked for.
    pub open spec fn meets(self, need: Need) -> bool {
        match need {
            Need::Nothing => self is Nothing,
            Need::Sample => self is Sample,
            Need::TwoSamples => self is TwoSamples,
            Need::Report(_) => self is Report,
        }
    }

    /// Whether the input is what `need` asked for.
    pub fn answers(&self, need: Need) -> (met: bool)
        ensures
            met == self.meets(need),
    {
        match (need, self) {
            (Need::Nothing, Input::Nothing) => true,
            (Need::Sample, Input::Sample(_)) => true,
            (Need::TwoSamples, Input::TwoSamples(_, _)) => true,
            (Need::Report(_), Input::Report(_)) => true,
            _ => false,
        }
    }

    /// The first sample of the input, or 0 when it holds none.
    pub open spec fn sample(self) -> u16 {
        match self {
            Input::Sample(sample) => sample,
            Input::TwoSamples(sample, _) => sample,
            _ => 0,
        }
    }

    /// The second sample of the input, or 0 when it holds none.
    pub open spec fn fresh(self) -> u16 {
        match self {
            Input::TwoSamples(_, fresh) => fresh,
            _ => 0,
        }
    }

    /// The radio's report in the input, or that there was nothing to act on
    /// when it holds none.
    pub open spec fn reported(self) -> ClientEvent {
        match self {
            Input::Report(reported) => reported,
            _ => ClientEvent::Quiet,
        }
    }
}

impl Resources {
    /// What the task body of `event` needs to be read.  The radio task needs
    /// the radio's report on the line that its event names.  The button task
    /// needs a sample when it is about to finish a measurement.  The sensor
    /// poll needs two samples.  The sensor is not read while it is off, and
    /// an event that has no task, or the radio task without a line, needs
    /// nothing, because it will do nothing.
    pub open spec fn need_of(self, event: Event<Payload>) -> Need {
        if event.task >= TASKS {
            Need::Nothing
        } else {
            match (Task::at(event.task as int), event.payload) {
                (Task::RadioEvent, Payload::Radio(line)) => Need::Report(line),
                (Task::ButtonEvent, _) => if !self.measuring && self.buzzer.state is Enabled
                    && self.breathalyzer.state {
                    Need::Sample
                } else {
                    Need::Nothing
                },
                (Task::SensorPoll, _) => if self.breathalyzer.state {
                    Need::TwoSamples
                } else {
                    Need::Nothing
                },
                _ => Need::Nothing,
            }
        }
    }

    /// What the task body of `event` needs to be read from the hardware.
    pub fn need(&self, event: &Event<Payload>) -> (need: Need)
        ensures
            need == self.need_of(*event),
    {
        match (Task::from_id(event.task), event.payload) {
            (Some(Task::RadioEvent), Payload::Radio(line)) => Need::Report(line),
            (Some(Task::ButtonEvent), _) => {
                if !self.measuring && self.buzzer.enabled() && self.breathalyzer.state {
                    Need::Sample
                } else {
                    Need::Nothing
                }
            },
            (Some(Task::SensorPoll), _) => {
                if self.breathalyzer.state {
                    Need::TwoSamples
                } else {
                    Need::Nothing
                }
            },
            _ => Need::Nothing,
        }
    }

    /// Whether the task body of `event` runs on `input`: the event has a
    /// task, the radio and report tasks got the payload they are posted
    /// with, and the input is what the task needs.
    pub open spec fn runs(self, event: Event<Payload>, input: Input) -> bool {
        &&& event.task < TASKS
        &&& input.meets(self.need_of(event))
        &&& Task::at(event.task as int) is RadioEvent ==> event.payload is Radio
        &&& Task::at(event.task as int) is SendRadioMessage ==> event.payload is Reading
    }

    /// The state after the task body of `event` has run on `input`.
    pub open spec fn after_run(self, event: Event<Payload>, input: Input) -> Resources {
        if !self.runs(event, input) {
            self
        } else {
            match Task::at(event.task as int) {
                Task::Exti2_3 => self,
                Task::Exti4_15 => self,
                Task::RadioEvent => self.after_radio_event(input.reported()),
                Task::SendRadioMessage => self.after_send_radio_message(),
                Task::ButtonEvent => self.after_button_event(),
                Task::SensorPoll => self.after_sensor_poll(input.sample(), input.fresh()),
                Task::BuzzerPwm => self.after_buzzer_pwm(),
                Task::StopMeasuring => self.after_stop_measuring(),
                Task::WarmUp => self.after_warm_up(),
            }
        }
    }

    /// What the task body of `event` does on `input`.
    pub open spec fn run_actions(self, event: Event<Payload>, input: Input) -> Seq<ActionView> {
        if !self.runs(event, input) {
            Seq::empty()
        } else {
            match Task::at(event.task as int) {
                Task::Exti2_3 => Self::exti2_3_actions(),
                Task::Exti4_15 => Self::exti4_15_actions(),
                Task::RadioEvent => self.radio_event_actions(input.reported()),
                Task::SendRadioMessage => self.send_radio_message_actions(
                    event.payload->Reading_0,
                ),
                Task::ButtonEvent => self.button_event_actions(input.sample()),
                Task::SensorPoll => self.sensor_poll_actions(),
                Task::BuzzerPwm => self.buzzer_pwm_actions(),
                Task::StopMeasuring => self.stop_measuring_actions(),
                Task::WarmUp => self.warm_up_actions(),
            }
        }
    }

    /// Runs the task body of a started event on what was read for it, and
    /// returns the actions to carry out.  Nothing happens when the event has
    /// no task, a payload its task is not posted with, or an input that is
    /// not what its task needs.
    pub fn run(&mut self, event: &Event<Payload>, input: &Input) -> (actions: Vec<Action>)
        ensures
            *final(self) == old(self).after_run(*event, *input),
            actions.deep_view() == old(self).run_actions(*event, *input),
    {
        if !input.answers(self.need(event)) {
            return Vec::new();
        }
        let actions = match (Task::from_id(event.task), event.payload, input) {
            (Some(Task::Exti2_3), _, _) => self.exti2_3(),
            (Some(Task::Exti4_15), _, _) => self.exti4_15(),
            (Some(Task::RadioEvent), Payload::Radio(_), Input::Report(reported)) => {
                self.radio_event(reported)
            },
            (Some(Task::SendRadioMessage), Payload::Reading(level), _) => {
                self.send_radio_message(level)
            },
            (Some(Task::ButtonEvent), _, Input::Sample(sample)) => self.button_event(*sample),
            (Some(Task::ButtonEvent), _, _) => self.button_event(0),
            (Some(Task::SensorPoll), _, Input::TwoSamples(sample, fresh)) => {
                self.sensor_poll(*sample, *fresh)
            },
            (Some(Task::SensorPoll), _, _) => self.sensor_poll(0, 0),
            (Some(Task::BuzzerPwm), _, _) => self.buzzer_pwm(),
            (Some(Task::StopMeasuring), _, _) => self.stop_measuring(),
            (Some(Task::WarmUp), _, _) => self.warm_up(),
            _ => Vec::new(),
        };
        assert(actions.deep_view() =~= old(self).run_actions(*event, *input));
        actions
    }
}

/// A sample that the button task did not ask for makes no difference to what
/// it does: it looks at the sample only when it finishes a measurement with
/// the sensor on.
pub proof fn lemma_button_reads_only_what_it_needs(state: Resources, sample: u16, other: u16)
    requires
        state.measuring || !(state.buzzer.state is Enabled) || !state.breathalyzer.state,
    ensures
        state.button_event_actions(sample) == state.button_event_actions(other),
{
}

/// Whatever event is started and whatever was read for it, the run of its
/// task body keeps to the resources that its task has declared, and so does
/// the reading of what it needs.
pub proof fn lemma_run_keeps_to_resources(state: Resources, event: Event<Payload>, input: Input)
    requires
        event.task < TASKS,
    ensures
        state.kept_to(
            Task::at(event.task as int),
            state.after_run(event, input),
            state.run_actions(event, input),
        ),
        forall|resource: Resource| #[trigger]
            state.need_of(event).touches(resource) ==> Task::at(event.task as int).uses(resource),
{
    if state.runs(event, input) {
        let level = if event.payload is Reading {
            event.payload->Reading_0
        } else {
            crate::breathalyzer::BAC::NONE
        };
        lemma_tasks_keep_to_their_resources(
            state,
            input.sample(),
            input.fresh(),
            input.reported(),
            level,
        );
    }
}

/// While a task of the device holds a resource, the run of any task that is
/// started reads nothing through that resource, leaves the state behind it as
/// it is and asks for no action that touches it: what the holder is in the
/// middle of updating is never seen half done.
pub proof fn lemma_held_resource_is_not_touched(
    dispatcher: DispatcherState<Payload>,
    holder: int,
    resource: Resource,
    state: Resources,
    input: Input,
)
    requires
        dispatcher.wf(),
        dispatcher.tasks == task_models(),
        0 <= holder < dispatcher.running.len(),
        dispatcher.running[holder].locks.contains(resource.index()),
        dispatcher.next() is Some,
    ensures
        ({
            let started = dispatcher.next()->Some_0;
            &&& !state.need_of(started).touches(resource)
            &&& state.same_at(state.after_run(started, input), resource)
            &&& forall|i: int|
                0 <= i < state.run_actions(started, input).len() ==> !(
                #[trigger] state.run_actions(started, input)[i]).touches(resource)
        }),
{
    let started = dispatcher.next()->Some_0;
    lemma_held_resource_is_left_alone(dispatcher, holder, resource);
    lemma_run_keeps_to_resources(state, started, input);
}

} // verus!
