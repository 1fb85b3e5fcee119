//! The task bodies of the device and the state they share.  A task body takes
//! what was read from the hardware, updates the shared state in one step, and
//! returns the actions to carry out, in order: hardware operations, and
//! events to post for other tasks.

use crate::actions::{Action, ActionView, Irq, Payload, Resource, Task};
use crate::breathalyzer::{classification, Breathalyzer, Ladder, BAC};
use crate::buzzer::{Buzzer, BuzzerState, TonePhase};
use crate::message::{Channel, Message};
use crate::oled::Oled;
use crate::pin::PinLevel;
use crate::radio::{ClientEvent, RadioSession, RfEvent};
use vstd::prelude::*;

verus! {

/// Ticks of the warm-up timer until the sensor counts as ready.
pub const WARM_UP_TICKS: u16 = 10;

/// Ticks of the seconds timer that a measurement lasts.
pub const MEASURE_TICKS: u16 = 3;

impl BAC {
    /// The word shown on the display for a level.
    pub open spec fn label_text(self) -> Seq<char> {
        match self {
            BAC::NONE => "NONE"@,
            BAC::LOW => "LOW"@,
            BAC::MEDIUM => "MEDIUM"@,
            BAC::HIGH => "HIGH"@,
            BAC::VERY_HIGH => "VERY HIGH"@,
            BAC::DEATH => "DEATH"@,
        }
    }

    /// The word shown on the display for a level.
    pub fn label(self) -> (text: &'static str)
        ensures
            text@ == self.label_text(),
    {
        match self {
            BAC::NONE => "NONE",
            BAC::LOW => "LOW",
            BAC::MEDIUM => "MEDIUM",
            BAC::HIGH => "HIGH",
            BAC::VERY_HIGH => "VERY HIGH",
            BAC::DEATH => "DEATH",
        }
    }
}

/// The state that the tasks share, apart from the hardware handles: whether
/// the sensor is still warming up and for how many ticks, whether a
/// measurement is under way and for how many ticks, the three drivers, the
/// radio session, and the address this device answers to.
#[derive(Debug, Clone, Copy, PartialEq, Eq, Structural)]
pub struct Resources {
    pub warming: bool,
    pub count: u16,
    pub measuring: bool,
    pub time_counter: u16,
    pub breathalyzer: Breathalyzer,
    pub buzzer: Buzzer,
    pub oled: Oled,
    pub radio: RadioSession,
    pub address: u32,
}

impl Resources {
    /// The level that the button task reports for `sample`: the sensor's
    /// reading, or `NONE` when the sensor is off and gives none.
    pub open spec fn reading(self, sample: u16) -> BAC {
        if self.breathalyzer.state {
            classification(self.breathalyzer.ladder, sample, self.breathalyzer.curr_val)
        } else {
            BAC::NONE
        }
    }

    /// The record that reports `level` upstream.
    pub open spec fn report(self, level: BAC) -> Message {
        Message { id: self.address, channel: Channel::One, data: level.rank() as u32 }
    }

    /// The state at start-up: the sensor heating and warming up with nothing
    /// counted, no measurement under way, the buzzer silent, the display dark
    /// and the radio listening.  Returns the state and what brings the
    /// hardware to it.
    pub fn new(ladder: Ladder, address: u32) -> (made: (Resources, Vec<Action>))
        ensures
            made.0 == (Resources {
                warming: true,
                count: 0,
                measuring: false,
                time_counter: 0,
                breathalyzer: Breathalyzer { ladder, curr_val: 0, state: true },
                buzzer: Buzzer { state: BuzzerState::Disabled },
                oled: Oled { style1: Oled::filled(), style2: Oled::hollow(), state: false },
                radio: RadioSession::Receiving,
                address,
            }),
            made.1.deep_view() == seq![
                ActionView::HeaterPin(PinLevel::Low),
                ActionView::RadioSetBuffer,
                ActionView::RadioReceive,
            ],
    {
        let mut breathalyzer = Breathalyzer::new(ladder);
        let heater = breathalyzer.on();
        let mut radio = RadioSession::new();
        radio.receive();
        let mut actions: Vec<Action> = Vec::new();
        actions.push(Action::HeaterPin(heater));
        actions.push(Action::RadioSetBuffer);
        actions.push(Action::RadioReceive);
        assert(actions.deep_view() =~= seq![
            ActionView::HeaterPin(PinLevel::Low),
            ActionView::RadioSetBuffer,
            ActionView::RadioReceive,
        ]);
        (
            Resources {
                warming: true,
                count: 0,
                measuring: false,
                time_counter: 0,
                breathalyzer,
                buzzer: Buzzer::new(),
                oled: Oled::new(),
                radio,
                address,
            },
            actions,
        )
    }

    /// What the front end of the button's interrupt line does.
    pub open spec fn exti2_3_actions() -> Seq<ActionView> {
        seq![
            ActionView::Acknowledge(Irq::Button),
            ActionView::Spawn(Task::ButtonEvent, Payload::Empty),
        ]
    }

    /// What the front end of the radio's interrupt line does.
    pub open spec fn exti4_15_actions() -> Seq<ActionView> {
        seq![
            ActionView::Acknowledge(Irq::Radio),
            ActionView::Spawn(Task::RadioEvent, Payload::Radio(RfEvent { dio: 0 })),
        ]
    }

    /// Front end of the button's interrupt line: acknowledges the interrupt,
    /// then posts one event for the button task.
    pub fn exti2_3(&self) -> (actions: Vec<Action>)
        ensures
            actions.deep_view() == Self::exti2_3_actions(),
    {
        let mut actions: Vec<Action> = Vec::new();
        actions.push(Action::Acknowledge(Irq::Button));
        actions.push(Action::Spawn(Task::ButtonEvent, Payload::Empty));
        assert(actions.deep_view() =~= seq![
            ActionView::Acknowledge(Irq::Button),
            ActionView::Spawn(Task::ButtonEvent, Payload::Empty),
        ]);
        actions
    }

    /// Front end of the radio's interrupt line: acknowledges the interrupt,
    /// then posts one event for the radio task, which says that line 0 fired.
    pub fn exti4_15(&self) -> (actions: Vec<Action>)
        ensures
            actions.deep_view() == Self::exti4_15_actions(),
    {
        let mut actions: Vec<Action> = Vec::new();
        actions.push(Action::Acknowledge(Irq::Radio));
        actions.push(Action::Spawn(Task::RadioEvent, Payload::Radio(RfEvent { dio: 0 })));
        assert(actions.deep_view() =~= seq![
            ActionView::Acknowledge(Irq::Radio),
            ActionView::Spawn(Task::RadioEvent, Payload::Radio(RfEvent { dio: 0 })),
        ]);
        actions
    }

    /// What the radio task does on `event`.
    pub open spec fn radio_event_actions(self, event: ClientEvent) -> Seq<ActionView> {
        match event {
            ClientEvent::TxDone => seq![ActionView::RadioReceive],
            ClientEvent::Rx(bytes) => {
                let rearm = seq![ActionView::RadioSetBuffer, ActionView::RadioReceive];
                match Message::decoding(bytes@) {
                    Some(message) if message.id == self.address => seq![
                        ActionView::Spawn(Task::ButtonEvent, Payload::Empty),
                    ] + rearm,
                    _ => rearm,
                }
            },
            ClientEvent::Quiet => Seq::empty(),
        }
    }

    /// The state after the radio task has run on `event`: unless there was
    /// nothing to act on, the radio listens again.
    pub open spec fn after_radio_event(self, event: ClientEvent) -> Resources {
        if event is Quiet {
            self
        } else {
            Resources { radio: RadioSession::Receiving, ..self }
        }
    }

    /// The radio task.  After a transmission the radio goes back to receive
    /// mode.  After a reception the bytes are decoded; a record addressed to
    /// this device posts the button task; and whatever the bytes held, the
    /// radio gets a fresh buffer and goes back to receive mode, so that no
    /// packet stalls the session.
    pub fn radio_event(&mut self, event: &ClientEvent) -> (actions: Vec<Action>)
        ensures
            *final(self) == old(self).after_radio_event(*event),
            actions.deep_view() == old(self).radio_event_actions(*event),
    {
        let mut actions: Vec<Action> = Vec::new();
        self.radio.handle_event(event);
        match event {
            ClientEvent::TxDone => {
                self.radio.receive();
                actions.push(Action::RadioReceive);
            },
            ClientEvent::Rx(bytes) => {
                match Message::deserialize(bytes.as_slice()) {
                    Some(message) => {
                        if message.id == self.address {
                            actions.push(Action::Spawn(Task::ButtonEvent, Payload::Empty));
                        }
                    },
                    None => {},
                }
                self.radio.receive();
                actions.push(Action::RadioSetBuffer);
                actions.push(Action::RadioReceive);
            },
            ClientEvent::Quiet => {},
        }
        assert(actions.deep_view() =~= old(self).radio_event_actions(*event));
        actions
    }

    /// The state after the report task has run: a transmission is under way.
    pub open spec fn after_send_radio_message(self) -> Resources {
        Resources { radio: RadioSession::TxPending, ..self }
    }

    /// What the report task does for `level`.
    pub open spec fn send_radio_message_actions(self, level: BAC) -> Seq<ActionView> {
        seq![ActionView::RadioSend(self.report(level).encoding())]
    }

    /// The task that reports a reading upstream: the level goes out as the
    /// data of a record on channel one, addressed with this device's address.
    pub fn send_radio_message(&mut self, bac: BAC) -> (actions: Vec<Action>)
        ensures
            *final(self) == old(self).after_send_radio_message(),
            actions.deep_view() == old(self).send_radio_message_actions(bac),
    {
        let message = Message { id: self.address, data: bac.code(), channel: Channel::One };
        let mut actions: Vec<Action> = Vec::new();
        self.radio.send();
        actions.push(Action::RadioSend(message.serialize()));
        assert(actions.deep_view() =~= old(self).send_radio_message_actions(bac));
        actions
    }

    /// The state after the button task has run.
    pub open spec fn after_button_event(self) -> Resources {
        if self.measuring {
            self
        } else if self.buzzer.state is Enabled {
            Resources {
                buzzer: Buzzer { state: BuzzerState::Disabled },
                oled: Oled { state: true, ..self.oled },
                ..self
            }
        } else {
            Resources {
                buzzer: Buzzer { state: BuzzerState::Enabled { tone_phase: TonePhase::Off } },
                oled: Oled { state: true, ..self.oled },
                measuring: true,
                ..self
            }
        }
    }

    /// What the button task does on `sample`.
    pub open spec fn button_event_actions(self, sample: u16) -> Seq<ActionView> {
        if self.measuring {
            Seq::empty()
        } else if self.buzzer.state is Enabled {
            seq![
                ActionView::BuzzerPin(PinLevel::Low),
                ActionView::Display(
                    self.oled.on_program(Oled::message(self.reading(sample).label_text())),
                ),
                ActionView::Spawn(Task::SendRadioMessage, Payload::Reading(self.reading(sample))),
            ]
        } else {
            seq![
                ActionView::Display(self.oled.on_program(Oled::message("Reading"@))),
                ActionView::Listen(Irq::TimerSec),
            ]
        }
    }

    /// The button task.  `sample` is the value converted from the sensor when
    /// the task runs.  While a measurement is under way the task does
    /// nothing.  With the buzzer silent it starts one: the display says so,
    /// the buzzer sounds and the seconds timer is armed.  With the buzzer
    /// sounding it finishes one: the buzzer falls silent, the sample is
    /// classified and shown, and the report task is posted with the level.
    pub fn button_event(&mut self, sample: u16) -> (actions: Vec<Action>)
        ensures
            *final(self) == old(self).after_button_event(),
            actions.deep_view() == old(self).button_event_actions(sample),
    {
        let mut actions: Vec<Action> = Vec::new();
        if !self.measuring {
            if self.buzzer.enabled() {
                let pin = self.buzzer.disable();
                let value = match self.breathalyzer.read(sample) {
                    Some(level) => level,
                    None => BAC::NONE,
                };
                let ops = self.oled.on(value.label());
                actions.push(Action::BuzzerPin(pin));
                actions.push(Action::Display(ops));
                actions.push(Action::Spawn(Task::SendRadioMessage, Payload::Reading(value)));
            } else {
                let ops = self.oled.on("Reading");
                self.buzzer.enable();
                self.measuring = true;
                actions.push(Action::Display(ops));
                actions.push(Action::Listen(Irq::TimerSec));
            }
        }
        assert(actions.deep_view() =~= old(self).button_event_actions(sample));
        actions
    }

    /// The state after the sensor poll task has run on `sample` and `fresh`.
    pub open spec fn after_sensor_poll(self, sample: u16, fresh: u16) -> Resources {
        if self.breathalyzer.state && sample >= self.breathalyzer.curr_val {
            Resources {
                breathalyzer: Breathalyzer { curr_val: fresh, ..self.breathalyzer },
                ..self
            }
        } else {
            self
        }
    }

    /// What the sensor poll task does.
    pub open spec fn sensor_poll_actions(self) -> Seq<ActionView> {
        seq![ActionView::Acknowledge(Irq::TimerBreath)]
    }

    /// The sensor poll task.  `sample` and `fresh` are two values converted
    /// from the sensor, in this order.  When the first is not below the
    /// baseline, the second becomes the baseline.  A sensor that is off is
    /// not read.
    pub fn sensor_poll(&mut self, sample: u16, fresh: u16) -> (actions: Vec<Action>)
        ensures
            *final(self) == old(self).after_sensor_poll(sample, fresh),
            actions.deep_view() == old(self).sensor_poll_actions(),
    {
        let mut actions: Vec<Action> = Vec::new();
        actions.push(Action::Acknowledge(Irq::TimerBreath));
        match self.breathalyzer.read_curr(sample) {
            Some(value) => {
                if !(value < self.breathalyzer.curr_val) {
                    match self.breathalyzer.read_curr(fresh) {
                        Some(baseline) => {
                            self.breathalyzer.curr_val = baseline;
                        },
                        None => {},
                    }
                }
            },
            None => {},
        }
        assert(actions.deep_view() =~= old(self).sensor_poll_actions());
        actions
    }

    /// The state after a tick of the tone timer.
    pub open spec fn after_buzzer_pwm(self) -> Resources {
        Resources { buzzer: self.buzzer.toggled(), ..self }
    }

    /// What the tone task does.
    pub open spec fn buzzer_pwm_actions(self) -> Seq<ActionView> {
        if self.buzzer.state is Enabled {
            seq![
                ActionView::Acknowledge(Irq::TimerPwm),
                ActionView::BuzzerPin(self.buzzer.toggled().pin_level()),
            ]
        } else {
            seq![ActionView::Acknowledge(Irq::TimerPwm)]
        }
    }

    /// The tone task, run on every tick of the tone timer: inverts the buzzer
    /// pin while the buzzer is enabled.  Whether it is enabled is looked up
    /// when the task runs, so a tick that was queued before the buzzer was
    /// disabled does nothing to the pin.
    pub fn buzzer_pwm(&mut self) -> (actions: Vec<Action>)
        ensures
            *final(self) == old(self).after_buzzer_pwm(),
            actions.deep_view() == old(self).buzzer_pwm_actions(),
    {
        let mut actions: Vec<Action> = Vec::new();
        actions.push(Action::Acknowledge(Irq::TimerPwm));
        match self.buzzer.toggle_pwm() {
            Some(level) => {
                actions.push(Action::BuzzerPin(level));
            },
            None => {},
        }
        assert(actions.deep_view() =~= old(self).buzzer_pwm_actions());
        actions
    }

    /// The state after a tick of the seconds timer.
    pub open spec fn after_stop_measuring(self) -> Resources {
        if !self.measuring {
            self
        } else if self.time_counter + 1 >= MEASURE_TICKS {
            Resources { measuring: false, time_counter: 0, ..self }
        } else {
            Resources { time_counter: (self.time_counter + 1) as u16, ..self }
        }
    }

    /// What the measurement sequencer does on a tick of the seconds timer.
    pub open spec fn stop_measuring_actions(self) -> Seq<ActionView> {
        if self.measuring && self.time_counter + 1 >= MEASURE_TICKS {
            seq![
                ActionView::Acknowledge(Irq::TimerSec),
                ActionView::Spawn(Task::ButtonEvent, Payload::Empty),
            ]
        } else {
            seq![ActionView::Acknowledge(Irq::TimerSec)]
        }
    }

    /// The measurement sequencer, run on every tick of the seconds timer.
    /// While a measurement is under way it counts the ticks; on the tick with
    /// which the count reaches [`MEASURE_TICKS`] it ends the measurement,
    /// clears the count and posts the button task, once, to report the
    /// reading.  A tick that finds no measurement under way is acknowledged
    /// and nothing else.
    pub fn stop_measuring(&mut self) -> (actions: Vec<Action>)
        ensures
            *final(self) == old(self).after_stop_measuring(),
            actions.deep_view() == old(self).stop_measuring_actions(),
    {
        let mut actions: Vec<Action> = Vec::new();
        actions.push(Action::Acknowledge(Irq::TimerSec));
        if self.measuring {
            if self.time_counter >= MEASURE_TICKS - 1 {
                self.measuring = false;
                self.time_counter = 0;
                actions.push(Action::Spawn(Task::ButtonEvent, Payload::Empty));
            } else {
                self.time_counter = self.time_counter + 1;
            }
        }
        assert(actions.deep_view() =~= old(self).stop_measuring_actions());
        actions
    }

    /// The state after a tick of the warm-up timer.
    pub open spec fn after_warm_up(self) -> Resources {
        if !self.warming {
            self
        } else if self.count + 1 >= WARM_UP_TICKS {
            Resources {
                warming: false,
                count: 0,
                oled: Oled { state: true, ..self.oled },
                ..self
            }
        } else {
            Resources {
                count: (self.count + 1) as u16,
                oled: Oled { state: true, ..self.oled },
                ..self
            }
        }
    }

    /// What the warm-up sequencer does on a tick of the warm-up timer.
    pub open spec fn warm_up_actions(self) -> Seq<ActionView> {
        if !self.warming {
            seq![ActionView::Acknowledge(Irq::TimerWarmUp)]
        } else if self.count + 1 >= WARM_UP_TICKS {
            seq![
                ActionView::Acknowledge(Irq::TimerWarmUp),
                ActionView::Display(self.oled.on_program(Oled::message("Ready"@))),
                ActionView::Unlisten(Irq::TimerWarmUp),
            ]
        } else {
            seq![
                ActionView::Acknowledge(Irq::TimerWarmUp),
                ActionView::Display(self.oled.on_program(Oled::message("Warming up"@))),
            ]
        }
    }

    /// The warm-up sequencer, run on every tick of the warm-up timer.  While
    /// the sensor is warming up it counts the ticks and shows that it does;
    /// on the tick with which the count reaches [`WARM_UP_TICKS`] it shows
    /// that the sensor is ready, disarms its timer, clears the count and ends
    /// the warm-up.  A tick that comes after that, queued before the timer
    /// was disarmed, is acknowledged and nothing else.
    pub fn warm_up(&mut self) -> (actions: Vec<Action>)
        ensures
            *final(self) == old(self).after_warm_up(),
            actions.deep_view() == old(self).warm_up_actions(),
    {
        let mut actions: Vec<Action> = Vec::new();
        actions.push(Action::Acknowledge(Irq::TimerWarmUp));
        if self.warming {
            if self.count >= WARM_UP_TICKS - 1 {
                let ops = self.oled.on("Ready");
                self.count = 0;
                self.warming = false;
                actions.push(Action::Display(ops));
                actions.push(Action::Unlisten(Irq::TimerWarmUp));
            } else {
                let ops = self.oled.on("Warming up");
                self.count = self.count + 1;
                actions.push(Action::Display(ops));
            }
        }
        assert(actions.deep_view() =~= old(self).warm_up_actions());
        actions
    }
}

impl Resources {
    /// Whether the part of the state that stands behind `resource` is the
    /// same in both.  The resources that are hardware handles have no part
    /// in this state.
    pub open spec fn same_at(self, other: Resources, resource: Resource) -> bool {
        match resource {
            Resource::Count => self.count == other.count && self.warming == other.warming,
            Resource::Measuring => self.measuring == other.measuring,
            Resource::TimeCounter => self.time_counter == other.time_counter,
            Resource::Breathalyzer => self.breathalyzer == other.breathalyzer,
            Resource::Buzzer => self.buzzer == other.buzzer,
            Resource::Oled => self.oled == other.oled,
            Resource::Longfi => self.radio == other.radio,
            _ => true,
        }
    }

    /// Whether a run of `task` that led from this state to `after` and asked
    /// for `actions` kept to the resources that the task has declared: the
    /// state behind every other resource is as it was, no action touches
    /// another resource, and the device's address is as it was.
    pub open spec fn kept_to(self, task: Task, after: Resources, actions: Seq<ActionView>) -> bool {
        &&& after.address == self.address
        &&& forall|resource: Resource|
            !task.uses(resource) ==> #[trigger] self.same_at(after, resource)
        &&& forall|i: int, resource: Resource|
            0 <= i < actions.len() && #[trigger] actions[i].touches(resource) ==> task.uses(
                resource,
            )
    }
}

/// No task body reads or changes a resource that its task has not declared.
pub proof fn lemma_tasks_keep_to_their_resources(
    state: Resources,
    sample: u16,
    fresh: u16,
    event: ClientEvent,
    level: BAC,
)
    ensures
        state.kept_to(Task::Exti2_3, state, Resources::exti2_3_actions()),
        state.kept_to(Task::Exti4_15, state, Resources::exti4_15_actions()),
        state.kept_to(
            Task::RadioEvent,
            state.after_radio_event(event),
            state.radio_event_actions(event),
        ),
        state.kept_to(
            Task::SendRadioMessage,
            state.after_send_radio_message(),
            state.send_radio_message_actions(level),
        ),
        state.kept_to(
            Task::ButtonEvent,
            state.after_button_event(),
            state.button_event_actions(sample),
        ),
        state.kept_to(
            Task::SensorPoll,
            state.after_sensor_poll(sample, fresh),
            state.sensor_poll_actions(),
        ),
        state.kept_to(Task::BuzzerPwm, state.after_buzzer_pwm(), state.buzzer_pwm_actions()),
        state.kept_to(
            Task::StopMeasuring,
            state.after_stop_measuring(),
            state.stop_measuring_actions(),
        ),
        state.kept_to(Task::WarmUp, state.after_warm_up(), state.warm_up_actions()),
{
}

/// A measurement that starts with nothing counted lasts [`MEASURE_TICKS`]
/// ticks of the seconds timer: the first two post nothing, the third ends the
/// measurement, clears the count and posts the button task once, and the
/// ticks after it find no measurement and post nothing.
pub proof fn lemma_measurement_lasts_three_ticks(state: Resources)
    requires
        state.measuring,
        state.time_counter == 0,
    ensures
        ({
            let one = state.after_stop_measuring();
            let two = one.after_stop_measuring();
            let done = two.after_stop_measuring();
            &&& state.stop_measuring_actions() == seq![ActionView::Acknowledge(Irq::TimerSec)]
            &&& one.stop_measuring_actions() == seq![ActionView::Acknowledge(Irq::TimerSec)]
            &&& two.measuring && two.time_counter == MEASURE_TICKS - 1
            &&& two.stop_measuring_actions() == seq![
                ActionView::Acknowledge(Irq::TimerSec),
                ActionView::Spawn(Task::ButtonEvent, Payload::Empty),
            ]
            &&& done == (Resources { measuring: false, ..state })
            &&& done.after_stop_measuring() == done
            &&& done.stop_measuring_actions() == seq![ActionView::Acknowledge(Irq::TimerSec)]
        }),
{
}

/// The state after `ticks` ticks of the warm-up timer.
pub open spec fn warmed(state: Resources, ticks: nat) -> Resources
    decreases ticks,
{
    if ticks == 0 {
        state
    } else {
        warmed(state, (ticks - 1) as nat).after_warm_up()
    }
}

/// A warm-up that starts with nothing counted lasts [`WARM_UP_TICKS`] ticks
/// of the warm-up timer: each but the last shows that the sensor is warming
/// up, the last shows that it is ready, disarms the timer and ends the
/// warm-up, and a later tick changes nothing.
pub proof fn lemma_warm_up_ends(state: Resources, ticks: nat)
    requires
        state.warming,
        state.count == 0,
    ensures
        ticks < WARM_UP_TICKS ==> warmed(state, ticks).warming && warmed(state, ticks).count
            == ticks,
        ticks + 1 < WARM_UP_TICKS ==> warmed(state, ticks).warm_up_actions().len() == 2,
        ticks + 1 == WARM_UP_TICKS ==> warmed(state, ticks).warm_up_actions().len() == 3 && warmed(
            state,
            ticks,
        ).warm_up_actions()[2] == ActionView::Unlisten(Irq::TimerWarmUp),
        ticks >= WARM_UP_TICKS ==> !warmed(state, ticks).warming && warmed(state, ticks).count == 0
            && warmed(state, ticks).warm_up_actions() == seq![
            ActionView::Acknowledge(Irq::TimerWarmUp),
        ],
    decreases ticks,
{
    if ticks > 0 {
        lemma_warm_up_ends(state, (ticks - 1) as nat);
    }
}

/// Whatever the radio reported, after the radio task has acted on it the
/// session is not left with a reception pending, and unless there was nothing
/// to act on the last thing asked of the radio is to listen.
pub proof fn lemma_radio_is_rearmed(state: Resources, event: ClientEvent)
    ensures
        !(event is Quiet) ==> state.after_radio_event(event).radio == RadioSession::Receiving
            && state.radio_event_actions(event).last() == ActionView::RadioReceive,
        event is Rx ==> state.radio_event_actions(event).contains(ActionView::RadioSetBuffer),
{
    if event is Rx {
        let actions = state.radio_event_actions(event);
        assert(actions[actions.len() - 2] == ActionView::RadioSetBuffer);
    }
}

} // verus!
