//! The vocabulary of the device: its tasks, the resources they share, its
//! interrupt sources, what an event carries, and the actions that a task body
//! hands back for the caller to carry out.

use crate::breathalyzer::BAC;
use crate::oled::{DisplayOp, DisplayOpView};
use crate::packet::Packet;
use crate::pin::PinLevel;
use crate::radio::RfEvent;
use vstd::prelude::*;

verus! {

/// Number of tasks of the device.
pub const TASKS: usize = 9;

/// The tasks of the device.
#[allow(non_camel_case_types)]
#[derive(Debug, Clone, Copy, PartialEq, Eq, Structural)]
pub enum Task {
    /// Front end of the button's interrupt line.
    Exti2_3,
    /// Front end of the radio's interrupt line.
    Exti4_15,
    RadioEvent,
    SendRadioMessage,
    ButtonEvent,
    SensorPoll,
    BuzzerPwm,
    StopMeasuring,
    WarmUp,
}

/// The resources that the tasks share.
#[derive(Debug, Clone, Copy, PartialEq, Eq, Structural)]
pub enum Resource {
    Buffer,
    Count,
    Measuring,
    TimeCounter,
    Ext,
    Button,
    TimerBreath,
    TimerPwm,
    TimerSec,
    TimerWarmUp,
    Breathalyzer,
    Buzzer,
    Longfi,
    RadioExti,
    Oled,
}

/// The interrupt sources of the device.
#[derive(Debug, Clone, Copy, PartialEq, Eq, Structural)]
pub enum Irq {
    Button,
    Radio,
    TimerBreath,
    TimerPwm,
    TimerSec,
    TimerWarmUp,
}

/// The value an event carries.
#[derive(Debug, Clone, Copy, PartialEq, Eq, Structural)]
pub enum Payload {
    Empty,
    Radio(RfEvent),
    Reading(BAC),
}

/// One thing for the caller to carry out.
#[derive(Debug, PartialEq, Eq)]
pub enum Action {
    /// Clear the pending flag of an interrupt source.
    Acknowledge(Irq),
    /// Post an event for a task.
    Spawn(Task, Payload),
    /// Carry out these operations on the display link.
    Display(Vec<DisplayOp>),
    /// Drive the buzzer pin to this level.
    BuzzerPin(PinLevel),
    /// Drive the heater pin to this level.
    HeaterPin(PinLevel),
    /// Let a timer raise its interrupt.
    Listen(Irq),
    /// Stop a timer from raising its interrupt.
    Unlisten(Irq),
    /// Put the radio into receive mode.
    RadioReceive,
    /// Hand the radio a fresh receive buffer.
    RadioSetBuffer,
    /// Transmit these bytes.
    RadioSend(Packet),
}

/// What an [`Action`] is, with its display operations and bytes as sequences.
pub enum ActionView {
    Acknowledge(Irq),
    Spawn(Task, Payload),
    Display(Seq<DisplayOpView>),
    BuzzerPin(PinLevel),
    HeaterPin(PinLevel),
    Listen(Irq),
    Unlisten(Irq),
    RadioReceive,
    RadioSetBuffer,
    RadioSend(Seq<u8>),
}

impl DeepView for Action {
    type V = ActionView;

    open spec fn deep_view(&self) -> ActionView {
        match *self {
            Action::Acknowledge(irq) => ActionView::Acknowledge(irq),
            Action::Spawn(task, payload) => ActionView::Spawn(task, payload),
            Action::Display(ops) => ActionView::Display(ops.deep_view()),
            Action::BuzzerPin(level) => ActionView::BuzzerPin(level),
            Action::HeaterPin(level) => ActionView::HeaterPin(level),
            Action::Listen(irq) => ActionView::Listen(irq),
            Action::Unlisten(irq) => ActionView::Unlisten(irq),
            Action::RadioReceive => ActionView::RadioReceive,
            Action::RadioSetBuffer => ActionView::RadioSetBuffer,
            Action::RadioSend(packet) => ActionView::RadioSend(packet@),
        }
    }
}

impl Resource {
    /// The number under which the dispatcher knows the resource.
    pub open spec fn index(self) -> usize {
        match self {
            Resource::Buffer => 0,
            Resource::Count => 1,
            Resource::Measuring => 2,
            Resource::TimeCounter => 3,
            Resource::Ext => 4,
            Resource::Button => 5,
            Resource::TimerBreath => 6,
            Resource::TimerPwm => 7,
            Resource::TimerSec => 8,
            Resource::TimerWarmUp => 9,
            Resource::Breathalyzer => 10,
            Resource::Buzzer => 11,
            Resource::Longfi => 12,
            Resource::RadioExti => 13,
            Resource::Oled => 14,
        }
    }

    /// The number under which the dispatcher knows the resource.
    pub fn id(self) -> (id: usize)
        ensures
            id == self.index(),
    {
        match self {
            Resource::Buffer => 0,
            Resource::Count => 1,
            Resource::Measuring => 2,
            Resource::TimeCounter => 3,
            Resource::Ext => 4,
            Resource::Button => 5,
            Resource::TimerBreath => 6,
            Resource::TimerPwm => 7,
            Resource::TimerSec => 8,
            Resource::TimerWarmUp => 9,
            Resource::Breathalyzer => 10,
            Resource::Buzzer => 11,
            Resource::Longfi => 12,
            Resource::RadioExti => 13,
            Resource::Oled => 14,
        }
    }
}

impl Task {
    /// The task's place in the task table.
    pub open spec fn index(self) -> usize {
        match self {
            Task::Exti2_3 => 0,
            Task::Exti4_15 => 1,
            Task::RadioEvent => 2,
            Task::SendRadioMessage => 3,
            Task::ButtonEvent => 4,
            Task::SensorPoll => 5,
            Task::BuzzerPwm => 6,
            Task::StopMeasuring => 7,
            Task::WarmUp => 8,
        }
    }

    /// The task at a place of the task table.
    pub open spec fn at(index: int) -> Task {
        if index == 0 {
            Task::Exti2_3
        } else if index == 1 {
            Task::Exti4_15
        } else if index == 2 {
            Task::RadioEvent
        } else if index == 3 {
            Task::SendRadioMessage
        } else if index == 4 {
            Task::ButtonEvent
        } else if index == 5 {
            Task::SensorPoll
        } else if index == 6 {
            Task::BuzzerPwm
        } else if index == 7 {
            Task::StopMeasuring
        } else {
            Task::WarmUp
        }
    }

    /// The task's place in the task table.
    pub fn id(self) -> (id: usize)
        ensures
            id == self.index(),
            id < TASKS,
            Task::at(id as int) == self,
    {
        match self {
            Task::Exti2_3 => 0,
            Task::Exti4_15 => 1,
            Task::RadioEvent => 2,
            Task::SendRadioMessage => 3,
            Task::ButtonEvent => 4,
            Task::SensorPoll => 5,
            Task::BuzzerPwm => 6,
            Task::StopMeasuring => 7,
            Task::WarmUp => 8,
        }
    }

    /// The task at a place of the task table, if the table is that long.
    pub fn from_id(id: usize) -> (task: Option<Task>)
        ensures
            task == if id < TASKS {
                Some(Task::at(id as int))
            } else {
                None
            },
            task matches Some(t) ==> t.index() == id,
    {
        match id {
            0 => Some(Task::Exti2_3),
            1 => Some(Task::Exti4_15),
            2 => Some(Task::RadioEvent),
            3 => Some(Task::SendRadioMessage),
            4 => Some(Task::ButtonEvent),
            5 => Some(Task::SensorPoll),
            6 => Some(Task::BuzzerPwm),
            7 => Some(Task::StopMeasuring),
            8 => Some(Task::WarmUp),
            _ => None,
        }
    }

    /// Whether the task has declared the resource.
    pub open spec fn uses(self, resource: Resource) -> bool {
        match self {
            Task::Exti2_3 => resource is Ext || resource is Button,
            Task::Exti4_15 => resource is Ext || resource is RadioExti,
            Task::RadioEvent => resource is Buffer || resource is Longfi,
            Task::SendRadioMessage => resource is Longfi,
            Task::ButtonEvent => resource is Button || resource is Buzzer
                || resource is Breathalyzer || resource is Oled || resource is Measuring
                || resource is TimerSec,
            Task::SensorPoll => resource is TimerBreath || resource is Breathalyzer,
            Task::BuzzerPwm => resource is Buzzer || resource is TimerPwm,
            Task::StopMeasuring => resource is Buzzer || resource is TimeCounter
                || resource is TimerSec || resource is Measuring,
            Task::WarmUp => resource is Oled || resource is Breathalyzer || resource is Count
                || resource is TimerWarmUp,
        }
    }
}

impl Irq {
    /// Whether handling the interrupt source goes through the resource.
    pub open spec fn behind(self, resource: Resource) -> bool {
        match self {
            Irq::Button => resource is Ext || resource is Button,
            Irq::Radio => resource is Ext || resource is RadioExti,
            Irq::TimerBreath => resource is TimerBreath,
            Irq::TimerPwm => resource is TimerPwm,
            Irq::TimerSec => resource is TimerSec,
            Irq::TimerWarmUp => resource is TimerWarmUp,
        }
    }
}

impl ActionView {
    /// Whether carrying out the action touches the resource.  Posting an
    /// event touches none: the event waits with the dispatcher.
    pub open spec fn touches(self, resource: Resource) -> bool {
        match self {
            ActionView::Acknowledge(irq) => irq.behind(resource),
            ActionView::Spawn(_, _) => false,
            ActionView::Display(_) => resource is Oled,
            ActionView::BuzzerPin(_) => resource is Buzzer,
            ActionView::HeaterPin(_) => resource is Breathalyzer,
            ActionView::Listen(irq) => irq.behind(resource),
            ActionView::Unlisten(irq) => irq.behind(resource),
            ActionView::RadioReceive => resource is Longfi,
            ActionView::RadioSetBuffer => resource is Longfi || resource is Buffer,
            ActionView::RadioSend(_) => resource is Longfi,
        }
    }
}

} // verus!
