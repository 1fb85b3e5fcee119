//! A small responder for the radio link: two counters, one per channel, that
//! incoming records add to, and a radio task that answers each record with
//! the new value of its counter.

use crate::actions::{Action, ActionView};
use crate::message::{Channel, Message};
use crate::packet::Packet;
use crate::radio::ClientEvent;
use vstd::prelude::*;

verus! {

/// The counter application: a record adds its data to the counter of its
/// channel, and the answer is the same record with the counter's new value as
/// its data, encoded.  `state` is left alone.
pub fn application(
    message: Message,
    counter_1: &mut u32,
    counter_2: &mut u32,
    state: &mut bool,
) -> (packet: Packet)
    requires
        match message.channel {
            Channel::One => *old(counter_1) + message.data <= u32::MAX,
            Channel::Two => *old(counter_2) + message.data <= u32::MAX,
        },
    ensures
        *final(counter_1) == if message.channel == Channel::One {
            (*old(counter_1) + message.data) as u32
        } else {
            *old(counter_1)
        },
        *final(counter_2) == if message.channel == Channel::Two {
            (*old(counter_2) + message.data) as u32
        } else {
            *old(counter_2)
        },
        *final(state) == *old(state),
        packet@ == (Message {
            id: message.id,
            channel: message.channel,
            data: if message.channel == Channel::One {
                *final(counter_1)
            } else {
                *final(counter_2)
            },
        }).encoding(),
{
    let data = match message.channel {
        Channel::One => {
            *counter_1 = *counter_1 + message.data;
            *counter_1
        },
        Channel::Two => {
            *counter_2 = *counter_2 + message.data;
            *counter_2
        },
    };
    let response = Message { id: message.id, channel: message.channel, data };
    response.serialize()
}

/// The state of the responder: the address it answers to, its two counters,
/// and a flag that the application may use.
#[derive(Debug, Clone, Copy, PartialEq, Eq, Structural)]
pub struct Responder {
    pub address: u32,
    pub counter_1: u32,
    pub counter_2: u32,
    pub state: bool,
}

impl Responder {
    /// The counter that records of `channel` add to.
    pub open spec fn counter(self, channel: Channel) -> u32 {
        match channel {
            Channel::One => self.counter_1,
            Channel::Two => self.counter_2,
        }
    }

    /// The record that `bytes` hold for this responder, if they hold one that
    /// it answers: one that decodes, bears its address, and does not take its
    /// counter beyond the largest value a counter can have.
    pub open spec fn request(self, bytes: Seq<u8>) -> Option<Message> {
        match Message::decoding(bytes) {
            Some(message) if message.id == self.address && self.counter(message.channel)
                + message.data <= u32::MAX => Some(message),
            _ => None,
        }
    }

    /// The responder after it has counted `message`.
    pub open spec fn counted(self, message: Message) -> Responder {
        match message.channel {
            Channel::One => Responder {
                counter_1: (self.counter_1 + message.data) as u32,
                ..self
            },
            Channel::Two => Responder {
                counter_2: (self.counter_2 + message.data) as u32,
                ..self
            },
        }
    }

    /// The state after the radio task has run on `event`.
    pub open spec fn after_radio_event(self, event: ClientEvent) -> Responder {
        match event {
            ClientEvent::Rx(bytes) => match self.request(bytes@) {
                Some(message) => self.counted(message),
                None => self,
            },
            _ => self,
        }
    }

    /// What the radio task does on `event`.
    pub open spec fn radio_event_actions(self, event: ClientEvent) -> Seq<ActionView> {
        match event {
            ClientEvent::TxDone => seq![ActionView::RadioReceive],
            ClientEvent::Rx(bytes) => {
                let rearm = seq![ActionView::RadioSetBuffer, ActionView::RadioReceive];
                match self.request(bytes@) {
                    Some(message) => seq![
                        ActionView::RadioSend(
                            (Message {
                                data: self.counted(message).counter(message.channel),
                                ..message
                            }).encoding(),
                        ),
                    ] + rearm,
                    None => rearm,
                }
            },
            ClientEvent::Quiet => Seq::empty(),
        }
    }

    /// A responder with both counters at 0.
    pub fn new(address: u32) -> (responder: Responder)
        ensures
            responder == (Responder { address, counter_1: 0, counter_2: 0, state: false }),
    {
        Responder { address, counter_1: 0, counter_2: 0, state: false }
    }

    /// The radio task of the responder.  After a transmission the radio goes
    /// back to receive mode.  After a reception the bytes are decoded; a
    /// record that bears this responder's address is counted and answered,
    /// unless its counter would pass the largest value it can have; and
    /// whatever the bytes held, the radio gets a fresh buffer and goes back
    /// to receive mode.
    pub fn radio_event(&mut self, event: &ClientEvent) -> (actions: Vec<Action>)
        ensures
            *final(self) == old(self).after_radio_event(*event),
            actions.deep_view() == old(self).radio_event_actions(*event),
    {
        let mut actions: Vec<Action> = Vec::new();
        match event {
            ClientEvent::TxDone => {
                actions.push(Action::RadioReceive);
            },
            ClientEvent::Rx(bytes) => {
                match Message::deserialize(bytes.as_slice()) {
                    Some(message) => {
                        let counter = match message.channel {
                            Channel::One => self.counter_1,
                            Channel::Two => self.counter_2,
                        };
                        if message.id == self.address && message.data <= u32::MAX - counter {
                            let answer = application(
                                message,
                                &mut self.counter_1,
                                &mut self.counter_2,
                                &mut self.state,
                            );
                            actions.push(Action::RadioSend(answer));
                        }
                    },
                    None => {},
                }
                actions.push(Action::RadioSetBuffer);
                actions.push(Action::RadioReceive);
            },
            ClientEvent::Quiet => {},
        }
        assert(actions.deep_view() =~= old(self).radio_event_actions(*event));
        actions
    }
}

} // verus!
