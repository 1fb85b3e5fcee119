//! The radio as the tasks see it: a black box that is put into receive mode,
//! handed bytes to send, and asked what an interrupt of its line meant.

use vstd::prelude::*;

verus! {

/// The line of the radio that raised its interrupt.
#[derive(Debug, Clone, Copy, PartialEq, Eq, Structural)]
pub struct RfEvent {
    pub dio: u8,
}

/// What the radio reports when it is handed an [`RfEvent`].
#[derive(Debug, Clone, PartialEq, Eq)]
pub enum ClientEvent {
    /// A transmission has completed.
    TxDone,
    /// A reception has completed, with these bytes.
    Rx(Vec<u8>),
    /// Nothing to act on.
    Quiet,
}

/// Where the radio session stands.
#[derive(Debug, Clone, Copy, PartialEq, Eq, Structural)]
pub enum RadioSession {
    /// Not yet put into receive mode.
    Idle,
    /// Listening.
    Receiving,
    /// A reception has completed and its bytes wait to be taken.
    RxPending,
    /// Bytes were handed over for transmission.
    TxPending,
}

impl RadioSession {
    /// The session after the radio reported `event`: a completed reception
    /// waits to be taken; nothing else moves the session.
    pub open spec fn reported(self, event: ClientEvent) -> RadioSession {
        match event {
            ClientEvent::Rx(_) => RadioSession::RxPending,
            _ => self,
        }
    }

    /// A session that has not started.
    pub fn new() -> (session: RadioSession)
        ensures
            session == RadioSession::Idle,
    {
        RadioSession::Idle
    }

    /// The radio was put into receive mode.
    pub fn receive(&mut self)
        ensures
            *final(self) == RadioSession::Receiving,
    {
        *self = RadioSession::Receiving;
    }

    /// Bytes were handed to the radio for transmission.
    pub fn send(&mut self)
        ensures
            *final(self) == RadioSession::TxPending,
    {
        *self = RadioSession::TxPending;
    }

    /// The radio reported `event`.
    pub fn handle_event(&mut self, event: &ClientEvent)
        ensures
            *final(self) == old(self).reported(*event),
    {
        match event {
            ClientEvent::Rx(_) => {
                *self = RadioSession::RxPending;
            },
            _ => {},
        }
    }
}

} // verus!
