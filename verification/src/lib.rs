//! Verified core of a breath-alcohol sensing device: the sensor, buzzer and
//! display drivers as state machines over plain values, the record of the
//! radio link, a fixed-priority run-to-completion task dispatcher with
//! priority ceilings, and the task bodies that tie them together.  Hardware
//! access stays with the caller: every function here takes the values that
//! were read and returns the actions to perform.

pub mod actions;
pub mod breathalyzer;
pub mod buzzer;
pub mod counter;
pub mod dispatcher;
pub mod message;
pub mod oled;
pub mod packet;
pub mod pin;
pub mod radio;
pub mod step;
pub mod table;
pub mod tasks;
