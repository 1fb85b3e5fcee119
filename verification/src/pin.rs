//! Levels of a digital output pin.

use vstd::prelude::*;

verus! {

/// The level an output pin is driven to.
#[derive(Debug, Clone, Copy, PartialEq, Eq, Structural)]
pub enum PinLevel {
    Low,
    High,
}

} // verus!
