//! The status lights of the service's board.

use vstd::prelude::*;

verus! {

/// A status light, wired to a GPIO pin.
#[derive(Debug, Clone, Copy, PartialEq, Eq)]
pub enum Led {
    Red,
    Green,
}

impl Led {
    /// The BCM number of the pin that drives the light.
    pub fn pin(&self) -> (p: u8)
        ensures
            p == match self {
                Led::Red => 17u8,
                Led::Green => 18u8,
            },
    {
        match self {
            Led::Red => 17,
            Led::Green => 18,
        }
    }
}

} // verus!
