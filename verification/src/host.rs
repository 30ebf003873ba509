//! Power of the payload: the host's output pins that switch it.

use vstd::prelude::*;

verus! {

/// Driving one output pin of the host, for the caller to perform.
#[derive(Debug, Copy, Clone, PartialEq, Eq, Structural)]
pub struct GpioWrite {
    pub pin: u16,
    pub high: bool,
}

/// Switches the payload on: pin 45 low, pin 47 high, pin 27 low, in this
/// order.
pub fn enable_payload() -> (v: Vec<GpioWrite>)
    ensures
        v@ == seq![
            GpioWrite { pin: 45, high: false },
            GpioWrite { pin: 47, high: true },
            GpioWrite { pin: 27, high: false },
        ],
{
    vec![gpio_set_low(45), gpio_set_high(47), gpio_set_low(27)]
}

/// Switches the payload off: pins 45, 47 and 27 low, in this order.
pub fn disable_payload() -> (v: Vec<GpioWrite>)
    ensures
        v@ == seq![
            GpioWrite { pin: 45, high: false },
            GpioWrite { pin: 47, high: false },
            GpioWrite { pin: 27, high: false },
        ],
{
    vec![gpio_set_low(45), gpio_set_low(47), gpio_set_low(27)]
}

/// Driving `pin` low.
pub fn gpio_set_low(pin: u16) -> (w: GpioWrite)
    ensures
        w == (GpioWrite { pin, high: false }),
{
    GpioWrite { pin, high: false }
}

/// Driving `pin` high.
pub fn gpio_set_high(pin: u16) -> (w: GpioWrite)
    ensures
        w == (GpioWrite { pin, high: true }),
{
    GpioWrite { pin, high: true }
}

} // verus!
