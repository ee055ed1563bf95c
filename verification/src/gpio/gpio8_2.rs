//! The 8-pin GPIO port.

use vstd::prelude::*;
use crate::gpio::registers::{ClockControl, CLK_GPIO_2};
use crate::gpio::{Floating, GpioExt, Input, Pin};

verus! {

/// Ownership token for the port's register block. Exactly one exists per
/// process, handed out by [`crate::peripherals::Device::take`]; consuming it
/// in [`GpioExt::split`] is therefore possible at most once.
#[derive(Debug)]
pub struct Gpio8_2 {
    pub(crate) _p: (),
}

/// GPIO parts: one typed pin per physical pin, each starting in floating
/// input mode.
pub struct Parts {
    /// Pin
    pub p8_0_0: Pin<2, 0, Input<Floating>>,
    /// Pin
    pub p8_0_1: Pin<2, 1, Input<Floating>>,
    /// Pin
    pub p8_0_2: Pin<2, 2, Input<Floating>>,
    /// Pin
    pub p8_0_3: Pin<2, 3, Input<Floating>>,
    /// Pin
    pub p8_0_4: Pin<2, 4, Input<Floating>>,
    /// Pin
    pub p8_0_5: Pin<2, 5, Input<Floating>>,
    /// Pin
    pub p8_0_6: Pin<2, 6, Input<Floating>>,
    /// Pin
    pub p8_0_7: Pin<2, 7, Input<Floating>>,
}

impl GpioExt for Gpio8_2 {
    type Parts = Parts;

    fn split(self, pm: &mut ClockControl) -> (parts: Parts)
        ensures
            final(pm).clk_apb_p == old(pm).clk_apb_p | CLK_GPIO_2,
    {
        pm.enable(CLK_GPIO_2);
        Parts {
            p8_0_0: Pin::new(),
            p8_0_1: Pin::new(),
            p8_0_2: Pin::new(),
            p8_0_3: Pin::new(),
            p8_0_4: Pin::new(),
            p8_0_5: Pin::new(),
            p8_0_6: Pin::new(),
            p8_0_7: Pin::new(),
        }
    }
}

} // verus!
