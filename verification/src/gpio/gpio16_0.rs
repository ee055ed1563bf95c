//! The first 16-pin GPIO port.

use vstd::prelude::*;
use crate::gpio::registers::{ClockControl, CLK_GPIO_0};
use crate::gpio::{Floating, GpioExt, Input, Pin};

verus! {

/// Ownership token for the port's register block. Exactly one exists per
/// process, handed out by [`crate::peripherals::Device::take`]; consuming it
/// in [`GpioExt::split`] is therefore possible at most once.
#[derive(Debug)]
pub struct Gpio16_0 {
    pub(crate) _p: (),
}

/// GPIO parts: one typed pin per physical pin, each starting in floating
/// input mode.
pub struct Parts {
    /// Pin
    pub p16_0_0: Pin<0, 0, Input<Floating>>,
    /// Pin
    pub p16_0_1: Pin<0, 1, Input<Floating>>,
    /// Pin
    pub p16_0_2: Pin<0, 2, Input<Floating>>,
    /// Pin
    pub p16_0_3: Pin<0, 3, Input<Floating>>,
    /// Pin
    pub p16_0_4: Pin<0, 4, Input<Floating>>,
    /// Pin
    pub p16_0_5: Pin<0, 5, Input<Floating>>,
    /// Pin
    pub p16_0_6: Pin<0, 6, Input<Floating>>,
    /// Pin
    pub p16_0_7: Pin<0, 7, Input<Floating>>,
    /// Pin
    pub p16_0_8: Pin<0, 8, Input<Floating>>,
    /// Pin
    pub p16_0_9: Pin<0, 9, Input<Floating>>,
    /// Pin
    pub p16_0_10: Pin<0, 10, Input<Floating>>,
    /// Pin
    pub p16_0_11: Pin<0, 11, Input<Floating>>,
    /// Pin
    pub p16_0_12: Pin<0, 12, Input<Floating>>,
    /// Pin
    pub p16_0_13: Pin<0, 13, Input<Floating>>,
    /// Pin
    pub p16_0_14: Pin<0, 14, Input<Floating>>,
    /// Pin
    pub p16_0_15: Pin<0, 15, Input<Floating>>,
}

impl GpioExt for Gpio16_0 {
    type Parts = Parts;

    fn split(self, pm: &mut ClockControl) -> (parts: Parts)
        ensures
            final(pm).clk_apb_p == old(pm).clk_apb_p | CLK_GPIO_0,
    {
        pm.enable(CLK_GPIO_0);
        Parts {
            p16_0_0: Pin::new(),
            p16_0_1: Pin::new(),
            p16_0_2: Pin::new(),
            p16_0_3: Pin::new(),
            p16_0_4: Pin::new(),
            p16_0_5: Pin::new(),
            p16_0_6: Pin::new(),
            p16_0_7: Pin::new(),
            p16_0_8: Pin::new(),
            p16_0_9: Pin::new(),
            p16_0_10: Pin::new(),
            p16_0_11: Pin::new(),
            p16_0_12: Pin::new(),
            p16_0_13: Pin::new(),
            p16_0_14: Pin::new(),
            p16_0_15: Pin::new(),
        }
    }
}

} // verus!
