//! Take-once access to the device's peripheral-ownership tokens.
//!
//! The GPIO register blocks are physically singular, so at most one live
//! ownership token may exist per port. [`Device`] is the explicit take-once
//! factory: it hands the whole token bundle out exactly once and answers
//! every later request with [`Error::PeripheralsAlreadyTaken`], so no second
//! owner of the same physical pins can ever be created through it.

use vstd::prelude::*;
use crate::gpio::gpio16_0::Gpio16_0;
use crate::gpio::gpio8_2::Gpio8_2;

verus! {

/// The single fatal startup condition: the peripheral-ownership tokens were
/// requested a second time.
#[derive(Debug, PartialEq, Eq, Clone, Copy, Structural)]
pub enum Error {
    /// The tokens have already been handed out once.
    PeripheralsAlreadyTaken,
}

/// All peripheral-ownership tokens of the device, handed out together.
#[derive(Debug)]
pub struct Peripherals {
    /// Token for the first 16-pin GPIO port.
    pub gpio16_0: Gpio16_0,
    /// Token for the 8-pin GPIO port.
    pub gpio8_2: Gpio8_2,
}

/// The take-once factory for [`Peripherals`]. Constructed once at startup;
/// after the first successful [`Device::take`] every further request fails
/// instead of aliasing the same physical registers under a second owner.
pub struct Device {
    taken: bool,
}

impl Device {
    /// Whether the tokens have already been handed out.
    pub closed spec fn spec_taken(self) -> bool {
        self.taken
    }

    /// A fresh device whose tokens are still available.
    pub fn new() -> (r: Device)
        ensures
            !r.spec_taken(),
    {
        Device { taken: false }
    }

    /// Hand out the peripheral tokens. Succeeds exactly once: the first call
    /// returns the bundle, every later call returns
    /// [`Error::PeripheralsAlreadyTaken`].
    pub fn take(&mut self) -> (r: Result<Peripherals, Error>)
        ensures
            final(self).spec_taken(),
            r is Ok <==> !old(self).spec_taken(),
            old(self).spec_taken() ==> r == Result::<Peripherals, Error>::Err(
                Error::PeripheralsAlreadyTaken,
            ),
    {
        if self.taken {
            Err(Error::PeripheralsAlreadyTaken)
        } else {
            self.taken = true;
            Ok(
                Peripherals {
                    gpio16_0: Gpio16_0 { _p: () },
                    gpio8_2: Gpio8_2 { _p: () },
                },
            )
        }
    }
}

} // verus!
