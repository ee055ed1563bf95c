//! Serial-port capability surface.
//!
//! The serial driver proper (register bring-up, polling reads and writes)
//! belongs to the platform layer; what lives here is the ownership
//! bookkeeping around it: the marker traits that say which pins may serve a
//! given serial peripheral, and the [`Serial`] bundle that holds the
//! peripheral together with its pin pair until they are released.

use vstd::prelude::*;
use core::marker::PhantomData;

verus! {

/// Pin pairs that can serve serial peripheral `U` (transmit, receive).
pub trait Pins<U> {

}

/// Pins that can carry the transmit line of serial peripheral `U`.
pub trait PinTx<U> {

}

/// Pins that can carry the receive line of serial peripheral `U`.
pub trait PinRx<U> {

}

impl<U, TX: PinTx<U>, RX: PinRx<U>> Pins<U> for (TX, RX) {

}

/// USART configuration
pub struct Config {}

/// Serial abstraction: owns the peripheral and the pin pair that serves it.
pub struct Serial<U, PINS> {
    usart: U,
    pins: PINS,
}

/// Serial receiver
pub struct Rx<U> {
    _usart: PhantomData<U>,
}

/// Serial transmitter
pub struct Tx<U> {
    _usart: PhantomData<U>,
}

impl<U, PINS> Serial<U, PINS> where PINS: Pins<U> {
    /// The peripheral held by the bundle.
    pub closed spec fn spec_usart(self) -> U {
        self.usart
    }

    /// The pin pair held by the bundle.
    pub closed spec fn spec_pins(self) -> PINS {
        self.pins
    }

    /// Takes ownership of a serial peripheral and the pin pair that serves
    /// it. The hardware bring-up of the peripheral is the platform layer's
    /// business and happens before the handles reach this bundle.
    pub fn new(usart: U, pins: PINS, config: Config) -> (r: Self)
        ensures
            r.spec_usart() == usart,
            r.spec_pins() == pins,
    {
        let Config {  } = config;
        Serial { usart, pins }
    }

    /// Splits the bundle into a transmit handle and a receive handle, each
    /// standing for one direction of the peripheral.
    pub fn split(self) -> (r: (Tx<U>, Rx<U>)) {
        (Tx { _usart: PhantomData }, Rx { _usart: PhantomData })
    }

    /// Gives the peripheral and the pin pair back, exactly as they were
    /// handed in.
    pub fn release(self) -> (r: (U, PINS))
        ensures
            r.0 == self.spec_usart(),
            r.1 == self.spec_pins(),
    {
        (self.usart, self.pins)
    }
}

} // verus!
