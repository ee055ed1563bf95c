//! Tests of the take-once peripheral factory and the serial capability
//! surface.

use mik32_hal::gpio::registers::ClockControl;
use mik32_hal::gpio::GpioExt;
use mik32_hal::peripherals::{Device, Error};
use mik32_hal::serial::{Config, PinRx, PinTx, Serial};

#[test]
fn second_take_fails_with_already_taken() {
    let mut dev = Device::new();
    let first = dev.take();
    assert!(first.is_ok());
    // Split the 16-pin port once; the raw token is consumed by the split.
    let mut pm = ClockControl::new();
    let _parts = first.unwrap().gpio16_0.split(&mut pm);
    // Asking for the tokens a second time must fail rather than hand out a
    // second owner of the same pins.
    let second = dev.take();
    assert_eq!(second.unwrap_err(), Error::PeripheralsAlreadyTaken);
    // And it keeps failing.
    let third = dev.take();
    assert_eq!(third.unwrap_err(), Error::PeripheralsAlreadyTaken);
}

#[test]
fn fresh_devices_are_independent() {
    let mut a = Device::new();
    let mut b = Device::new();
    assert!(a.take().is_ok());
    assert!(b.take().is_ok());
    assert_eq!(a.take().unwrap_err(), Error::PeripheralsAlreadyTaken);
}

// A stand-in serial peripheral and a pin pair for it, as a platform layer
// would declare them.
struct FakeUsart(u8);
struct TxPin;
struct RxPin;

impl PinTx<FakeUsart> for TxPin {}

impl PinRx<FakeUsart> for RxPin {}

#[test]
fn serial_release_returns_what_was_bundled() {
    let serial = Serial::new(FakeUsart(42), (TxPin, RxPin), Config {});
    let (usart, _pins) = serial.release();
    assert_eq!(usart.0, 42);
}

#[test]
fn serial_splits_into_both_directions() {
    let serial = Serial::new(FakeUsart(7), (TxPin, RxPin), Config {});
    let (_tx, _rx) = serial.split();
}
